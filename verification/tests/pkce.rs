use std::collections::HashSet;

use youtinerary_auth::authorize::authorize;
use youtinerary_auth::client::{AuthSettings, OAuthClient};
use youtinerary_auth::pkce::{code_challenge, unreserved_char, usable_verifier};

fn url_safe_char(c: char) -> bool {
    c.is_ascii_alphanumeric() || c == '-' || c == '_'
}

fn pkce_client() -> OAuthClient {
    OAuthClient::try_from(AuthSettings {
        client_id: "itinerary-web".to_string(),
        client_secret: "s3cr3t".to_string(),
        redirect_url: "https://app.example.com/callback".to_string(),
        token_url: "https://id.example.com/token".to_string(),
        auth_url: "https://id.example.com/authorize".to_string(),
        introspection_url: "https://id.example.com/userinfo".to_string(),
        revocation_url: "https://id.example.com/revoke".to_string(),
    })
    .unwrap()
}

#[test]
fn challenge_matches_the_published_example() {
    // The worked example of RFC 7636, appendix B.
    assert_eq!(
        code_challenge("dBjftJeZ4CVP-mB92K27uhbUJU1p1r_wW1gFWFOEjXk"),
        Some("E9Melhoa2OwvFrEMTJguCHaoeK1t8URWbuGJSstw-cM".to_string())
    );
}

#[test]
fn challenge_differs_from_its_verifier() {
    let verifier = "a".repeat(43);
    let challenge = code_challenge(&verifier).unwrap();
    assert_ne!(challenge, verifier);
    assert_eq!(challenge.len(), 43);
}

#[test]
fn challenge_is_refused_for_a_short_verifier() {
    assert_eq!(code_challenge(&"a".repeat(42)), None);
}

#[test]
fn challenge_is_refused_for_a_long_verifier() {
    assert_eq!(code_challenge(&"a".repeat(129)), None);
    assert!(code_challenge(&"a".repeat(128)).is_some());
}

#[test]
fn challenge_is_refused_for_a_foreign_character() {
    let mut verifier = "a".repeat(42);
    verifier.push('é');
    assert_eq!(code_challenge(&verifier), None);
    let mut verifier = "a".repeat(42);
    verifier.push('+');
    assert_eq!(code_challenge(&verifier), None);
}

#[test]
fn challenge_is_computed_for_every_unreserved_character() {
    let verifier = "AZaz09-._~".repeat(5);
    assert!(usable_verifier(&verifier));
    assert_eq!(code_challenge(&verifier).unwrap().len(), 43);
}

#[test]
fn usable_verifier_bounds() {
    assert!(!usable_verifier(""));
    assert!(!usable_verifier(&"Z".repeat(42)));
    assert!(usable_verifier(&"Z".repeat(43)));
    assert!(usable_verifier(&"0-_z9A.~".repeat(16)));
    assert!(!usable_verifier(&"0-_z9A.~".repeat(17)));
    assert!(usable_verifier(&"Z".repeat(128)));
    assert!(!usable_verifier(&"Z".repeat(129)));
    assert!(!usable_verifier(&" ".repeat(43)));
}

#[test]
fn unreserved_alphabet() {
    for c in ['A', 'M', 'Z', 'a', 'm', 'z', '0', '5', '9', '-', '.', '_', '~'] {
        assert!(unreserved_char(c), "{c}");
    }
    for c in ['+', '/', '=', ' ', '@', '[', '`', '{', ':', ',', 'é'] {
        assert!(!unreserved_char(c), "{c}");
    }
}

#[test]
fn generated_secrets_have_their_shape() {
    let a = authorize(&pkce_client(), None);
    assert_eq!(a.state.pkce_code_verifier_secret.len(), 43);
    assert!(a.state.pkce_code_verifier_secret.chars().all(url_safe_char));
    assert_eq!(a.state.csrf_token.len(), 22);
    assert!(a.state.csrf_token.chars().all(url_safe_char));
    assert!(usable_verifier(&a.state.pkce_code_verifier_secret));
}

#[test]
fn generated_challenge_is_that_of_the_verifier() {
    for _ in 0..100 {
        let a = authorize(&pkce_client(), None);
        assert_eq!(
            Some(a.code_challenge.clone()),
            code_challenge(&a.state.pkce_code_verifier_secret)
        );
    }
}

#[test]
fn ten_thousand_secrets_are_pairwise_distinct() {
    let client = pkce_client();
    let mut seen: HashSet<String> = HashSet::new();
    for _ in 0..10_000 {
        let a = authorize(&client, None);
        assert!(seen.insert(a.state.csrf_token));
        assert!(seen.insert(a.state.pkce_code_verifier_secret));
    }
    assert_eq!(seen.len(), 20_000);
}
