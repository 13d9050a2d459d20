use oauth2::url::Url;
use youtinerary_auth::authorize::{authorize, Authorization};
use youtinerary_auth::client::{login_scopes, AuthSettings, ConfigInvalid, OAuthClient};
use youtinerary_auth::error::AuthError;
use youtinerary_auth::response::Response;
use youtinerary_auth::store::WriteReply;

fn settings() -> AuthSettings {
    AuthSettings {
        client_id: "itinerary-web".to_string(),
        client_secret: "s3cr3t".to_string(),
        redirect_url: "https://app.example.com/callback".to_string(),
        token_url: "https://id.example.com/token".to_string(),
        auth_url: "https://id.example.com/authorize".to_string(),
        introspection_url: "https://id.example.com/userinfo".to_string(),
        revocation_url: "https://id.example.com/revoke".to_string(),
    }
}

fn query_of(url: &str) -> Vec<(String, String)> {
    Url::parse(url)
        .unwrap()
        .query_pairs()
        .map(|(k, v)| (k.into_owned(), v.into_owned()))
        .collect()
}

fn pair(name: &str, value: &str) -> (String, String) {
    (name.to_string(), value.to_string())
}

#[test]
fn valid_settings_make_a_client() {
    let client = OAuthClient::try_from(settings()).unwrap();
    assert_eq!(client.settings(), &settings());
}

#[test]
fn malformed_auth_url_is_reported() {
    let mut s = settings();
    s.auth_url = "not a url".to_string();
    assert_eq!(OAuthClient::try_from(s).unwrap_err(), ConfigInvalid::AuthUrl);
}

#[test]
fn malformed_token_url_is_reported() {
    let mut s = settings();
    s.token_url = "/token".to_string();
    assert_eq!(OAuthClient::try_from(s).unwrap_err(), ConfigInvalid::TokenUrl);
}

#[test]
fn malformed_revocation_url_is_reported() {
    let mut s = settings();
    s.revocation_url = String::new();
    assert_eq!(OAuthClient::try_from(s).unwrap_err(), ConfigInvalid::RevocationUrl);
}

#[test]
fn malformed_introspection_url_is_reported() {
    let mut s = settings();
    s.introspection_url = "id.example.com/userinfo".to_string();
    assert_eq!(OAuthClient::try_from(s).unwrap_err(), ConfigInvalid::IntrospectionUrl);
}

#[test]
fn malformed_redirect_url_is_reported() {
    let mut s = settings();
    s.redirect_url = "https://".to_string();
    assert_eq!(OAuthClient::try_from(s).unwrap_err(), ConfigInvalid::RedirectUrl);
}

#[test]
fn first_malformed_url_wins() {
    let mut s = settings();
    s.redirect_url = "nope".to_string();
    s.token_url = "nope".to_string();
    s.introspection_url = "nope".to_string();
    assert_eq!(OAuthClient::try_from(s).unwrap_err(), ConfigInvalid::TokenUrl);
    let mut s = settings();
    s.redirect_url = "nope".to_string();
    s.revocation_url = "nope".to_string();
    s.introspection_url = "nope".to_string();
    assert_eq!(OAuthClient::try_from(s).unwrap_err(), ConfigInvalid::RevocationUrl);
}

#[test]
fn credentials_are_not_parsed() {
    let mut s = settings();
    s.client_id = "not a url".to_string();
    s.client_secret = String::new();
    assert!(OAuthClient::try_from(s).is_ok());
}

#[test]
fn scopes_are_identify_email_openid() {
    assert_eq!(login_scopes(), vec!["identify", "email", "openid"]);
}

#[test]
fn login_url_for_given_secrets() {
    let client = OAuthClient::try_from(settings()).unwrap();
    let url = client.login_url("tok en", "dBjftJeZ4CVP-mB92K27uhbUJU1p1r_wW1gFWFOEjXk");
    assert_eq!(
        url,
        "https://id.example.com/authorize?response_type=code&client_id=itinerary-web\
         &state=tok+en&code_challenge=E9Melhoa2OwvFrEMTJguCHaoeK1t8URWbuGJSstw-cM\
         &code_challenge_method=S256\
         &redirect_uri=https%3A%2F%2Fapp.example.com%2Fcallback\
         &scope=identify+email+openid"
    );
}

#[test]
fn login_url_keeps_the_query_of_the_endpoint() {
    let mut s = settings();
    s.auth_url = "https://id.example.com/authorize?tenant=7".to_string();
    let client = OAuthClient::try_from(s).unwrap();
    let url = client.login_url("t", &"v".repeat(43));
    let query = query_of(&url);
    assert_eq!(query[0], pair("tenant", "7"));
    assert_eq!(query[1], pair("response_type", "code"));
}

#[test]
fn scenario_a_authorize_redirects_to_the_authorization_server() {
    let client = OAuthClient::try_from(settings()).unwrap();
    let authorization = authorize(&client, None);
    let state = authorization.state.clone();
    let challenge = authorization.code_challenge.clone();
    let response = authorization.on_stored(WriteReply::Stored).unwrap();

    assert_eq!(response.status, 307);
    assert_eq!(response.set_cookie, None);
    let location = response.location.unwrap();
    assert!(location.starts_with("https://id.example.com/authorize?"));
    assert!(location.contains("client_id=itinerary-web"));
    assert!(location.contains("response_type=code"));
    assert!(location.contains("code_challenge_method=S256"));
    assert_eq!(
        query_of(&location),
        vec![
            pair("response_type", "code"),
            pair("client_id", "itinerary-web"),
            pair("state", &state.csrf_token),
            pair("code_challenge", &challenge),
            pair("code_challenge_method", "S256"),
            pair("redirect_uri", "https://app.example.com/callback"),
            pair("scope", "identify email openid"),
        ]
    );
    assert_eq!(state.return_url, "/");
}

#[test]
fn authorize_keeps_a_given_return_url() {
    let client = OAuthClient::try_from(settings()).unwrap();
    let authorization = authorize(&client, Some("/trips/7".to_string()));
    assert_eq!(authorization.state.return_url, "/trips/7");
}

#[test]
fn authorize_fails_when_the_state_was_not_stored() {
    let client = OAuthClient::try_from(settings()).unwrap();
    let authorization = authorize(&client, None);
    assert_eq!(
        authorization.on_stored(WriteReply::Unavailable),
        Err(AuthError::StoreUnavailable)
    );
}

#[test]
fn assemble_fills_the_default_return_url() {
    let a = Authorization::assemble(
        "csrf".to_string(),
        "verifier".to_string(),
        "challenge".to_string(),
        "https://id.example.com/authorize?x=1".to_string(),
        None,
    );
    assert_eq!(a.state.csrf_token, "csrf");
    assert_eq!(a.state.pkce_code_verifier_secret, "verifier");
    assert_eq!(a.state.return_url, "/");
    assert_eq!(a.code_challenge, "challenge");
    assert_eq!(a.login_url, "https://id.example.com/authorize?x=1");
    assert_eq!(
        a.on_stored(WriteReply::Stored),
        Ok(Response {
            status: 307,
            location: Some("https://id.example.com/authorize?x=1".to_string()),
            set_cookie: None,
        })
    );
}

#[test]
fn assemble_keeps_a_given_return_url() {
    let a = Authorization::assemble(
        "c".to_string(),
        "v".to_string(),
        "h".to_string(),
        "u".to_string(),
        Some("/back".to_string()),
    );
    assert_eq!(a.state.return_url, "/back");
}
