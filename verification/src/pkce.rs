//! Secrets of one login attempt: the PKCE verifier with its challenge, and
//! the CSRF token that ties the callback to the request that started it.

use oauth2::{CsrfToken, PkceCodeChallenge, PkceCodeVerifier};
use vstd::prelude::*;
use vstd::string::StrSliceExecFns;

verus! {

/// A character of the URL-safe base64 alphabet.
pub open spec fn is_url_safe_char(c: char) -> bool {
    ||| 'A' <= c <= 'Z'
    ||| 'a' <= c <= 'z'
    ||| '0' <= c <= '9'
    ||| c == '-'
    ||| c == '_'
}

/// Every character of `s` is of the URL-safe base64 alphabet.
pub open spec fn is_url_safe_text(s: Seq<char>) -> bool {
    forall|i: int| 0 <= i < s.len() ==> is_url_safe_char(#[trigger] s[i])
}

/// Length of a generated PKCE verifier: 32 random bytes in base64, unpadded.
pub const VERIFIER_LEN: usize = 43;

/// Length of a generated CSRF token: 16 random bytes in base64, unpadded.
pub const CSRF_TOKEN_LEN: usize = 22;

/// What a freshly generated PKCE verifier looks like, whatever the draw.
pub open spec fn is_generated_verifier(s: Seq<char>) -> bool {
    s.len() == VERIFIER_LEN && is_url_safe_text(s)
}

/// What a freshly generated CSRF token looks like, whatever the draw.
pub open spec fn is_generated_csrf_token(s: Seq<char>) -> bool {
    s.len() == CSRF_TOKEN_LEN && is_url_safe_text(s)
}

/// An unreserved character of a URL: a letter, a digit, or one of `-`, `.`,
/// `_` and `~`.
pub open spec fn is_unreserved_char(c: char) -> bool {
    ||| 'A' <= c <= 'Z'
    ||| 'a' <= c <= 'z'
    ||| '0' <= c <= '9'
    ||| c == '-'
    ||| c == '.'
    ||| c == '_'
    ||| c == '~'
}

/// A text that can serve as a PKCE verifier: 43 to 128 unreserved
/// characters.
pub open spec fn is_usable_verifier(s: Seq<char>) -> bool {
    &&& 43 <= s.len() <= 128
    &&& forall|i: int| 0 <= i < s.len() ==> is_unreserved_char(#[trigger] s[i])
}

/// The S256 challenge of a verifier: the unpadded URL-safe base64 text of
/// the SHA-256 digest of the verifier's bytes.
pub uninterp spec fn s256_challenge(verifier: Seq<char>) -> Seq<char>;

/// Draws a verifier with `oauth2::PkceCodeChallenge::new_random_sha256` and
/// keeps the verifier half of the pair.
///
/// Trusted: the verifier is the unpadded URL-safe base64 text of 32 random
/// bytes, so it has 43 characters, all of that alphabet. Nothing is claimed
/// about which ones.
#[verifier::external_body]
pub(crate) fn random_verifier() -> (verifier: String)
    ensures
        is_generated_verifier(verifier@),
{
    PkceCodeChallenge::new_random_sha256().1.secret().to_string()
}

/// Computes the challenge with
/// `oauth2::PkceCodeChallenge::from_code_verifier_sha256`.
///
/// Trusted: the result depends on the verifier alone and is what
/// [`s256_challenge`] names. The outside function panics on a verifier of
/// fewer than 43 or more than 128 bytes; a usable verifier has one byte to
/// the character and so is none of these.
#[verifier::external_body]
pub(crate) fn challenge_of(verifier: &str) -> (challenge: String)
    requires
        is_usable_verifier(verifier@),
    ensures
        challenge@ == s256_challenge(verifier@),
{
    PkceCodeChallenge::from_code_verifier_sha256(&PkceCodeVerifier::new(verifier.to_string()))
        .as_str()
        .to_string()
}

/// Draws a token with `oauth2::CsrfToken::new_random`.
///
/// Trusted: the token is the unpadded URL-safe base64 text of 16 random
/// bytes, so it has 22 characters, all of that alphabet. Nothing is claimed
/// about which ones.
#[verifier::external_body]
pub(crate) fn random_csrf_token() -> (token: String)
    ensures
        is_generated_csrf_token(token@),
{
    CsrfToken::new_random().secret().to_string()
}

/// Whether a character is unreserved.
pub fn unreserved_char(c: char) -> (ok: bool)
    ensures
        ok == is_unreserved_char(c),
{
    ('A' <= c && c <= 'Z') || ('a' <= c && c <= 'z') || ('0' <= c && c <= '9') || c == '-'
        || c == '.' || c == '_' || c == '~'
}

/// Whether a text can serve as a PKCE verifier: 43 to 128 unreserved
/// characters.
pub fn usable_verifier(verifier: &str) -> (ok: bool)
    ensures
        ok == is_usable_verifier(verifier@),
{
    let n = verifier.unicode_len();
    if n < 43 || n > 128 {
        return false;
    }
    let mut i: usize = 0;
    while i < n
        invariant
            n == verifier@.len(),
            i <= n,
            forall|j: int| 0 <= j < i ==> is_unreserved_char(#[trigger] verifier@[j]),
        decreases n - i,
    {
        if !unreserved_char(verifier.get_char(i)) {
            return false;
        }
        i += 1;
    }
    true
}

/// The S256 challenge of a verifier, where the text can serve as one.
pub fn code_challenge(verifier: &str) -> (challenge: Option<String>)
    ensures
        match challenge {
            Some(c) => is_usable_verifier(verifier@) && c@ == s256_challenge(verifier@),
            None => !is_usable_verifier(verifier@),
        },
{
    if usable_verifier(verifier) {
        Some(challenge_of(verifier))
    } else {
        None
    }
}

} // verus!
