//! The OAuth2 client: its settings, their validation at start-up, and the
//! URL that opens a login at the authorization server.

use crate::pkce::{is_usable_verifier, s256_challenge};
use oauth2::basic::BasicClient;
use oauth2::url::Url;
use oauth2::{AuthUrl, ClientId, CsrfToken, PkceCodeChallenge, PkceCodeVerifier, RedirectUrl, Scope};
use vstd::prelude::*;
use vstd::string::StringExecFns;

verus! {

/// Settings of the client as the operator writes them.
#[derive(Clone, Debug, PartialEq, Eq)]
pub struct AuthSettings {
    pub client_id: String,
    pub client_secret: String,
    pub redirect_url: String,
    pub token_url: String,
    pub auth_url: String,
    pub introspection_url: String,
    pub revocation_url: String,
}

/// Mathematical content of [`AuthSettings`].
pub struct SettingsView {
    pub client_id: Seq<char>,
    pub client_secret: Seq<char>,
    pub redirect_url: Seq<char>,
    pub token_url: Seq<char>,
    pub auth_url: Seq<char>,
    pub introspection_url: Seq<char>,
    pub revocation_url: Seq<char>,
}

impl View for AuthSettings {
    type V = SettingsView;

    open spec fn view(&self) -> SettingsView {
        SettingsView {
            client_id: self.client_id@,
            client_secret: self.client_secret@,
            redirect_url: self.redirect_url@,
            token_url: self.token_url@,
            auth_url: self.auth_url@,
            introspection_url: self.introspection_url@,
            revocation_url: self.revocation_url@,
        }
    }
}

/// The setting that keeps the process from starting.
#[derive(Clone, Copy, Debug, PartialEq, Eq, Structural)]
pub enum ConfigInvalid {
    AuthUrl,
    TokenUrl,
    RevocationUrl,
    IntrospectionUrl,
    RedirectUrl,
}

/// Whether a text is a syntactically valid absolute URL.
pub uninterp spec fn url_is_well_formed(url: Seq<char>) -> bool;

/// The URL that opens a login: the authorization endpoint with the query
/// parameters `response_type=code`, `client_id`, `state`, `code_challenge`,
/// `code_challenge_method=S256`, `redirect_uri` and, where `scopes` is not
/// empty, `scope` (the scopes joined by spaces), each form-encoded and
/// appended in this order.
pub uninterp spec fn authorization_url(
    auth_url: Seq<char>,
    client_id: Seq<char>,
    redirect_url: Seq<char>,
    scopes: Seq<Seq<char>>,
    state: Seq<char>,
    code_challenge: Seq<char>,
) -> Seq<char>;

/// Parses with `url::Url::parse`, which every URL setting of the `oauth2`
/// client goes through.
///
/// Trusted: whether parsing succeeds depends on the text alone and is what
/// [`url_is_well_formed`] names.
#[verifier::external_body]
pub(crate) fn parses_as_url(url: &str) -> (ok: bool)
    ensures
        ok == url_is_well_formed(url@),
{
    Url::parse(url).is_ok()
}

/// Builds the URL with `oauth2::Client::authorize_url` and
/// `oauth2::AuthorizationRequest::url`, on a client made of the given
/// endpoint, id and redirect URL.
///
/// Trusted: the result depends on the arguments alone, and on the verifier
/// only through its S256 challenge, which is the one thing of it that the
/// request holds; it is what [`authorization_url`] names for that
/// challenge. The two URLs are unwrapped after parsing and the challenge
/// computation panics on a verifier of unsuitable length; `requires`
/// excludes both.
#[verifier::external_body]
pub(crate) fn authorization_url_text(
    auth_url: &str,
    client_id: &str,
    redirect_url: &str,
    scopes: &Vec<String>,
    state: &str,
    verifier: &str,
) -> (url: String)
    requires
        url_is_well_formed(auth_url@),
        url_is_well_formed(redirect_url@),
        is_usable_verifier(verifier@),
    ensures
        url@ == authorization_url(
            auth_url@,
            client_id@,
            redirect_url@,
            scopes.deep_view(),
            state@,
            s256_challenge(verifier@),
        ),
{
    let endpoint = AuthUrl::new(auth_url.to_string()).unwrap();
    let client = BasicClient::new(ClientId::new(client_id.to_string()), None, endpoint, None)
        .set_redirect_uri(RedirectUrl::new(redirect_url.to_string()).unwrap());
    let verifier = PkceCodeVerifier::new(verifier.to_string());
    client
        .authorize_url(|| CsrfToken::new(state.to_string()))
        .add_scopes(scopes.iter().cloned().map(Scope::new))
        .set_pkce_challenge(PkceCodeChallenge::from_code_verifier_sha256(&verifier))
        .url()
        .0
        .to_string()
}

/// The first setting, in the order in which they are checked, that is not a
/// well-formed URL.
pub open spec fn first_malformed(s: SettingsView) -> Option<ConfigInvalid> {
    if !url_is_well_formed(s.auth_url) {
        Some(ConfigInvalid::AuthUrl)
    } else if !url_is_well_formed(s.token_url) {
        Some(ConfigInvalid::TokenUrl)
    } else if !url_is_well_formed(s.revocation_url) {
        Some(ConfigInvalid::RevocationUrl)
    } else if !url_is_well_formed(s.introspection_url) {
        Some(ConfigInvalid::IntrospectionUrl)
    } else if !url_is_well_formed(s.redirect_url) {
        Some(ConfigInvalid::RedirectUrl)
    } else {
        None
    }
}

/// The scopes asked of the authorization server, in order.
pub open spec fn login_scopes_view() -> Seq<Seq<char>> {
    seq!["identify"@, "email"@, "openid"@]
}

/// The scopes asked of the authorization server: `identify`, `email`,
/// `openid`.
pub fn login_scopes() -> (scopes: Vec<String>)
    ensures
        scopes.deep_view() == login_scopes_view(),
{
    let mut scopes: Vec<String> = Vec::new();
    scopes.push(String::from_str("identify"));
    scopes.push(String::from_str("email"));
    scopes.push(String::from_str("openid"));
    assert(scopes.deep_view() =~= login_scopes_view());
    scopes
}

/// A client whose settings passed validation.
#[derive(Debug)]
pub struct OAuthClient {
    settings: AuthSettings,
}

impl View for OAuthClient {
    type V = SettingsView;

    closed spec fn view(&self) -> SettingsView {
        self.settings@
    }
}

impl OAuthClient {
    #[verifier::type_invariant]
    spec fn valid(self) -> bool {
        first_malformed(self.settings@) is None
    }

    /// Validates the settings, endpoint by endpoint: the authorization URL,
    /// the token URL, the revocation URL, the introspection URL and the
    /// redirect URL. The first that does not parse is reported; with none,
    /// the client holds the settings as given.
    pub fn try_from(settings: AuthSettings) -> (r: Result<OAuthClient, ConfigInvalid>)
        ensures
            match first_malformed(settings@) {
                Some(e) => r == Err::<OAuthClient, ConfigInvalid>(e),
                None => r is Ok && r->Ok_0@ == settings@,
            },
    {
        if !parses_as_url(settings.auth_url.as_str()) {
            return Err(ConfigInvalid::AuthUrl);
        }
        if !parses_as_url(settings.token_url.as_str()) {
            return Err(ConfigInvalid::TokenUrl);
        }
        if !parses_as_url(settings.revocation_url.as_str()) {
            return Err(ConfigInvalid::RevocationUrl);
        }
        if !parses_as_url(settings.introspection_url.as_str()) {
            return Err(ConfigInvalid::IntrospectionUrl);
        }
        if !parses_as_url(settings.redirect_url.as_str()) {
            return Err(ConfigInvalid::RedirectUrl);
        }
        Ok(OAuthClient { settings })
    }

    /// The settings this client was made of.
    pub fn settings(&self) -> (s: &AuthSettings)
        ensures
            s@ == self@,
            first_malformed(s@) is None,
    {
        proof {
            use_type_invariant(self);
        }
        &self.settings
    }

    /// The URL that opens a login for the given CSRF token and PKCE
    /// verifier. Of the verifier it carries the S256 challenge and nothing
    /// else.
    pub fn login_url(&self, state: &str, verifier: &str) -> (url: String)
        requires
            is_usable_verifier(verifier@),
        ensures
            url@ == authorization_url(
                self@.auth_url,
                self@.client_id,
                self@.redirect_url,
                login_scopes_view(),
                state@,
                s256_challenge(verifier@),
            ),
    {
        proof {
            use_type_invariant(self);
        }
        let scopes = login_scopes();
        authorization_url_text(
            self.settings.auth_url.as_str(),
            self.settings.client_id.as_str(),
            self.settings.redirect_url.as_str(),
            &scopes,
            state,
            verifier,
        )
    }
}

} // verus!
