//! Starting a login: the secrets of the attempt, the state to remember and
//! the redirect to the authorization server.

use crate::client::{authorization_url, login_scopes_view, OAuthClient};
use crate::error::{AuthError, AuthErrorView};
use crate::pkce::{
    challenge_of, is_generated_csrf_token, is_generated_verifier, random_csrf_token,
    random_verifier, s256_challenge,
};
use crate::response::{redirect_view, text_of, Response, ResponseView, TEMPORARY_REDIRECT};
use crate::store::WriteReply;
use vstd::prelude::*;
use vstd::string::StringExecFns;

verus! {

/// What is remembered of a login attempt until its callback arrives.
#[derive(Clone, Debug, PartialEq, Eq)]
pub struct AuthorizationState {
    /// The token that the callback must present; the key of this record.
    pub csrf_token: String,
    /// The PKCE verifier to present at the token endpoint.
    pub pkce_code_verifier_secret: String,
    /// Where the user goes once logged in.
    pub return_url: String,
}

/// Mathematical content of an [`AuthorizationState`].
pub struct StateView {
    pub csrf_token: Seq<char>,
    pub pkce_code_verifier_secret: Seq<char>,
    pub return_url: Seq<char>,
}

impl View for AuthorizationState {
    type V = StateView;

    open spec fn view(&self) -> StateView {
        StateView {
            csrf_token: self.csrf_token@,
            pkce_code_verifier_secret: self.pkce_code_verifier_secret@,
            return_url: self.return_url@,
        }
    }
}

/// The return URL of a login that names none.
pub open spec fn default_return_url() -> Seq<char> {
    "/"@
}

/// The return URL of a login: the one given, or the default.
pub open spec fn return_url_or_default(given: Option<Seq<char>>) -> Seq<char> {
    match given {
        Some(url) => url,
        None => default_return_url(),
    }
}

/// A login that has been prepared and waits for its state to be stored.
#[derive(Clone, Debug, PartialEq, Eq)]
pub struct Authorization {
    /// The record to store under its CSRF token.
    pub state: AuthorizationState,
    /// The S256 challenge of the verifier, as sent to the authorization
    /// server.
    pub code_challenge: String,
    /// The URL at the authorization server that opens the login.
    pub login_url: String,
}

/// Mathematical content of an [`Authorization`].
pub struct AuthorizationView {
    pub state: StateView,
    pub code_challenge: Seq<char>,
    pub login_url: Seq<char>,
}

impl View for Authorization {
    type V = AuthorizationView;

    open spec fn view(&self) -> AuthorizationView {
        AuthorizationView {
            state: self.state@,
            code_challenge: self.code_challenge@,
            login_url: self.login_url@,
        }
    }
}

/// The response that ends the first leg of a login, by how the write of its
/// state ended: the redirect to the authorization server, or the failure of
/// the cache.
pub open spec fn authorize_result(login_url: Seq<char>, reply: WriteReply) -> Result<
    ResponseView,
    AuthErrorView,
> {
    match reply {
        WriteReply::Stored => Ok(redirect_view(TEMPORARY_REDIRECT as int, login_url)),
        WriteReply::Unavailable => Err(AuthErrorView::StoreUnavailable),
    }
}

impl Authorization {
    /// Puts a login together from its parts. A missing return URL becomes
    /// `/`.
    pub fn assemble(
        csrf_token: String,
        verifier: String,
        code_challenge: String,
        login_url: String,
        return_url: Option<String>,
    ) -> (a: Authorization)
        ensures
            a@ == (AuthorizationView {
                state: StateView {
                    csrf_token: csrf_token@,
                    pkce_code_verifier_secret: verifier@,
                    return_url: return_url_or_default(text_of(return_url)),
                },
                code_challenge: code_challenge@,
                login_url: login_url@,
            }),
    {
        let return_url = match return_url {
            Some(url) => url,
            None => String::from_str("/"),
        };
        Authorization {
            state: AuthorizationState {
                csrf_token,
                pkce_code_verifier_secret: verifier,
                return_url,
            },
            code_challenge,
            login_url,
        }
    }

    /// Ends the first leg once the state has been written: a temporary
    /// redirect to the login URL. Where the cache failed, nothing is handed
    /// out and the request fails.
    pub fn on_stored(self, reply: WriteReply) -> (r: Result<Response, AuthError>)
        ensures
            match authorize_result(self@.login_url, reply) {
                Ok(view) => r is Ok && r->Ok_0@ == view,
                Err(e) => r is Err && r->Err_0@ == e,
            },
    {
        match reply {
            WriteReply::Stored => Ok(Response::redirect(TEMPORARY_REDIRECT, self.login_url.as_str())),
            WriteReply::Unavailable => Err(AuthError::StoreUnavailable),
        }
    }
}

/// Prepares a login. Draws a PKCE verifier and a CSRF token, each from its
/// own randomness, and builds the URL at the authorization server that
/// carries the token as `state` and the S256 challenge of the verifier.
///
/// Both secrets are in the state to store. The challenge is fixed by the
/// verifier, and the URL by the client, the token and the challenge: of the
/// verifier itself the URL carries nothing.
pub fn authorize(client: &OAuthClient, return_url: Option<String>) -> (a: Authorization)
    ensures
        is_generated_csrf_token(a@.state.csrf_token),
        is_generated_verifier(a@.state.pkce_code_verifier_secret),
        a@.state.return_url == return_url_or_default(text_of(return_url)),
        a@.code_challenge == s256_challenge(a@.state.pkce_code_verifier_secret),
        a@.login_url == authorization_url(
            client@.auth_url,
            client@.client_id,
            client@.redirect_url,
            login_scopes_view(),
            a@.state.csrf_token,
            a@.code_challenge,
        ),
{
    let verifier = random_verifier();
    let csrf_token = random_csrf_token();
    let code_challenge = challenge_of(verifier.as_str());
    let login_url = client.login_url(csrf_token.as_str(), verifier.as_str());
    Authorization::assemble(csrf_token, verifier, code_challenge, login_url, return_url)
}

} // verus!
