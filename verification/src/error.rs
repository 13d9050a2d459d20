//! What can go wrong in a login, and what the client gets to see of it.

use crate::response::{login_redirect_view, server_error_view, Response, ResponseView};
use vstd::prelude::*;

verus! {

/// How the exchange of the code for a token failed.
#[derive(Clone, Debug, PartialEq, Eq)]
pub enum ExchangeFailure {
    /// The authorization server answered with an error of its own.
    ServerRejected { payload: String },
    /// The request did not get through, or no answer came in time.
    Transport,
    /// An answer came that could not be read as a token response.
    ParseFailure,
}

/// Mathematical content of an [`ExchangeFailure`].
pub enum ExchangeFailureView {
    ServerRejected { payload: Seq<char> },
    Transport,
    ParseFailure,
}

impl View for ExchangeFailure {
    type V = ExchangeFailureView;

    open spec fn view(&self) -> ExchangeFailureView {
        match *self {
            ExchangeFailure::ServerRejected { payload } => ExchangeFailureView::ServerRejected {
                payload: payload@,
            },
            ExchangeFailure::Transport => ExchangeFailureView::Transport,
            ExchangeFailure::ParseFailure => ExchangeFailureView::ParseFailure,
        }
    }
}

/// Why a login attempt ended without a session.
#[derive(Clone, Debug, PartialEq, Eq)]
pub enum AuthError {
    /// The `state` of the callback is unknown, spent or unreadable.
    StateNotFound,
    /// The token endpoint did not issue a token.
    TokenExchangeFailed(ExchangeFailure),
    /// The identity behind the token could not be fetched or read.
    IntrospectionFailed,
    /// The cache could not be reached.
    StoreUnavailable,
}

/// Mathematical content of an [`AuthError`].
pub enum AuthErrorView {
    StateNotFound,
    TokenExchangeFailed(ExchangeFailureView),
    IntrospectionFailed,
    StoreUnavailable,
}

impl View for AuthError {
    type V = AuthErrorView;

    open spec fn view(&self) -> AuthErrorView {
        match *self {
            AuthError::StateNotFound => AuthErrorView::StateNotFound,
            AuthError::TokenExchangeFailed(f) => AuthErrorView::TokenExchangeFailed(f@),
            AuthError::IntrospectionFailed => AuthErrorView::IntrospectionFailed,
            AuthError::StoreUnavailable => AuthErrorView::StoreUnavailable,
        }
    }
}

/// The response to a failed login: back to the start where the state was
/// not found, a bare server error otherwise.
pub open spec fn error_response(e: AuthErrorView) -> ResponseView {
    match e {
        AuthErrorView::StateNotFound => login_redirect_view(),
        _ => server_error_view(),
    }
}

impl AuthError {
    /// The response that the client gets. It names no cause and sets no
    /// cookie.
    pub fn into_response(&self) -> (r: Response)
        ensures
            r@ == error_response(self@),
            r@.set_cookie is None,
    {
        match self {
            AuthError::StateNotFound => Response::login_redirect(),
            _ => Response::server_error(),
        }
    }
}

} // verus!
