//! What the HTTP layer is asked to send back.

use vstd::prelude::*;
use vstd::string::StringExecFns;

verus! {

/// Status of a redirect that keeps the request method: 307.
pub const TEMPORARY_REDIRECT: u16 = 307;

/// Status of the redirect that follows a completed login: 303.
pub const SEE_OTHER: u16 = 303;

/// Status of a failure on the server's side: 500.
pub const INTERNAL_SERVER_ERROR: u16 = 500;

/// Where an unauthenticated client is sent to start a login.
pub open spec fn authorize_path() -> Seq<char> {
    "/authorize"@
}

/// Mathematical content of a [`Response`].
pub struct ResponseView {
    pub status: int,
    pub location: Option<Seq<char>>,
    pub set_cookie: Option<Seq<char>>,
}

/// A response reduced to what this crate decides: the status, the redirect
/// target and the cookie to set.
#[derive(Clone, Debug, PartialEq, Eq)]
pub struct Response {
    pub status: u16,
    pub location: Option<String>,
    pub set_cookie: Option<String>,
}

/// View of an optional string.
pub open spec fn text_of(s: Option<String>) -> Option<Seq<char>> {
    match s {
        Some(t) => Some(t@),
        None => None,
    }
}

impl View for Response {
    type V = ResponseView;

    open spec fn view(&self) -> ResponseView {
        ResponseView {
            status: self.status as int,
            location: text_of(self.location),
            set_cookie: text_of(self.set_cookie),
        }
    }
}

/// The redirect with status `status` to `target`, setting no cookie.
pub open spec fn redirect_view(status: int, target: Seq<char>) -> ResponseView {
    ResponseView { status, location: Some(target), set_cookie: None }
}

/// The response that sends a client to the start of the login flow.
pub open spec fn login_redirect_view() -> ResponseView {
    redirect_view(TEMPORARY_REDIRECT as int, authorize_path())
}

/// The response for a failure that is not the client's to repair.
pub open spec fn server_error_view() -> ResponseView {
    ResponseView { status: INTERNAL_SERVER_ERROR as int, location: None, set_cookie: None }
}

impl Response {
    /// A redirect to `target` that sets no cookie.
    pub fn redirect(status: u16, target: &str) -> (r: Response)
        ensures
            r@ == redirect_view(status as int, target@),
    {
        Response { status, location: Some(String::from_str(target)), set_cookie: None }
    }

    /// The temporary redirect to `/authorize`.
    pub fn login_redirect() -> (r: Response)
        ensures
            r@ == login_redirect_view(),
    {
        Response::redirect(TEMPORARY_REDIRECT, "/authorize")
    }

    /// A bare server error: no target, no cookie, no detail.
    pub fn server_error() -> (r: Response)
        ensures
            r@ == server_error_view(),
    {
        Response { status: INTERNAL_SERVER_ERROR, location: None, set_cookie: None }
    }
}

} // verus!
