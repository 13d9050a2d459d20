//! The session cookie: how it is written into a response and how it is
//! found again in a request.

use headers::{Cookie, Header, HeaderValue};
use vstd::prelude::*;
use vstd::string::StringExecFns;

verus! {

#[verifier::external_type_specification]
#[verifier::external_body]
pub struct ExCookie(Cookie);

/// Name of the cookie that carries the session id.
pub const COOKIE_NAME: &'static str = "SESSION";

/// The name-value pairs of a `Cookie` header, in the order of the header.
pub uninterp spec fn cookie_pairs(cookie: Cookie) -> Seq<(Seq<char>, Seq<char>)>;

/// Whether the value of a `Cookie` header is text: every byte of it a
/// visible ASCII character, a space or a tab.
pub uninterp spec fn cookie_is_text(cookie: Cookie) -> bool;

/// The value of the first pair named `name`.
pub open spec fn first_value(pairs: Seq<(Seq<char>, Seq<char>)>, name: Seq<char>) -> Option<
    Seq<char>,
>
    decreases pairs.len(),
{
    if pairs.len() == 0 {
        None
    } else if pairs[0].0 == name {
        Some(pairs[0].1)
    } else {
        first_value(pairs.drop_first(), name)
    }
}

/// Looks a cookie up with `headers::Cookie::get`.
///
/// Trusted: the result is the value of the first pair, in the order in which
/// the header lists them, whose name equals `name`, and `None` where no pair
/// has that name.
#[verifier::external_body]
pub(crate) fn cookie_value(cookie: &Cookie, name: &str) -> (value: Option<String>)
    ensures
        crate::response::text_of(value) == first_value(cookie_pairs(*cookie), name@),
{
    cookie.get(name).map(String::from)
}

/// Takes the value of the header back out with `headers::Header::encode`
/// and reads it with `http::HeaderValue::to_str`.
///
/// Trusted: a `Cookie` gives back one value, the one it was made of, and
/// reading it succeeds exactly if every byte is a visible ASCII character, a
/// space or a tab, which is what [`cookie_is_text`] names.
#[verifier::external_body]
pub(crate) fn cookie_reads_as_text(cookie: &Cookie) -> (ok: bool)
    ensures
        ok == cookie_is_text(*cookie),
{
    let mut values: Vec<HeaderValue> = Vec::new();
    cookie.encode(&mut values);
    values[0].to_str().is_ok()
}

/// What a request presents to the guard.
#[derive(Clone, Debug, PartialEq, Eq)]
pub enum Presented {
    /// No `Cookie` header, or none of its cookies is named `SESSION`.
    Nothing,
    /// A `Cookie` header that is not text.
    Unreadable,
    /// The value of the first `SESSION` cookie.
    SessionId(String),
}

/// Mathematical content of a [`Presented`].
pub enum PresentedView {
    Nothing,
    Unreadable,
    SessionId(Seq<char>),
}

impl View for Presented {
    type V = PresentedView;

    open spec fn view(&self) -> PresentedView {
        match *self {
            Presented::Nothing => PresentedView::Nothing,
            Presented::Unreadable => PresentedView::Unreadable,
            Presented::SessionId(id) => PresentedView::SessionId(id@),
        }
    }
}

/// What the `Cookie` header of a request presents, with `None` standing for
/// a request without the header. A header that is not text is unreadable,
/// whatever else may be in it.
pub open spec fn presented_by(cookies: Option<Cookie>) -> PresentedView {
    match cookies {
        None => PresentedView::Nothing,
        Some(c) => if !cookie_is_text(c) {
            PresentedView::Unreadable
        } else {
            match first_value(cookie_pairs(c), COOKIE_NAME@) {
                Some(id) => PresentedView::SessionId(id),
                None => PresentedView::Nothing,
            }
        },
    }
}

/// The cookies of a request as a value.
pub open spec fn cookies_of(cookies: Option<&Cookie>) -> Option<Cookie> {
    match cookies {
        Some(c) => Some(*c),
        None => None,
    }
}

/// Reads the `Cookie` header of a request, if it has one: unreadable where
/// it is not text, else the value of its first `SESSION` cookie, else
/// nothing.
pub fn presented(cookies: Option<&Cookie>) -> (p: Presented)
    ensures
        p@ == presented_by(cookies_of(cookies)),
{
    match cookies {
        None => Presented::Nothing,
        Some(c) => {
            if !cookie_reads_as_text(c) {
                Presented::Unreadable
            } else {
                match cookie_value(c, COOKIE_NAME) {
                    Some(id) => Presented::SessionId(id),
                    None => Presented::Nothing,
                }
            }
        },
    }
}

/// The `Set-Cookie` text that hands a session id to the client.
pub open spec fn session_cookie_text(session_id: Seq<char>) -> Seq<char> {
    "SESSION="@ + session_id + "; SameSite=Lax; Path=/"@
}

/// Writes the session cookie: name `SESSION`, the id as its value, and the
/// attributes `SameSite=Lax` and `Path=/`.
pub fn session_cookie(session_id: &str) -> (text: String)
    ensures
        text@ == session_cookie_text(session_id@),
{
    let mut text = String::from_str("SESSION=");
    text.append(session_id);
    text.append("; SameSite=Lax; Path=/");
    text
}

} // verus!
