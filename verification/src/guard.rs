//! The guard in front of protected routes: a request passes with the user of
//! a live session, and is turned away to the login otherwise.

use crate::cookies::{cookies_of, presented, presented_by, Presented, PresentedView};
use crate::response::{login_redirect_view, server_error_view, Response, ResponseView};
use crate::session::{AuthentikUser, Session, SessionView, UserView};
use crate::store::WriteReply;
use headers::Cookie;
use vstd::prelude::*;

verus! {

/// The answer to a request that is not logged in. It says nothing about
/// why.
#[derive(Clone, Copy, Debug, PartialEq, Eq, Structural)]
pub struct AuthRedirect;

impl AuthRedirect {
    /// The temporary redirect to `/authorize`.
    pub fn into_response(self) -> (r: Response)
        ensures
            r@ == login_redirect_view(),
    {
        Response::login_redirect()
    }
}

/// Why a request did not pass the guard.
#[derive(Clone, Copy, Debug, PartialEq, Eq, Structural)]
pub enum Rejection {
    /// No live session stands behind the request.
    Unauthenticated(AuthRedirect),
    /// The `Cookie` header of the request cannot be read.
    UnreadableHeader,
    /// The cache could not be reached.
    StoreUnavailable,
}

/// The response to a rejected request.
pub open spec fn rejection_response(r: Rejection) -> ResponseView {
    match r {
        Rejection::Unauthenticated(_) => login_redirect_view(),
        Rejection::UnreadableHeader => server_error_view(),
        Rejection::StoreUnavailable => server_error_view(),
    }
}

impl Rejection {
    /// The response that the client gets: the redirect to the login, or a
    /// bare server error where the header could not be read or the cache
    /// failed.
    pub fn into_response(self) -> (r: Response)
        ensures
            r@ == rejection_response(self),
    {
        match self {
            Rejection::Unauthenticated(redirect) => redirect.into_response(),
            Rejection::UnreadableHeader => Response::server_error(),
            Rejection::StoreUnavailable => Response::server_error(),
        }
    }
}

/// Reply to [`GetSession`].
#[derive(Clone, Debug, PartialEq, Eq)]
pub enum SessionReply {
    /// The session was there.
    Found(Session),
    /// No session under that id: never issued, or lapsed.
    Missing,
    /// Something is stored under that id that cannot be read as a session.
    Corrupt,
    /// The cache could not be reached.
    Unavailable,
}

/// Mathematical content of a [`SessionReply`].
pub enum SessionReplyView {
    Found(SessionView),
    Missing,
    Corrupt,
    Unavailable,
}

impl View for SessionReply {
    type V = SessionReplyView;

    open spec fn view(&self) -> SessionReplyView {
        match *self {
            SessionReply::Found(s) => SessionReplyView::Found(s@),
            SessionReply::Missing => SessionReplyView::Missing,
            SessionReply::Corrupt => SessionReplyView::Corrupt,
            SessionReply::Unavailable => SessionReplyView::Unavailable,
        }
    }
}

/// The reply that a read of the cache amounts to: nothing read is a missing
/// session, something read that does not decode is a corrupt one.
pub open spec fn session_reply_of(hit: bool, decoded: Option<SessionView>) -> SessionReplyView {
    if !hit {
        SessionReplyView::Missing
    } else {
        match decoded {
            Some(session) => SessionReplyView::Found(session),
            None => SessionReplyView::Corrupt,
        }
    }
}

/// View of an optional session.
pub open spec fn session_of(s: Option<Session>) -> Option<SessionView> {
    match s {
        Some(s) => Some(s@),
        None => None,
    }
}

impl SessionReply {
    /// Classifies what `GET` returned: whether it returned anything, and
    /// what the value decoded to, if it did decode.
    pub fn of_read(hit: bool, decoded: Option<Session>) -> (reply: SessionReply)
        ensures
            reply@ == session_reply_of(hit, session_of(decoded)),
    {
        if !hit {
            SessionReply::Missing
        } else {
            match decoded {
                Some(session) => SessionReply::Found(session),
                None => SessionReply::Corrupt,
            }
        }
    }
}

/// Request to read the session stored under an id.
#[derive(Clone, Debug, PartialEq, Eq)]
pub struct GetSession {
    pub session_id: String,
}

/// Request to give the session under an id a new time to live.
#[derive(Clone, Debug, PartialEq, Eq)]
pub struct RefreshSession {
    pub session_id: String,
}

/// A request that presented a session id which is being looked up.
#[derive(Debug)]
pub struct AwaitingLookup {
    session_id: String,
}

impl AwaitingLookup {
    /// The id that the request presented.
    pub closed spec fn session_id(&self) -> Seq<char> {
        self.session_id@
    }
}

/// A request whose session was found and is being renewed.
#[derive(Debug)]
pub struct AwaitingRefresh {
    user: AuthentikUser,
}

impl AwaitingRefresh {
    /// The user of the session that was found.
    pub closed spec fn user(&self) -> UserView {
        self.user@
    }
}

/// Whom a renewal lets pass: the user, once the session has its new time
/// to live.
pub open spec fn refresh_step(user: UserView, reply: WriteReply) -> Result<UserView, Rejection> {
    match reply {
        WriteReply::Stored => Ok(user),
        WriteReply::Unavailable => Err(Rejection::StoreUnavailable),
    }
}

/// Whom a lookup lets pass.
pub open spec fn lookup_step(reply: SessionReplyView) -> Result<UserView, Rejection> {
    match reply {
        SessionReplyView::Found(session) => Ok(session.user),
        SessionReplyView::Missing => Err(Rejection::Unauthenticated(AuthRedirect)),
        SessionReplyView::Corrupt => Err(Rejection::Unauthenticated(AuthRedirect)),
        SessionReplyView::Unavailable => Err(Rejection::StoreUnavailable),
    }
}

/// What the first step of the guard makes of what a request presents: the
/// id to look up, or the rejection. An unreadable header is a failure of
/// its own and never the answer to a request that is merely not logged in.
pub open spec fn present_step(presented: PresentedView) -> Result<Seq<char>, Rejection> {
    match presented {
        PresentedView::SessionId(id) => Ok(id),
        PresentedView::Nothing => Err(Rejection::Unauthenticated(AuthRedirect)),
        PresentedView::Unreadable => Err(Rejection::UnreadableHeader),
    }
}

/// The guard as one function of what the request presents and of what the
/// cache replies: the user that passes, or the rejection. Without a session
/// id no lookup takes place, and without a session no renewal; the reply to
/// a step that is never reached plays no part.
pub open spec fn authenticate(
    presented: PresentedView,
    reply: SessionReplyView,
    refreshed: WriteReply,
) -> Result<UserView, Rejection> {
    match present_step(presented) {
        Err(rejection) => Err(rejection),
        Ok(_) => match lookup_step(reply) {
            Ok(user) => refresh_step(user, refreshed),
            Err(rejection) => Err(rejection),
        },
    }
}

impl AuthentikUser {
    /// First step of the guard, on the `Cookie` header of the request, if it
    /// has one. A request without the header, or without a `SESSION` cookie
    /// in it, is turned away to the login at once. A header that is not
    /// text fails the request. Otherwise the session under the value of the
    /// first `SESSION` cookie is to be looked up.
    pub fn from_request_parts(cookies: Option<&Cookie>) -> (r: Result<
        (AwaitingLookup, GetSession),
        Rejection,
    >)
        ensures
            match present_step(presented_by(cookies_of(cookies))) {
                Ok(id) => {
                    &&& r is Ok
                    &&& r->Ok_0.0.session_id() == id
                    &&& r->Ok_0.1.session_id@ == id
                },
                Err(rejection) => r is Err && r->Err_0 == rejection,
            },
    {
        match presented(cookies) {
            Presented::SessionId(session_id) => Ok(
                (AwaitingLookup { session_id: session_id.clone() }, GetSession { session_id }),
            ),
            Presented::Nothing => Err(Rejection::Unauthenticated(AuthRedirect)),
            Presented::Unreadable => Err(Rejection::UnreadableHeader),
        }
    }
}

impl AwaitingLookup {
    /// Second step of the guard, on the reply of the cache. A session that
    /// was found is to be renewed before its user passes. A session that is
    /// missing or unreadable turns the request away to the login; a cache
    /// out of reach fails it.
    pub fn on_session(self, reply: SessionReply) -> (r: Result<
        (AwaitingRefresh, RefreshSession),
        Rejection,
    >)
        ensures
            match lookup_step(reply@) {
                Ok(user) => {
                    &&& r is Ok
                    &&& r->Ok_0.0.user() == user
                    &&& r->Ok_0.1.session_id@ == self.session_id()
                },
                Err(rejection) => r is Err && r->Err_0 == rejection,
            },
    {
        match reply {
            SessionReply::Found(session) => {
                let Session { id: _, user } = session;
                Ok((AwaitingRefresh { user }, RefreshSession { session_id: self.session_id }))
            },
            SessionReply::Missing => Err(Rejection::Unauthenticated(AuthRedirect)),
            SessionReply::Corrupt => Err(Rejection::Unauthenticated(AuthRedirect)),
            SessionReply::Unavailable => Err(Rejection::StoreUnavailable),
        }
    }
}

impl AwaitingRefresh {
    /// Last step of the guard, once the session has its new time to live:
    /// the user passes. Where the cache failed, the request fails.
    pub fn on_refreshed(self, reply: WriteReply) -> (r: Result<AuthentikUser, Rejection>)
        ensures
            match refresh_step(self.user(), reply) {
                Ok(user) => r is Ok && r->Ok_0@ == user,
                Err(rejection) => r is Err && r->Err_0 == rejection,
            },
    {
        match reply {
            WriteReply::Stored => Ok(self.user),
            WriteReply::Unavailable => Err(Rejection::StoreUnavailable),
        }
    }
}

/// The guard does not tell its reasons apart. Whatever makes a request
/// unauthenticated (no `Cookie` header, no `SESSION` cookie, a session that
/// is missing, lapsed or unreadable), the response is the same temporary
/// redirect to `/authorize`, without a cookie.
pub proof fn law_unauthenticated_is_uniform(
    presented_a: PresentedView,
    reply_a: SessionReplyView,
    refreshed_a: WriteReply,
    presented_b: PresentedView,
    reply_b: SessionReplyView,
    refreshed_b: WriteReply,
)
    requires
        authenticate(presented_a, reply_a, refreshed_a) matches Err(Rejection::Unauthenticated(_)),
        authenticate(presented_b, reply_b, refreshed_b) matches Err(Rejection::Unauthenticated(_)),
    ensures
        authenticate(presented_a, reply_a, refreshed_a) == authenticate(
            presented_b,
            reply_b,
            refreshed_b,
        ),
        rejection_response(authenticate(presented_a, reply_a, refreshed_a)->Err_0)
            == login_redirect_view(),
{
}

/// Each of the four ways of being unauthenticated is one: a request with no
/// `Cookie` header or none named `SESSION` presents nothing; an id under
/// which nothing is stored, or whose session has lapsed, reads nothing.
pub proof fn law_unauthenticated_causes(
    id: Seq<char>,
    reply: SessionReplyView,
    refreshed: WriteReply,
    decoded: Option<SessionView>,
)
    ensures
        authenticate(PresentedView::Nothing, reply, refreshed) == Err::<UserView, Rejection>(
            Rejection::Unauthenticated(AuthRedirect),
        ),
        authenticate(PresentedView::SessionId(id), session_reply_of(false, decoded), refreshed)
            == Err::<UserView, Rejection>(Rejection::Unauthenticated(AuthRedirect)),
        authenticate(PresentedView::SessionId(id), session_reply_of(true, None), refreshed)
            == Err::<UserView, Rejection>(Rejection::Unauthenticated(AuthRedirect)),
{
}

/// A header that cannot be read is not a missing login. A request whose
/// `Cookie` header is not text never passes and is never sent to the
/// login: it fails with a rejection of its own, whose response is the bare
/// server error, whatever the header holds and whatever the cache would
/// say.
pub proof fn law_unreadable_header_is_a_failure(
    cookie: Cookie,
    reply: SessionReplyView,
    refreshed: WriteReply,
)
    requires
        !crate::cookies::cookie_is_text(cookie),
    ensures
        presented_by(Some(cookie)) == PresentedView::Unreadable,
        authenticate(presented_by(Some(cookie)), reply, refreshed) == Err::<UserView, Rejection>(
            Rejection::UnreadableHeader,
        ),
        rejection_response(Rejection::UnreadableHeader) == server_error_view(),
        rejection_response(Rejection::UnreadableHeader) != login_redirect_view(),
{
}

/// The guard fails closed. A user passes only where a session id was
/// presented, the cache found a session under it and renewed it; the user
/// is then the one of that session.
pub proof fn law_guard_fails_closed(
    presented: PresentedView,
    reply: SessionReplyView,
    refreshed: WriteReply,
)
    ensures
        authenticate(presented, reply, refreshed) is Ok <==> presented is SessionId && reply
            is Found && refreshed == WriteReply::Stored,
        authenticate(presented, reply, refreshed) is Ok ==> authenticate(
            presented,
            reply,
            refreshed,
        ) == Ok::<UserView, Rejection>(reply->Found_0.user),
{
}

/// A session lives by being used. After a last access at second `last`, a
/// request that presents the id at second `now` reads the session exactly
/// if less than one time to live has passed. It then passes, if what it
/// read is a session, and `now` becomes the last access. Otherwise it is
/// turned away like a request that presents nothing, and the cache stays as
/// it was.
pub proof fn law_session_lives_by_access(
    cache: crate::store::Cache,
    session_id: Seq<char>,
    last: int,
    now: int,
    decoded: Option<SessionView>,
)
    requires
        crate::store::touched_at(cache, crate::store::session_key(session_id), last),
        last <= now,
    ensures
        ({
            let (after, found) = crate::store::read_session(
                cache,
                session_id,
                now,
                decoded is Some,
            );
            let outcome = authenticate(
                PresentedView::SessionId(session_id),
                session_reply_of(found is Some, decoded),
                WriteReply::Stored,
            );
            let fresh = now - last < crate::store::TTL_SECONDS;
            &&& found is Some <==> fresh
            &&& outcome is Ok <==> fresh && decoded is Some
            &&& outcome is Ok ==> outcome == Ok::<UserView, Rejection>(decoded->Some_0.user)
            &&& outcome is Ok ==> crate::store::touched_at(
                after,
                crate::store::session_key(session_id),
                now,
            )
            &&& outcome is Err ==> after == cache
            &&& outcome is Err ==> outcome == authenticate(
                PresentedView::Nothing,
                SessionReplyView::Missing,
                WriteReply::Stored,
            )
        }),
{
    crate::store::law_session_expiry_slides(cache, session_id, last, now, decoded is Some);
}

} // verus!
