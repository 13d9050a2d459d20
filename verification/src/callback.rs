//! Completing a login: from the callback of the authorization server to the
//! session cookie, one outside reply at a time.
//!
//! Each step consumes the pending login and the reply to what the step
//! before asked for, and hands back either the next request with the login
//! still pending, or the error that ends it. A later step cannot be reached
//! but through the success of every earlier one.

use crate::authorize::{AuthorizationState, StateView};
use crate::cookies::{session_cookie, session_cookie_text};
use crate::error::{AuthError, AuthErrorView, ExchangeFailure, ExchangeFailureView};
use crate::response::{Response, ResponseView, SEE_OTHER};
use crate::session::{
    is_generated_session_id, random_session_id, AuthentikUser, Session, SessionView, UserView,
};
use crate::store::WriteReply;
use vstd::prelude::*;

verus! {

/// Query of the callback: the authorization code and the `state` that the
/// authorization server hands back.
#[derive(Clone, Debug, PartialEq, Eq)]
pub struct AuthRequest {
    code: String,
    state: String,
}

/// Mathematical content of an [`AuthRequest`].
pub struct AuthRequestView {
    pub code: Seq<char>,
    pub state: Seq<char>,
}

impl View for AuthRequest {
    type V = AuthRequestView;

    closed spec fn view(&self) -> AuthRequestView {
        AuthRequestView { code: self.code@, state: self.state@ }
    }
}

impl AuthRequest {
    /// The query with the given code and state.
    pub fn new(code: String, state: String) -> (q: AuthRequest)
        ensures
            q@ == (AuthRequestView { code: code@, state: state@ }),
    {
        AuthRequest { code, state }
    }

    /// The authorization code.
    pub fn code(&self) -> (code: &str)
        ensures
            code@ == self@.code,
    {
        self.code.as_str()
    }

    /// The `state` that came back: the CSRF token of the login attempt.
    pub fn state(&self) -> (state: &str)
        ensures
            state@ == self@.state,
    {
        self.state.as_str()
    }
}

/// Reply to [`TakeState`].
#[derive(Clone, Debug, PartialEq, Eq)]
pub enum StateReply {
    /// The record was there; it has been deleted.
    Found(AuthorizationState),
    /// No record under that token: never issued, spent, or lapsed.
    Missing,
    /// A record was there and has been deleted, but cannot be read.
    Corrupt,
    /// The cache could not be reached.
    Unavailable,
}

/// Mathematical content of a [`StateReply`].
pub enum StateReplyView {
    Found(StateView),
    Missing,
    Corrupt,
    Unavailable,
}

impl View for StateReply {
    type V = StateReplyView;

    open spec fn view(&self) -> StateReplyView {
        match *self {
            StateReply::Found(s) => StateReplyView::Found(s@),
            StateReply::Missing => StateReplyView::Missing,
            StateReply::Corrupt => StateReplyView::Corrupt,
            StateReply::Unavailable => StateReplyView::Unavailable,
        }
    }
}

/// The reply that a read of the cache amounts to: nothing read is a missing
/// record, something read that does not decode is a corrupt one.
pub open spec fn state_reply_of(hit: bool, decoded: Option<StateView>) -> StateReplyView {
    if !hit {
        StateReplyView::Missing
    } else {
        match decoded {
            Some(state) => StateReplyView::Found(state),
            None => StateReplyView::Corrupt,
        }
    }
}

/// View of an optional state.
pub open spec fn state_of(s: Option<AuthorizationState>) -> Option<StateView> {
    match s {
        Some(s) => Some(s@),
        None => None,
    }
}

impl StateReply {
    /// Classifies what `GETDEL` returned: whether it returned anything, and
    /// what the value decoded to, if it did decode.
    pub fn of_read(hit: bool, decoded: Option<AuthorizationState>) -> (reply: StateReply)
        ensures
            reply@ == state_reply_of(hit, state_of(decoded)),
    {
        if !hit {
            StateReply::Missing
        } else {
            match decoded {
                Some(state) => StateReply::Found(state),
                None => StateReply::Corrupt,
            }
        }
    }
}

/// Reply to [`ExchangeCode`]: the token, or the way in which the exchange
/// failed as the OAuth2 client tells it.
#[derive(Clone, Debug, PartialEq, Eq)]
pub enum TokenReply {
    /// The token endpoint issued an access token.
    Issued { access_token: String },
    /// The token endpoint answered with an error response.
    ServerResponse { payload: String },
    /// Sending the request or receiving the answer failed.
    Request,
    /// The answer could not be parsed.
    Parse,
    /// The answer was not one the client knows what to do with.
    Other,
    /// No answer came within the time allowed.
    TimedOut,
}

/// Mathematical content of a [`TokenReply`].
pub enum TokenReplyView {
    Issued { access_token: Seq<char> },
    ServerResponse { payload: Seq<char> },
    Request,
    Parse,
    Other,
    TimedOut,
}

impl View for TokenReply {
    type V = TokenReplyView;

    open spec fn view(&self) -> TokenReplyView {
        match *self {
            TokenReply::Issued { access_token } => TokenReplyView::Issued {
                access_token: access_token@,
            },
            TokenReply::ServerResponse { payload } => TokenReplyView::ServerResponse {
                payload: payload@,
            },
            TokenReply::Request => TokenReplyView::Request,
            TokenReply::Parse => TokenReplyView::Parse,
            TokenReply::Other => TokenReplyView::Other,
            TokenReply::TimedOut => TokenReplyView::TimedOut,
        }
    }
}

/// Reply to [`FetchIdentity`].
#[derive(Clone, Debug, PartialEq, Eq)]
pub enum IdentityReply {
    /// The endpoint answered with an email and a subject.
    Identified(AuthentikUser),
    /// The call failed, or its answer could not be read.
    Failed,
}

/// Mathematical content of an [`IdentityReply`].
pub enum IdentityReplyView {
    Identified(UserView),
    Failed,
}

impl View for IdentityReply {
    type V = IdentityReplyView;

    open spec fn view(&self) -> IdentityReplyView {
        match *self {
            IdentityReply::Identified(u) => IdentityReplyView::Identified(u@),
            IdentityReply::Failed => IdentityReplyView::Failed,
        }
    }
}

/// Request to fetch the state stored under a CSRF token and delete it, in
/// one step.
#[derive(Clone, Debug, PartialEq, Eq)]
pub struct TakeState {
    pub csrf_token: String,
}

/// Request to exchange the authorization code, with the PKCE verifier, for
/// an access token.
#[derive(Clone, Debug, PartialEq, Eq)]
pub struct ExchangeCode {
    pub code: String,
    pub pkce_verifier: String,
}

/// Request to ask the identity endpoint who the bearer of the token is.
#[derive(Clone, Debug, PartialEq, Eq)]
pub struct FetchIdentity {
    pub access_token: String,
}

/// Request to store a session under its id.
#[derive(Clone, Debug, PartialEq, Eq)]
pub struct PutSession {
    pub session: Session,
}

/// A callback whose state is being fetched.
#[derive(Debug)]
pub struct AwaitingState {
    code: String,
}

/// A callback whose code is being exchanged.
#[derive(Debug)]
pub struct AwaitingToken {
    return_url: String,
}

/// A callback whose user is being identified.
#[derive(Debug)]
pub struct AwaitingIdentity {
    return_url: String,
}

/// A callback whose session is being stored.
#[derive(Debug)]
pub struct AwaitingSession {
    session_id: String,
    return_url: String,
}

impl AwaitingState {
    /// The authorization code of the callback.
    pub closed spec fn code(&self) -> Seq<char> {
        self.code@
    }
}

impl AwaitingToken {
    /// Where the user goes once logged in.
    pub closed spec fn return_url(&self) -> Seq<char> {
        self.return_url@
    }
}

impl AwaitingIdentity {
    /// Where the user goes once logged in.
    pub closed spec fn return_url(&self) -> Seq<char> {
        self.return_url@
    }
}

impl AwaitingSession {
    /// The id of the session being stored.
    pub closed spec fn session_id(&self) -> Seq<char> {
        self.session_id@
    }

    /// Where the user goes once logged in.
    pub closed spec fn return_url(&self) -> Seq<char> {
        self.return_url@
    }
}

/// What the exchange asks of the token endpoint.
pub struct ExchangeView {
    pub code: Seq<char>,
    pub pkce_verifier: Seq<char>,
    pub return_url: Seq<char>,
}

/// First decision: the state must have been found. Its verifier goes to the
/// token endpoint with the code of the callback; its return URL is kept.
pub open spec fn state_step(code: Seq<char>, reply: StateReplyView) -> Result<
    ExchangeView,
    AuthErrorView,
> {
    match reply {
        StateReplyView::Found(state) => Ok(
            ExchangeView {
                code,
                pkce_verifier: state.pkce_code_verifier_secret,
                return_url: state.return_url,
            },
        ),
        StateReplyView::Missing => Err(AuthErrorView::StateNotFound),
        StateReplyView::Corrupt => Err(AuthErrorView::StateNotFound),
        StateReplyView::Unavailable => Err(AuthErrorView::StoreUnavailable),
    }
}

/// Second decision: a token must have been issued. An error response of the
/// server is a rejection and keeps its payload; a request that failed or
/// was not answered in time is a transport failure; an answer that cannot
/// be parsed, or that the client does not know, is a parse failure.
pub open spec fn token_step(reply: TokenReplyView) -> Result<Seq<char>, AuthErrorView> {
    match reply {
        TokenReplyView::Issued { access_token } => Ok(access_token),
        TokenReplyView::ServerResponse { payload } => Err(
            AuthErrorView::TokenExchangeFailed(ExchangeFailureView::ServerRejected { payload }),
        ),
        TokenReplyView::Request => Err(
            AuthErrorView::TokenExchangeFailed(ExchangeFailureView::Transport),
        ),
        TokenReplyView::Parse => Err(
            AuthErrorView::TokenExchangeFailed(ExchangeFailureView::ParseFailure),
        ),
        TokenReplyView::Other => Err(
            AuthErrorView::TokenExchangeFailed(ExchangeFailureView::ParseFailure),
        ),
        TokenReplyView::TimedOut => Err(
            AuthErrorView::TokenExchangeFailed(ExchangeFailureView::Transport),
        ),
    }
}

/// Third decision: the user must have been identified. The session is the
/// identity under the fresh id.
pub open spec fn identity_step(reply: IdentityReplyView, session_id: Seq<char>) -> Result<
    SessionView,
    AuthErrorView,
> {
    match reply {
        IdentityReplyView::Identified(user) => Ok(SessionView { id: session_id, user }),
        IdentityReplyView::Failed => Err(AuthErrorView::IntrospectionFailed),
    }
}

/// The response to a completed login: the session cookie, and a redirect to
/// the return URL.
pub open spec fn login_response(session_id: Seq<char>, return_url: Seq<char>) -> ResponseView {
    ResponseView {
        status: SEE_OTHER as int,
        location: Some(return_url),
        set_cookie: Some(session_cookie_text(session_id)),
    }
}

/// Last decision: the session must have been stored.
pub open spec fn store_step(session_id: Seq<char>, return_url: Seq<char>, reply: WriteReply) -> Result<
    ResponseView,
    AuthErrorView,
> {
    match reply {
        WriteReply::Stored => Ok(login_response(session_id, return_url)),
        WriteReply::Unavailable => Err(AuthErrorView::StoreUnavailable),
    }
}

/// The whole callback as one function of the replies it gets: the response
/// that ends it, or the error. A reply to a step that is never reached plays
/// no part.
pub open spec fn login_result(
    code: Seq<char>,
    state: StateReplyView,
    token: TokenReplyView,
    identity: IdentityReplyView,
    session_id: Seq<char>,
    stored: WriteReply,
) -> Result<ResponseView, AuthErrorView> {
    match state_step(code, state) {
        Err(e) => Err(e),
        Ok(exchange) => match token_step(token) {
            Err(e) => Err(e),
            Ok(_) => match identity_step(identity, session_id) {
                Err(e) => Err(e),
                Ok(session) => store_step(session.id, exchange.return_url, stored),
            },
        },
    }
}

/// The session that a callback asks to store, if it gets that far.
pub open spec fn session_to_store(
    code: Seq<char>,
    state: StateReplyView,
    token: TokenReplyView,
    identity: IdentityReplyView,
    session_id: Seq<char>,
) -> Option<SessionView> {
    match state_step(code, state) {
        Err(_) => None,
        Ok(_) => match token_step(token) {
            Err(_) => None,
            Ok(_) => match identity_step(identity, session_id) {
                Err(_) => None,
                Ok(session) => Some(session),
            },
        },
    }
}

/// Takes up a callback. The first thing to do is to fetch, and thereby
/// spend, the state stored under the `state` of the query.
pub fn login_authorized(query: AuthRequest) -> (r: (AwaitingState, TakeState))
    ensures
        r.0.code() == query@.code,
        r.1.csrf_token@ == query@.state,
{
    let AuthRequest { code, state } = query;
    (AwaitingState { code }, TakeState { csrf_token: state })
}

impl AwaitingState {
    /// Goes on with the state that was stored for this callback. Found, the
    /// code is to be exchanged together with exactly the verifier of that
    /// state. Not found or unreadable, the login ends with `StateNotFound`;
    /// with the cache out of reach, it ends with `StoreUnavailable`.
    pub fn on_state(self, reply: StateReply) -> (r: Result<(AwaitingToken, ExchangeCode), AuthError>)
        ensures
            match state_step(self.code(), reply@) {
                Ok(exchange) => {
                    &&& r is Ok
                    &&& r->Ok_0.0.return_url() == exchange.return_url
                    &&& r->Ok_0.1.code@ == exchange.code
                    &&& r->Ok_0.1.pkce_verifier@ == exchange.pkce_verifier
                },
                Err(e) => r is Err && r->Err_0@ == e,
            },
    {
        match reply {
            StateReply::Found(state) => {
                let AuthorizationState { csrf_token: _, pkce_code_verifier_secret, return_url } =
                    state;
                Ok(
                    (
                        AwaitingToken { return_url },
                        ExchangeCode { code: self.code, pkce_verifier: pkce_code_verifier_secret },
                    ),
                )
            },
            StateReply::Missing => Err(AuthError::StateNotFound),
            StateReply::Corrupt => Err(AuthError::StateNotFound),
            StateReply::Unavailable => Err(AuthError::StoreUnavailable),
        }
    }
}

impl AwaitingToken {
    /// Goes on with the answer of the token endpoint. With a token, the
    /// identity behind it is to be fetched; without one, the login ends with
    /// the kind of failure that the answer shows.
    pub fn on_token(self, reply: TokenReply) -> (r: Result<
        (AwaitingIdentity, FetchIdentity),
        AuthError,
    >)
        ensures
            match token_step(reply@) {
                Ok(access_token) => {
                    &&& r is Ok
                    &&& r->Ok_0.0.return_url() == self.return_url()
                    &&& r->Ok_0.1.access_token@ == access_token
                },
                Err(e) => r is Err && r->Err_0@ == e,
            },
    {
        match reply {
            TokenReply::Issued { access_token } => Ok(
                (AwaitingIdentity { return_url: self.return_url }, FetchIdentity { access_token }),
            ),
            TokenReply::ServerResponse { payload } => Err(
                AuthError::TokenExchangeFailed(ExchangeFailure::ServerRejected { payload }),
            ),
            TokenReply::Request => Err(AuthError::TokenExchangeFailed(ExchangeFailure::Transport)),
            TokenReply::Parse => Err(AuthError::TokenExchangeFailed(ExchangeFailure::ParseFailure)),
            TokenReply::Other => Err(AuthError::TokenExchangeFailed(ExchangeFailure::ParseFailure)),
            TokenReply::TimedOut => Err(AuthError::TokenExchangeFailed(ExchangeFailure::Transport)),
        }
    }
}

impl AwaitingIdentity {
    /// Goes on with the answer of the identity endpoint, under the given
    /// session id. With an identity, the session is to be stored; without
    /// one, the login ends with `IntrospectionFailed` and no session exists.
    pub fn on_identity_with(self, reply: IdentityReply, session_id: String) -> (r: Result<
        (AwaitingSession, PutSession),
        AuthError,
    >)
        ensures
            match identity_step(reply@, session_id@) {
                Ok(session) => {
                    &&& r is Ok
                    &&& r->Ok_0.0.session_id() == session_id@
                    &&& r->Ok_0.0.return_url() == self.return_url()
                    &&& r->Ok_0.1.session@ == session
                },
                Err(e) => r is Err && r->Err_0@ == e,
            },
    {
        match reply {
            IdentityReply::Identified(user) => {
                let session = Session::new(session_id.clone(), user);
                Ok(
                    (
                        AwaitingSession { session_id, return_url: self.return_url },
                        PutSession { session },
                    ),
                )
            },
            IdentityReply::Failed => Err(AuthError::IntrospectionFailed),
        }
    }

    /// Goes on with the answer of the identity endpoint, under a freshly
    /// drawn session id.
    pub fn on_identity(self, reply: IdentityReply) -> (r: Result<
        (AwaitingSession, PutSession),
        AuthError,
    >)
        ensures
            match reply@ {
                IdentityReplyView::Identified(user) => {
                    &&& r is Ok
                    &&& is_generated_session_id(r->Ok_0.0.session_id())
                    &&& r->Ok_0.0.return_url() == self.return_url()
                    &&& identity_step(reply@, r->Ok_0.0.session_id()) == Ok::<
                        SessionView,
                        AuthErrorView,
                    >(r->Ok_0.1.session@)
                },
                IdentityReplyView::Failed => r is Err && r->Err_0@
                    == AuthErrorView::IntrospectionFailed,
            },
    {
        self.on_identity_with(reply, random_session_id())
    }
}

impl AwaitingSession {
    /// Ends the login once the session has been written: the cookie with
    /// the session id and a redirect to the return URL. Where the cache
    /// failed, no cookie is handed out.
    pub fn on_stored(self, reply: WriteReply) -> (r: Result<Response, AuthError>)
        ensures
            match store_step(self.session_id(), self.return_url(), reply) {
                Ok(view) => r is Ok && r->Ok_0@ == view,
                Err(e) => r is Err && r->Err_0@ == e,
            },
    {
        match reply {
            WriteReply::Stored => Ok(
                Response {
                    status: SEE_OTHER,
                    location: Some(self.return_url),
                    set_cookie: Some(session_cookie(self.session_id.as_str())),
                },
            ),
            WriteReply::Unavailable => Err(AuthError::StoreUnavailable),
        }
    }
}

/// No session without a full exchange. A callback asks to store a session
/// exactly if its state was found, a token was issued and the user was
/// identified; the session then is that user under the fresh id.
pub proof fn law_session_needs_every_step(
    code: Seq<char>,
    state: StateReplyView,
    token: TokenReplyView,
    identity: IdentityReplyView,
    session_id: Seq<char>,
)
    ensures
        session_to_store(code, state, token, identity, session_id) is Some <==> state is Found
            && token is Issued && identity is Identified,
        session_to_store(code, state, token, identity, session_id) is Some ==> session_to_store(
            code,
            state,
            token,
            identity,
            session_id,
        ) == Some(SessionView { id: session_id, user: identity->Identified_0 }),
{
}

/// The cookie is the last thing to happen. A callback ends in a response
/// exactly if every step succeeded, and that response sets the cookie of the
/// new session and redirects to the return URL of the state that was found.
/// Every other callback ends in an error whose response sets no cookie.
pub proof fn law_cookie_needs_every_step(
    code: Seq<char>,
    state: StateReplyView,
    token: TokenReplyView,
    identity: IdentityReplyView,
    session_id: Seq<char>,
    stored: WriteReply,
)
    ensures
        match login_result(code, state, token, identity, session_id, stored) {
            Ok(response) => {
                &&& state is Found
                &&& token is Issued
                &&& identity is Identified
                &&& stored == WriteReply::Stored
                &&& response == login_response(session_id, state->Found_0.return_url)
            },
            Err(e) => {
                &&& !(state is Found && token is Issued && identity is Identified && stored
                    == WriteReply::Stored)
                &&& crate::error::error_response(e).set_cookie is None
            },
        },
{
}

/// A spent state ends the login. State is stored at second `stored_at` and
/// taken by a callback at `first`, less than one time to live later, while
/// the cache serves other keys in between. Whatever the cache is asked after
/// that, short of storing login state under the same token, a callback
/// that asks for the state again reads nothing and ends with
/// `StateNotFound`, whatever its code.
pub proof fn law_state_is_read_once(
    cache: crate::store::Cache,
    csrf_token: Seq<char>,
    payload: Seq<char>,
    stored_at: int,
    between: Seq<crate::store::Step>,
    first: int,
    later: Seq<crate::store::Step>,
    second: int,
    code: Seq<char>,
    decoded: Option<StateView>,
)
    requires
        stored_at <= first,
        first - stored_at < crate::store::TTL_SECONDS,
        crate::store::leaves_alone(between, crate::store::state_key(csrf_token))
            || crate::store::session_traffic(between),
        crate::store::never_writes(later, crate::store::state_key(csrf_token))
            || crate::store::session_traffic(later),
    ensures
        ({
            let key = crate::store::state_key(csrf_token);
            let take = crate::store::CommandView::GetDel { key };
            let stored = crate::store::execute_all(
                cache,
                crate::store::put_plan(key, payload),
                stored_at,
            );
            let taken = crate::store::execute(crate::store::run(stored, between), take, first);
            let again = crate::store::execute(crate::store::run(taken.0, later), take, second);
            &&& taken.1 == Some(payload)
            &&& again.1 is None
            &&& state_step(code, state_reply_of(again.1 is Some, decoded)) == Err::<
                ExchangeView,
                AuthErrorView,
            >(AuthErrorView::StateNotFound)
        }),
{
    if crate::store::session_traffic(between) {
        crate::store::law_session_traffic_leaves_states(cache, between, csrf_token);
    }
    if crate::store::session_traffic(later) {
        crate::store::law_session_traffic_leaves_states(cache, later, csrf_token);
    }
    crate::store::law_state_is_taken_once(
        cache,
        csrf_token,
        payload,
        stored_at,
        between,
        first,
        later,
        second,
    );
}

/// A callback cannot end a session. Whatever `state` a callback presents,
/// the text of a session id included, taking the state under it leaves
/// every session readable as before.
pub proof fn law_callback_spares_sessions(
    cache: crate::store::Cache,
    state: Seq<char>,
    session_id: Seq<char>,
    now: int,
    later: int,
)
    ensures
        ({
            let take = crate::store::CommandView::GetDel { key: crate::store::state_key(state) };
            let after = crate::store::execute(cache, take, now).0;
            crate::store::read(after, crate::store::session_key(session_id), later)
                == crate::store::read(cache, crate::store::session_key(session_id), later)
        }),
{
    crate::store::law_key_spaces_are_apart(state, session_id);
}

/// The token endpoint is shown the verifier that was challenged. Where the
/// state of a login decodes to what [`authorize`](crate::authorize::authorize)
/// stored, the exchange presents the verifier of that state, and the S256
/// challenge of what it presents is the challenge that was sent out.
pub proof fn law_exchange_presents_challenged_verifier(
    started: crate::authorize::AuthorizationView,
    code: Seq<char>,
)
    requires
        started.code_challenge == crate::pkce::s256_challenge(
            started.state.pkce_code_verifier_secret,
        ),
    ensures
        ({
            let exchange = state_step(code, StateReplyView::Found(started.state));
            &&& exchange is Ok
            &&& exchange->Ok_0.code == code
            &&& exchange->Ok_0.pkce_verifier == started.state.pkce_code_verifier_secret
            &&& crate::pkce::s256_challenge(exchange->Ok_0.pkce_verifier) == started.code_challenge
        }),
{
}

} // verus!
