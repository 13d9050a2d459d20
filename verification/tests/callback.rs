use youtinerary_auth::authorize::AuthorizationState;
use youtinerary_auth::callback::{
    login_authorized, AuthRequest, ExchangeCode, FetchIdentity, IdentityReply, StateReply,
    TakeState, TokenReply,
};
use youtinerary_auth::error::{AuthError, ExchangeFailure};
use youtinerary_auth::response::Response;
use youtinerary_auth::session::{AuthentikUser, Session};
use youtinerary_auth::store::WriteReply;

fn query() -> AuthRequest {
    AuthRequest::new("C".to_string(), "S".to_string())
}

fn stored_state() -> AuthorizationState {
    AuthorizationState {
        csrf_token: "S".to_string(),
        pkce_code_verifier_secret: "the-verifier".to_string(),
        return_url: "/trips".to_string(),
    }
}

fn user() -> AuthentikUser {
    AuthentikUser { email: "a@b.com".to_string(), sub: "123".to_string() }
}

#[test]
fn callback_first_takes_the_state() {
    let (_, take) = login_authorized(query());
    assert_eq!(take, TakeState { csrf_token: "S".to_string() });
}

#[test]
fn found_state_leads_to_the_exchange_with_its_verifier() {
    let (pending, _) = login_authorized(query());
    let (_, exchange) = pending.on_state(StateReply::Found(stored_state())).unwrap();
    assert_eq!(
        exchange,
        ExchangeCode { code: "C".to_string(), pkce_verifier: "the-verifier".to_string() }
    );
}

#[test]
fn missing_state_is_state_not_found() {
    let (pending, _) = login_authorized(query());
    assert_eq!(pending.on_state(StateReply::Missing).unwrap_err(), AuthError::StateNotFound);
}

#[test]
fn corrupt_state_is_state_not_found() {
    let (pending, _) = login_authorized(query());
    assert_eq!(pending.on_state(StateReply::Corrupt).unwrap_err(), AuthError::StateNotFound);
}

#[test]
fn unreachable_cache_at_the_state_is_store_unavailable() {
    let (pending, _) = login_authorized(query());
    assert_eq!(
        pending.on_state(StateReply::Unavailable).unwrap_err(),
        AuthError::StoreUnavailable
    );
}

#[test]
fn state_reply_of_read() {
    assert_eq!(StateReply::of_read(false, None), StateReply::Missing);
    assert_eq!(StateReply::of_read(false, Some(stored_state())), StateReply::Missing);
    assert_eq!(StateReply::of_read(true, None), StateReply::Corrupt);
    assert_eq!(
        StateReply::of_read(true, Some(stored_state())),
        StateReply::Found(stored_state())
    );
}

#[test]
fn issued_token_leads_to_the_identity_call() {
    let (pending, _) = login_authorized(query());
    let (pending, _) = pending.on_state(StateReply::Found(stored_state())).unwrap();
    let (_, fetch) =
        pending.on_token(TokenReply::Issued { access_token: "T1".to_string() }).unwrap();
    assert_eq!(fetch, FetchIdentity { access_token: "T1".to_string() });
}

#[test]
fn server_response_is_a_rejection_with_its_payload() {
    let (pending, _) = login_authorized(query());
    let (pending, _) = pending.on_state(StateReply::Found(stored_state())).unwrap();
    assert_eq!(
        pending
            .on_token(TokenReply::ServerResponse { payload: "invalid_grant".to_string() })
            .unwrap_err(),
        AuthError::TokenExchangeFailed(ExchangeFailure::ServerRejected {
            payload: "invalid_grant".to_string()
        })
    );
}

#[test]
fn failed_request_is_a_transport_failure() {
    let (pending, _) = login_authorized(query());
    let (pending, _) = pending.on_state(StateReply::Found(stored_state())).unwrap();
    assert_eq!(
        pending.on_token(TokenReply::Request).unwrap_err(),
        AuthError::TokenExchangeFailed(ExchangeFailure::Transport)
    );
}

#[test]
fn timeout_is_a_transport_failure() {
    let (pending, _) = login_authorized(query());
    let (pending, _) = pending.on_state(StateReply::Found(stored_state())).unwrap();
    assert_eq!(
        pending.on_token(TokenReply::TimedOut).unwrap_err(),
        AuthError::TokenExchangeFailed(ExchangeFailure::Transport)
    );
}

#[test]
fn unparsable_answer_is_a_parse_failure() {
    let (pending, _) = login_authorized(query());
    let (pending, _) = pending.on_state(StateReply::Found(stored_state())).unwrap();
    assert_eq!(
        pending.on_token(TokenReply::Parse).unwrap_err(),
        AuthError::TokenExchangeFailed(ExchangeFailure::ParseFailure)
    );
}

#[test]
fn unexpected_answer_is_a_parse_failure() {
    let (pending, _) = login_authorized(query());
    let (pending, _) = pending.on_state(StateReply::Found(stored_state())).unwrap();
    assert_eq!(
        pending.on_token(TokenReply::Other).unwrap_err(),
        AuthError::TokenExchangeFailed(ExchangeFailure::ParseFailure)
    );
}

#[test]
fn identity_leads_to_the_session_under_the_given_id() {
    let (pending, _) = login_authorized(query());
    let (pending, _) = pending.on_state(StateReply::Found(stored_state())).unwrap();
    let (pending, _) =
        pending.on_token(TokenReply::Issued { access_token: "T1".to_string() }).unwrap();
    let (pending, put) = pending
        .on_identity_with(IdentityReply::Identified(user()), "session-id-1".to_string())
        .unwrap();
    assert_eq!(put.session, Session { id: "session-id-1".to_string(), user: user() });
    assert_eq!(
        pending.on_stored(WriteReply::Stored),
        Ok(Response {
            status: 303,
            location: Some("/trips".to_string()),
            set_cookie: Some("SESSION=session-id-1; SameSite=Lax; Path=/".to_string()),
        })
    );
}

#[test]
fn failed_identity_is_introspection_failed() {
    let (pending, _) = login_authorized(query());
    let (pending, _) = pending.on_state(StateReply::Found(stored_state())).unwrap();
    let (pending, _) =
        pending.on_token(TokenReply::Issued { access_token: "T1".to_string() }).unwrap();
    assert_eq!(
        pending.on_identity(IdentityReply::Failed).unwrap_err(),
        AuthError::IntrospectionFailed
    );
}

#[test]
fn failed_identity_with_an_id_is_introspection_failed() {
    let (pending, _) = login_authorized(query());
    let (pending, _) = pending.on_state(StateReply::Found(stored_state())).unwrap();
    let (pending, _) =
        pending.on_token(TokenReply::Issued { access_token: "T1".to_string() }).unwrap();
    assert_eq!(
        pending.on_identity_with(IdentityReply::Failed, "unused".to_string()).unwrap_err(),
        AuthError::IntrospectionFailed
    );
}

#[test]
fn fresh_session_ids_are_forty_four_base64_characters() {
    let (pending, _) = login_authorized(query());
    let (pending, _) = pending.on_state(StateReply::Found(stored_state())).unwrap();
    let (pending, _) =
        pending.on_token(TokenReply::Issued { access_token: "T1".to_string() }).unwrap();
    let (_, put) = pending.on_identity(IdentityReply::Identified(user())).unwrap();
    assert_eq!(put.session.user, user());
    assert_eq!(put.session.id.len(), 44);
    assert!(put
        .session
        .id
        .chars()
        .all(|c| c.is_ascii_alphanumeric() || c == '+' || c == '/' || c == '='));
}

fn fresh_session() -> Session {
    let (pending, _) = login_authorized(query());
    let (pending, _) = pending.on_state(StateReply::Found(stored_state())).unwrap();
    let (pending, _) =
        pending.on_token(TokenReply::Issued { access_token: "T1".to_string() }).unwrap();
    pending.on_identity(IdentityReply::Identified(user())).unwrap().1.session
}

#[test]
fn fresh_session_ids_differ() {
    assert_ne!(fresh_session().id, fresh_session().id);
}

#[test]
fn unstored_session_hands_out_no_cookie() {
    let (pending, _) = login_authorized(query());
    let (pending, _) = pending.on_state(StateReply::Found(stored_state())).unwrap();
    let (pending, _) =
        pending.on_token(TokenReply::Issued { access_token: "T1".to_string() }).unwrap();
    let (pending, _) = pending.on_identity(IdentityReply::Identified(user())).unwrap();
    let error = pending.on_stored(WriteReply::Unavailable).unwrap_err();
    assert_eq!(error, AuthError::StoreUnavailable);
    assert_eq!(error.into_response().set_cookie, None);
}

#[test]
fn state_not_found_sends_back_to_the_login() {
    assert_eq!(
        AuthError::StateNotFound.into_response(),
        Response { status: 307, location: Some("/authorize".to_string()), set_cookie: None }
    );
}

#[test]
fn other_errors_are_bare_server_errors() {
    let bare = Response { status: 500, location: None, set_cookie: None };
    assert_eq!(
        AuthError::TokenExchangeFailed(ExchangeFailure::ServerRejected {
            payload: "secret detail".to_string()
        })
        .into_response(),
        bare
    );
    assert_eq!(
        AuthError::TokenExchangeFailed(ExchangeFailure::Transport).into_response(),
        bare
    );
    assert_eq!(
        AuthError::TokenExchangeFailed(ExchangeFailure::ParseFailure).into_response(),
        bare
    );
    assert_eq!(AuthError::IntrospectionFailed.into_response(), bare);
    assert_eq!(AuthError::StoreUnavailable.into_response(), bare);
}

#[test]
fn query_keeps_code_and_state() {
    let q = query();
    assert_eq!(q.code(), "C");
    assert_eq!(q.state(), "S");
}
