//! The identity that a login establishes, and the session that carries it.

use async_session::Session as IdSource;
use vstd::prelude::*;

verus! {

/// Who the authorization server says the user is.
#[derive(Clone, Debug, PartialEq, Eq)]
pub struct AuthentikUser {
    pub email: String,
    pub sub: String,
}

/// Mathematical content of an [`AuthentikUser`].
pub struct UserView {
    pub email: Seq<char>,
    pub sub: Seq<char>,
}

impl View for AuthentikUser {
    type V = UserView;

    open spec fn view(&self) -> UserView {
        UserView { email: self.email@, sub: self.sub@ }
    }
}

/// A login that succeeded: the id that the cookie carries and the identity
/// it stands for.
#[derive(Clone, Debug, PartialEq, Eq)]
pub struct Session {
    pub id: String,
    pub user: AuthentikUser,
}

/// Mathematical content of a [`Session`].
pub struct SessionView {
    pub id: Seq<char>,
    pub user: UserView,
}

impl View for Session {
    type V = SessionView;

    open spec fn view(&self) -> SessionView {
        SessionView { id: self.id@, user: self.user@ }
    }
}

/// A character of the standard base64 alphabet, padding included.
pub open spec fn is_base64_char(c: char) -> bool {
    ||| 'A' <= c <= 'Z'
    ||| 'a' <= c <= 'z'
    ||| '0' <= c <= '9'
    ||| c == '+'
    ||| c == '/'
    ||| c == '='
}

/// Length of a generated session id: a 32-byte digest in padded base64.
pub const SESSION_ID_LEN: usize = 44;

/// What a freshly generated session id looks like, whatever the draw.
pub open spec fn is_generated_session_id(s: Seq<char>) -> bool {
    &&& s.len() == SESSION_ID_LEN
    &&& forall|i: int| 0 <= i < s.len() ==> is_base64_char(#[trigger] s[i])
}

/// Draws a session id with `async_session::Session::new` and keeps its id.
///
/// Trusted: the id is the padded base64 text of a 32-byte digest of 64
/// random bytes, so it has 44 characters, all of the standard base64
/// alphabet. Nothing is claimed about which ones.
#[verifier::external_body]
pub(crate) fn random_session_id() -> (id: String)
    ensures
        is_generated_session_id(id@),
{
    IdSource::new().id().to_string()
}

impl Session {
    /// The session with the given id for the given user.
    pub fn new(id: String, user: AuthentikUser) -> (s: Session)
        ensures
            s@ == (SessionView { id: id@, user: user@ }),
    {
        Session { id, user }
    }
}

} // verus!
