//! Server-side OAuth2 authorization-code login with PKCE, kept free of I/O.
//!
//! The crate decides; the caller performs. Every operation that needs the
//! cache or the authorization server is split into steps that hand back the
//! next thing to do, and the contracts say exactly which step follows which
//! reply.

pub mod response;
pub mod pkce;
pub mod client;
pub mod cookies;
pub mod session;
pub mod store;
pub mod error;
pub mod authorize;
pub mod callback;
pub mod guard;
