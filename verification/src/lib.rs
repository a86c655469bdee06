//! Request authentication for an HTTP API.
//!
//! A login handler issues a signed session token; every later request passes
//! an access guard, which lets it through to its handler or answers 401. The
//! token codec and the guard hold no state: the token is the only session
//! artifact, and the signing secret and the clock are handed in.

pub mod text;
pub mod claims;
pub mod payload;
pub mod bearer;
pub mod token;
pub mod request;
pub mod clock;
pub mod jwt;
pub mod jwt_middleware;
