//! The access guard: what stands between a request and its handler.
//!
//! The guard forwards a request to a path of the exemption set as it is, and
//! any other request only if it presents a token that verifies. Everything
//! else is answered 401, and the handler never runs.

use vstd::prelude::*;
use crate::bearer::{bearer_scheme, is_space, law_bearer_header_presents_its_token};
use crate::clock::unix_seconds;
use crate::jwt::{authentication, shared_codec, shared_key};
use crate::request::{authorization_name, header_text, presented};
use crate::text::same_text;
use crate::token::{verification, TokenCodec};

verus! {

/// The status of a rejection.
pub const UNAUTHORIZED: u16 = 401;

/// The paths that need no credential. A path is exempt only letter for
/// letter: one with another case or a trailing `/` is not.
pub open spec fn exemption_set() -> Set<Seq<char>> {
    set![
        "/api/auth/guest_login"@,
        "/api/auth/signup"@,
        "/api/auth/login"@,
        "/api/auth/current_user"@,
    ]
}

/// Whether `path` needs no credential.
pub open spec fn is_exempt(path: Seq<char>) -> bool {
    exemption_set().contains(path)
}

/// Whether the guard lets a request through: its path is exempt, or the
/// token that it presents verifies.
pub open spec fn admits(
    secret: Seq<u8>,
    path: Seq<char>,
    authorization: Option<Seq<char>>,
    clock: Option<u64>,
) -> bool {
    is_exempt(path) || authentication(secret, authorization, clock) is Ok
}

/// The answer to a request that the guard does not let through.
#[derive(Debug, Clone, PartialEq, Eq)]
pub struct Rejection {
    /// The HTTP status.
    pub status: u16,
    /// The body, as plain text.
    pub body: String,
}

/// What the guard does with a request.
#[derive(Debug, Clone, PartialEq, Eq)]
pub enum Verdict {
    /// The request goes on to its handler, unchanged.
    Forward,
    /// The request is answered at once.
    Reject(Rejection),
}

/// The one rejection there is: 401, `Unauthorized`. It does not say why.
pub open spec fn is_unauthorized(verdict: Verdict) -> bool {
    verdict matches Verdict::Reject(rejection) && rejection.status == UNAUTHORIZED
        && rejection.body@ == "Unauthorized"@
}

/// The verdict that is owed: forward what the guard admits, reject the rest.
pub open spec fn is_owed(verdict: Verdict, admitted: bool) -> bool {
    if admitted {
        verdict is Forward
    } else {
        is_unauthorized(verdict)
    }
}

impl Rejection {
    /// The rejection.
    pub fn unauthorized() -> (rejection: Rejection)
        ensures
            is_unauthorized(Verdict::Reject(rejection)),
    {
        Rejection { status: UNAUTHORIZED, body: "Unauthorized".to_owned() }
    }
}

/// Whether `path` needs no credential.
pub fn is_exempt_path(path: &str) -> (r: bool)
    ensures
        r == is_exempt(path@),
{
    same_text(path, "/api/auth/guest_login") || same_text(path, "/api/auth/signup") || same_text(
        path,
        "/api/auth/login",
    ) || same_text(path, "/api/auth/current_user")
}

/// Makes guards.
#[derive(Clone)]
pub struct JwtMiddlewareLayer {
    codec: TokenCodec,
}

/// A guard in front of the service `inner`.
pub struct JwtMiddleware<S> {
    /// The service that forwarded requests go to.
    pub inner: S,
    /// The codec that presented tokens are verified with.
    pub codec: TokenCodec,
}

impl JwtMiddlewareLayer {
    /// The key under which the guards verify.
    pub closed spec fn key(&self) -> Seq<u8> {
        self.codec.key()
    }

    /// Guards that verify under the process-wide secret.
    pub fn new() -> (layer: JwtMiddlewareLayer)
        ensures
            layer.key() == shared_key(),
    {
        JwtMiddlewareLayer { codec: shared_codec() }
    }

    /// Guards that verify with `codec`.
    pub fn with_codec(codec: TokenCodec) -> (layer: JwtMiddlewareLayer)
        ensures
            layer.key() == codec.key(),
    {
        JwtMiddlewareLayer { codec }
    }

    /// Puts a guard in front of `inner`.
    pub fn layer<S>(&self, inner: S) -> (guard: JwtMiddleware<S>)
        ensures
            guard.inner == inner,
            guard.key() == self.key(),
    {
        JwtMiddleware { inner, codec: self.codec.duplicate() }
    }
}

impl<S> JwtMiddleware<S> {
    /// The key under which the guard verifies.
    pub open spec fn key(&self) -> Seq<u8> {
        self.codec.key()
    }

    /// Decides on a request by its path and headers, on a reading of the
    /// clock. The headers of a request to an exempt path are not looked at.
    pub fn decide(&self, path: &str, headers: &axum::http::HeaderMap, clock: Option<u64>) -> (verdict:
        Verdict)
        ensures
            is_owed(
                verdict,
                admits(self.key(), path@, header_text(*headers, authorization_name()), clock),
            ),
    {
        if is_exempt_path(path) {
            return Verdict::Forward;
        }
        match self.codec.authenticate(headers, clock) {
            Ok(_) => Verdict::Forward,
            Err(_) => Verdict::Reject(Rejection::unauthorized()),
        }
    }

    /// Decides on a request by its path and headers, at the instant that
    /// the clock shows.
    pub fn intercept(&self, path: &str, headers: &axum::http::HeaderMap) -> (verdict: Verdict)
        ensures
            exists|clock: Option<u64>|
                is_owed(
                    verdict,
                    #[trigger] admits(
                        self.key(),
                        path@,
                        header_text(*headers, authorization_name()),
                        clock,
                    ),
                ),
            is_exempt(path@) ==> verdict is Forward,
            !is_exempt(path@) && presented(header_text(*headers, authorization_name())) is None
                ==> is_unauthorized(verdict),
    {
        self.decide(path, headers, unix_seconds())
    }
}

/// A request to an exempt path is let through, whether its `Authorization`
/// header is absent, malformed or well formed, and whatever the clock shows.
pub proof fn law_exempt_path_is_forwarded(
    secret: Seq<u8>,
    path: Seq<char>,
    authorization: Option<Seq<char>>,
    clock: Option<u64>,
)
    requires
        is_exempt(path),
    ensures
        admits(secret, path, authorization, clock),
{
}

/// A request to any other path is not let through without an
/// `Authorization` header.
pub proof fn law_missing_header_is_rejected(secret: Seq<u8>, path: Seq<char>, clock: Option<u64>)
    requires
        !is_exempt(path),
    ensures
        !admits(secret, path, None, clock),
{
}

/// A request to any other path is not let through with an `Authorization`
/// header that is not `Bearer <token>`.
pub proof fn law_malformed_header_is_rejected(
    secret: Seq<u8>,
    path: Seq<char>,
    authorization: Option<Seq<char>>,
    clock: Option<u64>,
)
    requires
        !is_exempt(path),
        presented(authorization) is None,
    ensures
        !admits(secret, path, authorization, clock),
{
}

/// A request that presents, as `Bearer` and one space before it, a token
/// that verifies is let through, whatever its path.
pub proof fn law_verified_token_is_admitted(
    secret: Seq<u8>,
    path: Seq<char>,
    token: Seq<char>,
    now: u64,
)
    requires
        token.len() > 0,
        forall|k: int| 0 <= k < token.len() ==> !is_space(token[k]),
        verification(secret, token, now as int) is Ok,
    ensures
        admits(secret, path, Some(bearer_scheme() + seq![' '] + token), Some(now)),
{
    law_bearer_header_presents_its_token(token);
}

} // verus!
