//! The codec as handlers use it: under the process-wide secret, at the
//! instant that the system clock shows.

use vstd::prelude::*;
use vstd::utf8::encode_utf8;
use crate::claims::{Claims, ClaimsView};
use crate::clock::unix_seconds;
use crate::request::{authorization_name, credential_of, header_text, presented};
use crate::token::{
    failure_message, issuance, issue_view, outcome_view, verification, IssueError, TokenCodec,
    VerificationFailure,
};

verus! {

/// The key of the process-wide secret.
pub open spec fn shared_key() -> Seq<u8> {
    encode_utf8("secret"@)
}

/// The codec of the process-wide secret.
pub fn shared_codec() -> (codec: TokenCodec)
    ensures
        codec.key() == shared_key(),
{
    TokenCodec::new("secret")
}

/// The outcome of issuing a token on a reading of the clock.
pub open spec fn issuance_on(
    secret: Seq<u8>,
    subject: Seq<char>,
    user_id: int,
    clock: Option<u64>,
) -> Result<Seq<char>, IssueError> {
    match clock {
        Some(now) => issuance(secret, subject, user_id, now as int),
        None => Err(IssueError::ClockUnavailable),
    }
}

/// The outcome of verifying a token on a reading of the clock.
pub open spec fn verification_on(secret: Seq<u8>, token: Seq<char>, clock: Option<u64>) -> Result<
    ClaimsView,
    VerificationFailure,
> {
    match clock {
        Some(now) => verification(secret, token, now as int),
        None => Err(VerificationFailure::ClockUnavailable),
    }
}

/// The outcome of authenticating a request by its `Authorization` header,
/// on a reading of the clock. A request that presents no token is refused
/// whatever the clock shows.
pub open spec fn authentication(
    secret: Seq<u8>,
    authorization: Option<Seq<char>>,
    clock: Option<u64>,
) -> Result<ClaimsView, VerificationFailure> {
    match presented(authorization) {
        Some(token) => verification_on(secret, token, clock),
        None => Err(VerificationFailure::MissingCredential),
    }
}

/// An outcome as its caller is told: a failure is its message.
pub open spec fn reported(outcome: Result<ClaimsView, VerificationFailure>) -> Result<
    ClaimsView,
    Seq<char>,
> {
    match outcome {
        Ok(claims) => Ok(claims),
        Err(failure) => Err(failure_message(failure)),
    }
}

/// A report as mathematical values.
pub open spec fn report_view(report: Result<Claims, String>) -> Result<ClaimsView, Seq<char>> {
    match report {
        Ok(claims) => Ok(claims@),
        Err(message) => Err(message@),
    }
}

impl TokenCodec {
    /// Issues a token on a reading of the clock.
    pub fn issue_on(&self, subject: &str, user_id: i32, clock: Option<u64>) -> (r: Result<
        String,
        IssueError,
    >)
        ensures
            issue_view(r) == issuance_on(self.key(), subject@, user_id as int, clock),
    {
        match clock {
            Some(now) => self.issue(subject, user_id, now),
            None => Err(IssueError::ClockUnavailable),
        }
    }

    /// Verifies a token on a reading of the clock.
    pub fn verify_on(&self, token: &str, clock: Option<u64>) -> (r: Result<
        Claims,
        VerificationFailure,
    >)
        ensures
            outcome_view(r) == verification_on(self.key(), token@, clock),
    {
        match clock {
            Some(now) => self.verify(token, now),
            None => Err(VerificationFailure::ClockUnavailable),
        }
    }

    /// Authenticates a request by its headers, on a reading of the clock.
    pub fn authenticate(&self, headers: &axum::http::HeaderMap, clock: Option<u64>) -> (r: Result<
        Claims,
        VerificationFailure,
    >)
        ensures
            outcome_view(r) == authentication(
                self.key(),
                header_text(*headers, authorization_name()),
                clock,
            ),
    {
        match credential_of(headers) {
            Some(token) => self.verify_on(token.as_str(), clock),
            None => Err(VerificationFailure::MissingCredential),
        }
    }
}

/// Tells a caller the outcome of an authentication.
pub fn report(outcome: Result<Claims, VerificationFailure>) -> (r: Result<Claims, String>)
    ensures
        report_view(r) == reported(outcome_view(outcome)),
{
    match outcome {
        Ok(claims) => Ok(claims),
        Err(failure) => Err(failure.message()),
    }
}

/// Issues a token for `(email, id)` under the process-wide secret, to expire
/// one lifetime after the instant that the clock shows.
pub fn create_token(email: &str, id: &i32) -> (r: Result<String, IssueError>)
    ensures
        exists|clock: Option<u64>|
            issue_view(r) == #[trigger] issuance_on(shared_key(), email@, *id as int, clock),
{
    shared_codec().issue_on(email, *id, unix_seconds())
}

/// Verifies a token under the process-wide secret, at the instant that the
/// clock shows.
pub fn decode_token(token: &str) -> (r: Result<Claims, VerificationFailure>)
    ensures
        exists|clock: Option<u64>|
            outcome_view(r) == #[trigger] verification_on(shared_key(), token@, clock),
{
    shared_codec().verify_on(token, unix_seconds())
}

/// Authenticates a request by its headers, under the process-wide secret and
/// at the instant that the clock shows: the claims of the token that the
/// request presents, or the message of the failure.
pub fn verify(headers: &axum::http::HeaderMap) -> (r: Result<Claims, String>)
    ensures
        exists|clock: Option<u64>|
            report_view(r) == reported(
                #[trigger] authentication(
                    shared_key(),
                    header_text(*headers, authorization_name()),
                    clock,
                ),
            ),
        presented(header_text(*headers, authorization_name())) is None ==> (r matches Err(message)
            && message@ == failure_message(VerificationFailure::MissingCredential)),
{
    report(shared_codec().authenticate(headers, unix_seconds()))
}

} // verus!
