//! Signed session tokens: issuing one, and verifying one that is presented.
//!
//! A token is the compact form `header.payload.signature`, signed with
//! HMAC-SHA256 under a shared secret. The `jsonwebtoken` crate writes and
//! reads that form. Verus does not see inside it: what the crate returns has
//! a name here (`jwt_encoding`, `jwt_decoding`, `hs256_signature`), and the
//! two functions declared `external_body` state what its source shows of
//! those results. Everything else is proved from that.
//!
//! The crate computes the signature with `ring`, which refuses an input of
//! 2^61 bytes or more by a panic. No address space holds a text that long,
//! so no contract here speaks of it.

use vstd::prelude::*;
use vstd::utf8::encode_utf8;
use crate::claims::{expiry_after, Claims, ClaimsView};
use crate::payload::{claims_in, json_members, read_claims, wire_fields, write_claims, Member};

verus! {

/// `jsonwebtoken::errors::Error`, declared so that a signature can hold it.
/// Nothing is known of its inside.
#[verifier::external_type_specification]
#[verifier::external_body]
pub struct ExJwtError(jsonwebtoken::errors::Error);

/// Why `jsonwebtoken` refused a token.
#[derive(Clone, Copy, Debug, PartialEq, Eq, Structural)]
pub enum Refusal {
    /// The signature is not the one that the secret gives.
    Signature,
    /// The text is no token: its form, its header or its payload cannot be
    /// read, or the payload lacks a numeric `exp`.
    Unreadable,
}

/// Why a presented credential was not accepted. A client is told none of
/// this; it is kept apart for diagnostics.
#[derive(Clone, Copy, Debug, PartialEq, Eq, Structural)]
pub enum VerificationFailure {
    /// No `Authorization` header, or one that is not `Bearer <token>`.
    MissingCredential,
    /// The token's signature does not match the secret.
    InvalidSignature,
    /// The token cannot be read, or its payload has not the shape of claims.
    MalformedPayload,
    /// The token was valid once and is past its expiry.
    Expired,
    /// The token could not be judged: the clock could not be read.
    ClockUnavailable,
}

/// The text that reports a failure.
pub open spec fn failure_message(failure: VerificationFailure) -> Seq<char> {
    match failure {
        VerificationFailure::MissingCredential => "Token not found in request header"@,
        VerificationFailure::InvalidSignature => "InvalidSignature"@,
        VerificationFailure::MalformedPayload => "InvalidToken"@,
        VerificationFailure::Expired => "ExpiredSignature"@,
        VerificationFailure::ClockUnavailable => "ClockUnavailable"@,
    }
}

impl VerificationFailure {
    /// The text that reports this failure.
    pub fn message(&self) -> (text: String)
        ensures
            text@ == failure_message(*self),
    {
        match self {
            VerificationFailure::MissingCredential => "Token not found in request header".to_owned(),
            VerificationFailure::InvalidSignature => "InvalidSignature".to_owned(),
            VerificationFailure::MalformedPayload => "InvalidToken".to_owned(),
            VerificationFailure::Expired => "ExpiredSignature".to_owned(),
            VerificationFailure::ClockUnavailable => "ClockUnavailable".to_owned(),
        }
    }
}

/// Why no token was issued.
#[derive(Clone, Copy, Debug, PartialEq, Eq, Structural)]
pub enum IssueError {
    /// The clock could not be read.
    ClockUnavailable,
    /// The expiry would not fit in the claims.
    ExpiryOutOfRange,
    /// The token could not be signed.
    Signing,
}

/// The token that `jsonwebtoken::encode` makes of a payload under a secret,
/// with the default header (HS256); `None` where it returns an error.
pub uninterp spec fn jwt_encoding(members: Map<Seq<char>, Member>, secret: Seq<u8>) -> Option<
    Seq<char>,
>;

/// What `jsonwebtoken::decode` makes of a token under a secret, for HS256 and
/// with the expiry left to the caller: the payload, or the refusal.
pub uninterp spec fn jwt_decoding(token: Seq<char>, secret: Seq<u8>) -> Result<
    Map<Seq<char>, Member>,
    Refusal,
>;

/// The signature text that `jsonwebtoken::crypto::sign` gives a signing
/// input under a secret, for HS256.
pub uninterp spec fn hs256_signature(signing_input: Seq<char>, secret: Seq<u8>) -> Seq<char>;

/// The number of `.` in `t`.
pub open spec fn dots(t: Seq<char>) -> nat
    decreases t.len(),
{
    if t.len() == 0 {
        0
    } else {
        dots(t.drop_last()) + if t.last() == '.' {
            1nat
        } else {
            0nat
        }
    }
}

/// The position of the last `.` in `t`, or -1.
pub open spec fn last_dot(t: Seq<char>) -> int
    decreases t.len(),
{
    if t.len() == 0 {
        -1
    } else if t.last() == '.' {
        t.len() - 1
    } else {
        last_dot(t.drop_last())
    }
}

/// What a token's signature is computed over: the text before the last `.`.
pub open spec fn signing_input(token: Seq<char>) -> Seq<char> {
    token.take(last_dot(token))
}

/// A token's signature segment: the text after the last `.`.
pub open spec fn signature_segment(token: Seq<char>) -> Seq<char> {
    token.skip(last_dot(token) + 1)
}

/// The token has three segments, and the third is the signature that the
/// secret gives the first two.
pub open spec fn carries_signature(token: Seq<char>, secret: Seq<u8>) -> bool {
    dots(token) == 2 && signature_segment(token) == hs256_signature(signing_input(token), secret)
}

/// A token read under a secret. It is what `jsonwebtoken::decode` returns,
/// which is a payload only for a token that carries its signature, and a
/// refusal of the signature only for one that does not.
pub open spec fn decoded(token: Seq<char>, secret: Seq<u8>) -> Result<
    Map<Seq<char>, Member>,
    Refusal,
> {
    match jwt_decoding(token, secret) {
        Ok(members) => if carries_signature(token, secret) {
            Ok(members)
        } else {
            Err(Refusal::Signature)
        },
        Err(Refusal::Signature) => if carries_signature(token, secret) {
            Err(Refusal::Unreadable)
        } else {
            Err(Refusal::Signature)
        },
        Err(Refusal::Unreadable) => Err(Refusal::Unreadable),
    }
}

/// A payload signed under a secret. It is what `jsonwebtoken::encode`
/// returns, which is a token that reads back as that payload.
pub open spec fn signed(members: Map<Seq<char>, Member>, secret: Seq<u8>) -> Option<Seq<char>> {
    match jwt_encoding(members, secret) {
        Some(token) => if decoded(token, secret) == Ok::<Map<Seq<char>, Member>, Refusal>(
            members,
        ) {
            Some(token)
        } else {
            None
        },
        None => None,
    }
}

/// `jsonwebtoken::encode` with the default header and an HMAC key made of
/// `secret`. The token depends on the members and the secret alone:
/// `serde_json` writes the members of a map in the order of their names. For
/// a payload that has the shape of claims, the token reads back, under the
/// same secret, as this payload: it is the two encoded parts and their HS256
/// signature, joined by `.`, and `decode` finds in it a numeric `exp` and no
/// claim that it would check.
#[verifier::external_body]
fn sign_payload(payload: &serde_json::Map<String, serde_json::Value>, secret: &[u8]) -> (r: Result<
    String,
    jsonwebtoken::errors::Error,
>)
    requires
        claims_in(json_members(*payload)) is Some,
    ensures
        match r {
            Ok(token) => {
                &&& jwt_encoding(json_members(*payload), secret@) == Some(token@)
                &&& jwt_decoding(token@, secret@) matches Ok(members) && members == json_members(*payload)
                &&& dots(token@) == 2
                &&& signature_segment(token@) == hs256_signature(signing_input(token@), secret@)
            },
            Err(_) => jwt_encoding(json_members(*payload), secret@) is None,
        },
{
    let key = jsonwebtoken::EncodingKey::from_secret(secret);
    jsonwebtoken::encode(&jsonwebtoken::Header::default(), payload, &key)
}

/// `jsonwebtoken::decode` for HS256 with an HMAC key made of `secret`, its
/// own test of the expiry switched off, so that it reads no clock. It
/// returns a payload only after it split the token at its last two `.`, read
/// the header, which holds no `.`, and found the third segment equal to the
/// signature of the first two; it returns `InvalidSignature`, which is
/// `Refusal::Signature` here, only where it found them unequal.
#[verifier::external_body]
fn open_token(token: &str, secret: &[u8]) -> (r: Result<
    serde_json::Map<String, serde_json::Value>,
    Refusal,
>)
    ensures
        match r {
            Ok(payload) => {
                &&& jwt_decoding(token@, secret@) matches Ok(members) && members == json_members(payload)
                &&& dots(token@) == 2
                &&& signature_segment(token@) == hs256_signature(signing_input(token@), secret@)
            },
            Err(refusal) => {
                &&& jwt_decoding(token@, secret@) matches Err(named) && named == refusal
                &&& refusal == Refusal::Signature ==> signature_segment(token@) != hs256_signature(
                    signing_input(token@),
                    secret@,
                )
            },
        },
{
    let mut validation = jsonwebtoken::Validation::new(jsonwebtoken::Algorithm::HS256);
    validation.validate_exp = false;
    let key = jsonwebtoken::DecodingKey::from_secret(secret);
    match jsonwebtoken::decode::<serde_json::Map<String, serde_json::Value>>(token, &key, &validation) {
        Ok(data) => Ok(data.claims),
        Err(e) => match e.kind() {
            jsonwebtoken::errors::ErrorKind::InvalidSignature => Err(Refusal::Signature),
            _ => Err(Refusal::Unreadable),
        },
    }
}

/// The outcome of issuing a token at `now`.
pub open spec fn issuance(secret: Seq<u8>, subject: Seq<char>, user_id: int, now: int) -> Result<
    Seq<char>,
    IssueError,
> {
    match expiry_after(now) {
        None => Err(IssueError::ExpiryOutOfRange),
        Some(exp) => match signed(wire_fields(ClaimsView { id: user_id, sub: subject, exp }), secret) {
            Some(token) => Ok(token),
            None => Err(IssueError::Signing),
        },
    }
}

/// What a decoded token is worth at `now`: the claims that its payload
/// stands for, unless it is past its expiry.
pub open spec fn judgement(decoding: Result<Map<Seq<char>, Member>, Refusal>, now: int) -> Result<
    ClaimsView,
    VerificationFailure,
> {
    match decoding {
        Err(Refusal::Signature) => Err(VerificationFailure::InvalidSignature),
        Err(Refusal::Unreadable) => Err(VerificationFailure::MalformedPayload),
        Ok(members) => match claims_in(members) {
            None => Err(VerificationFailure::MalformedPayload),
            Some(claims) => if claims.expired_at(now) {
                Err(VerificationFailure::Expired)
            } else {
                Ok(claims)
            },
        },
    }
}

/// The outcome of verifying a token at `now`.
pub open spec fn verification(secret: Seq<u8>, token: Seq<char>, now: int) -> Result<
    ClaimsView,
    VerificationFailure,
> {
    judgement(decoded(token, secret), now)
}

/// A decoding as mathematical values.
pub open spec fn decoding_view(
    decoding: Result<serde_json::Map<String, serde_json::Value>, Refusal>,
) -> Result<Map<Seq<char>, Member>, Refusal> {
    match decoding {
        Ok(payload) => Ok(json_members(payload)),
        Err(refusal) => Err(refusal),
    }
}

/// A verification's outcome as mathematical values.
pub open spec fn outcome_view(outcome: Result<Claims, VerificationFailure>) -> Result<
    ClaimsView,
    VerificationFailure,
> {
    match outcome {
        Ok(claims) => Ok(claims@),
        Err(failure) => Err(failure),
    }
}

/// An issue's outcome as mathematical values.
pub open spec fn issue_view(outcome: Result<String, IssueError>) -> Result<Seq<char>, IssueError> {
    match outcome {
        Ok(token) => Ok(token@),
        Err(e) => Err(e),
    }
}

/// Judges a decoded token at `now`.
pub fn judge(
    decoding: Result<serde_json::Map<String, serde_json::Value>, Refusal>,
    now: u64,
) -> (r: Result<Claims, VerificationFailure>)
    ensures
        outcome_view(r) == judgement(decoding_view(decoding), now as int),
{
    match decoding {
        Err(Refusal::Signature) => Err(VerificationFailure::InvalidSignature),
        Err(Refusal::Unreadable) => Err(VerificationFailure::MalformedPayload),
        Ok(payload) => match read_claims(&payload) {
            None => Err(VerificationFailure::MalformedPayload),
            Some(claims) => if claims.is_expired_at(now) {
                Err(VerificationFailure::Expired)
            } else {
                Ok(claims)
            },
        },
    }
}

/// Issues and verifies tokens under one secret.
#[derive(Clone)]
pub struct TokenCodec {
    secret: String,
}

impl TokenCodec {
    /// The secret's text.
    pub closed spec fn secret(&self) -> Seq<char> {
        self.secret@
    }

    /// The key: the secret's bytes.
    pub open spec fn key(&self) -> Seq<u8> {
        encode_utf8(self.secret())
    }

    /// A codec for `secret`.
    pub fn new(secret: &str) -> (codec: TokenCodec)
        ensures
            codec.secret() == secret@,
    {
        TokenCodec { secret: secret.to_owned() }
    }

    /// A second codec for the same secret.
    pub fn duplicate(&self) -> (codec: TokenCodec)
        ensures
            codec.secret() == self.secret(),
    {
        TokenCodec { secret: self.secret.clone() }
    }

    /// Issues a token for `(subject, user_id)` at the instant `now`, to
    /// expire one lifetime later.
    pub fn issue(&self, subject: &str, user_id: i32, now: u64) -> (r: Result<String, IssueError>)
        ensures
            issue_view(r) == issuance(self.key(), subject@, user_id as int, now as int),
    {
        let claims = match Claims::issued_at(subject, user_id, now) {
            Some(claims) => claims,
            None => {
                return Err(IssueError::ExpiryOutOfRange);
            },
        };
        let payload = write_claims(&claims);
        proof {
            crate::payload::law_payload_round_trip(claims@);
        }
        match sign_payload(&payload, self.secret.as_str().as_bytes()) {
            Ok(token) => Ok(token),
            Err(_) => Err(IssueError::Signing),
        }
    }

    /// Verifies a token at the instant `now`.
    pub fn verify(&self, token: &str, now: u64) -> (r: Result<Claims, VerificationFailure>)
        ensures
            outcome_view(r) == verification(self.key(), token@, now as int),
    {
        let decoding = open_token(token, self.secret.as_str().as_bytes());
        judge(decoding, now)
    }
}

/// The last `.` of a text is a `.`, and none follows it.
pub proof fn lemma_last_dot(t: Seq<char>)
    ensures
        -1 <= last_dot(t) < t.len(),
        last_dot(t) >= 0 ==> t[last_dot(t)] == '.',
        forall|j: int| last_dot(t) < j < t.len() ==> t[j] != '.',
        dots(t) > 0 ==> last_dot(t) >= 0,
    decreases t.len(),
{
    if t.len() > 0 && t.last() != '.' {
        lemma_last_dot(t.drop_last());
        assert forall|j: int| last_dot(t) < j < t.len() implies t[j] != '.' by {
            if j < t.len() - 1 {
                assert(t.drop_last()[j] == t[j]);
            }
        }
    }
}

/// A `.` written over another character is one `.` more.
proof fn lemma_dots_after_dot(t: Seq<char>, at: int)
    requires
        0 <= at < t.len(),
        t[at] != '.',
    ensures
        dots(t.update(at, '.')) == dots(t) + 1,
    decreases t.len(),
{
    let other = t.update(at, '.');
    if at == t.len() - 1 {
        assert(other.drop_last() =~= t.drop_last());
    } else {
        assert(other.drop_last() =~= t.drop_last().update(at, '.'));
        lemma_dots_after_dot(t.drop_last(), at);
    }
}

/// A character other than `.` written behind the last `.` leaves that `.`
/// the last.
proof fn lemma_last_dot_stays(t: Seq<char>, at: int, c: char)
    requires
        last_dot(t) < at < t.len(),
        c != '.',
    ensures
        last_dot(t.update(at, c)) == last_dot(t),
    decreases t.len(),
{
    let other = t.update(at, c);
    lemma_last_dot(t);
    if at == t.len() - 1 {
        assert(other.drop_last() =~= t.drop_last());
    } else {
        assert(other.drop_last() =~= t.drop_last().update(at, c));
        lemma_last_dot_stays(t.drop_last(), at, c);
    }
}

/// No change to the signature segment of a signed token goes unnoticed: a
/// token that carries its signature, with any one character behind its last
/// `.` replaced by another, is not verified, at any instant.
pub proof fn law_tampered_signature_fails(
    secret: Seq<u8>,
    token: Seq<char>,
    at: int,
    c: char,
    now: int,
)
    requires
        carries_signature(token, secret),
        0 <= at,
        last_dot(token) < at < token.len(),
        c != token[at],
    ensures
        !carries_signature(token.update(at, c), secret),
        verification(secret, token.update(at, c), now) is Err,
{
    let other = token.update(at, c);
    lemma_last_dot(token);
    if c == '.' {
        lemma_dots_after_dot(token, at);
    } else {
        lemma_last_dot_stays(token, at, c);
        assert(signing_input(other) =~= signing_input(token));
        assert(signature_segment(other)[at - last_dot(token) - 1] == c);
        assert(signature_segment(token)[at - last_dot(token) - 1] == token[at]);
    }
}

/// A token that was issued is verified, at every instant up to its expiry,
/// as the identity it was issued for, with an expiry one lifetime after the
/// instant of issue.
pub proof fn law_issued_token_verifies(
    secret: Seq<u8>,
    subject: Seq<char>,
    user_id: i32,
    issued_at: u64,
    token: Seq<char>,
    now: u64,
)
    requires
        issuance(secret, subject, user_id as int, issued_at as int) matches Ok(t) && t == token,
        now <= issued_at + crate::claims::TOKEN_LIFETIME_SECS,
    ensures
        verification(secret, token, now as int) matches Ok(claims) && claims == (ClaimsView {
            id: user_id as int,
            sub: subject,
            exp: (issued_at + crate::claims::TOKEN_LIFETIME_SECS) as nat,
        }),
{
    let claims = ClaimsView {
        id: user_id as int,
        sub: subject,
        exp: (issued_at + crate::claims::TOKEN_LIFETIME_SECS) as nat,
    };
    crate::payload::law_payload_round_trip(claims);
}

/// A token that was issued is refused as expired at every instant after its
/// expiry, though its signature is valid.
pub proof fn law_issued_token_expires(
    secret: Seq<u8>,
    subject: Seq<char>,
    user_id: i32,
    issued_at: u64,
    token: Seq<char>,
    now: u64,
)
    requires
        issuance(secret, subject, user_id as int, issued_at as int) matches Ok(t) && t == token,
        now > issued_at + crate::claims::TOKEN_LIFETIME_SECS,
    ensures
        carries_signature(token, secret),
        verification(secret, token, now as int) matches Err(failure) && failure
            == VerificationFailure::Expired,
{
    let claims = ClaimsView {
        id: user_id as int,
        sub: subject,
        exp: (issued_at + crate::claims::TOKEN_LIFETIME_SECS) as nat,
    };
    crate::payload::law_payload_round_trip(claims);
}

/// A token that carries its signature is not refused for its signature.
pub proof fn law_valid_signature_is_not_refused(secret: Seq<u8>, token: Seq<char>, now: int)
    requires
        carries_signature(token, secret),
    ensures
        !(verification(secret, token, now) matches Err(failure) && failure
            == VerificationFailure::InvalidSignature),
{
}

/// No token is verified after its expiry: claims that come out of a
/// verification have not expired.
pub proof fn law_verified_claims_are_current(secret: Seq<u8>, token: Seq<char>, now: int)
    ensures
        verification(secret, token, now) matches Ok(claims) ==> now <= claims.exp,
{
}

/// A token whose payload stands for claims that have expired is refused as
/// expired, though its signature is valid.
pub proof fn law_expired_token_fails(
    secret: Seq<u8>,
    token: Seq<char>,
    claims: ClaimsView,
    now: int,
)
    requires
        decoded(token, secret) matches Ok(members) && claims_in(members) == Some(claims),
        now > claims.exp,
    ensures
        carries_signature(token, secret),
        verification(secret, token, now) matches Err(failure) && failure
            == VerificationFailure::Expired,
{
}

/// Tokens issued for one identity at two instants are two texts.
pub proof fn law_tokens_differ_by_instant(
    secret: Seq<u8>,
    subject: Seq<char>,
    user_id: i32,
    first: u64,
    second: u64,
)
    requires
        first != second,
        issuance(secret, subject, user_id as int, first as int) is Ok,
        issuance(secret, subject, user_id as int, second as int) is Ok,
    ensures
        issuance(secret, subject, user_id as int, first as int) != issuance(
            secret,
            subject,
            user_id as int,
            second as int,
        ),
{
    let a = ClaimsView {
        id: user_id as int,
        sub: subject,
        exp: (first + crate::claims::TOKEN_LIFETIME_SECS) as nat,
    };
    let b = ClaimsView {
        id: user_id as int,
        sub: subject,
        exp: (second + crate::claims::TOKEN_LIFETIME_SECS) as nat,
    };
    crate::payload::law_payload_round_trip(a);
    crate::payload::law_payload_round_trip(b);
    if issuance(secret, subject, user_id as int, first as int) == issuance(
        secret,
        subject,
        user_id as int,
        second as int,
    ) {
        assert(claims_in(wire_fields(a)) == claims_in(wire_fields(b)));
    }
}

} // verus!
