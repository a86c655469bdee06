use auth_gate::claims::{Claims, TOKEN_LIFETIME_SECS};
use auth_gate::payload::{read_claims, write_claims};
use auth_gate::token::{judge, IssueError, Refusal, TokenCodec, VerificationFailure};
use jsonwebtoken::{Algorithm, EncodingKey, Header};
use serde_json::Value;

type Payload = serde_json::Map<String, Value>;

const ISSUED: u64 = 1_700_000_000;
const EXPIRY: u64 = 1_700_864_000;

fn claims_payload(id: i64, sub: &str, exp: u64) -> Payload {
    let mut payload = Payload::new();
    payload.insert("id".to_string(), Value::from(id));
    payload.insert("sub".to_string(), Value::from(sub));
    payload.insert("exp".to_string(), Value::from(exp));
    payload
}

fn signed_with(header: &Header, payload: &Payload, secret: &[u8]) -> String {
    jsonwebtoken::encode(header, payload, &EncodingKey::from_secret(secret)).unwrap()
}

fn signed(payload: &Payload) -> String {
    signed_with(&Header::default(), payload, b"secret")
}

fn codec() -> TokenCodec {
    TokenCodec::new("secret")
}

fn alice() -> Claims {
    Claims { id: 42, sub: "a@example.com".to_string(), exp: EXPIRY as usize }
}

#[test]
fn lifetime_is_ten_days() {
    assert_eq!(TOKEN_LIFETIME_SECS, 864_000);
}

#[test]
fn claims_expire_one_lifetime_after_issue() {
    assert_eq!(Claims::issued_at("a@example.com", 42, ISSUED), Some(alice()));
    assert_eq!(Claims::issued_at("", -1, 0).unwrap().exp, 864_000);
}

#[test]
fn claims_are_not_issued_past_the_range_of_the_expiry() {
    assert_eq!(Claims::issued_at("a@example.com", 42, u64::MAX), None);
    assert_eq!(Claims::issued_at("a@example.com", 42, u64::MAX - 863_999), None);
    let last = (usize::MAX as u64) - 864_000;
    assert_eq!(Claims::issued_at("a@example.com", 42, last).unwrap().exp, usize::MAX);
}

#[test]
fn claims_expire_after_their_last_second() {
    let claims = alice();
    assert!(!claims.is_expired_at(0));
    assert!(!claims.is_expired_at(EXPIRY - 1));
    assert!(!claims.is_expired_at(EXPIRY));
    assert!(claims.is_expired_at(EXPIRY + 1));
    assert!(claims.is_expired_at(u64::MAX));
}

#[test]
fn written_payload_holds_the_three_members() {
    let payload = write_claims(&alice());
    assert_eq!(payload.len(), 3);
    assert_eq!(payload.get("id"), Some(&Value::from(42)));
    assert_eq!(payload.get("sub"), Some(&Value::from("a@example.com")));
    assert_eq!(payload.get("exp"), Some(&Value::from(EXPIRY)));
    assert_eq!(payload, claims_payload(42, "a@example.com", EXPIRY));
}

#[test]
fn written_payload_keeps_a_negative_id() {
    let claims = Claims { id: i32::MIN, sub: String::new(), exp: 0 };
    let payload = write_claims(&claims);
    assert_eq!(payload.get("id"), Some(&Value::from(-2_147_483_648i64)));
    assert_eq!(payload.get("sub"), Some(&Value::from("")));
    assert_eq!(payload.get("exp"), Some(&Value::from(0u64)));
    assert_eq!(read_claims(&payload), Some(claims));
}

#[test]
fn written_payload_reads_back() {
    assert_eq!(read_claims(&write_claims(&alice())), Some(alice()));
    let odd = Claims { id: -7, sub: "quote \" back \\ line \n tab \t é 漢".to_string(), exp: 1 };
    assert_eq!(read_claims(&write_claims(&odd)), Some(odd));
}

#[test]
fn payload_with_a_member_more_is_no_claims() {
    let mut payload = claims_payload(42, "a@example.com", EXPIRY);
    payload.insert("role".to_string(), Value::from("admin"));
    assert_eq!(read_claims(&payload), None);
}

#[test]
fn payload_with_a_member_missing_is_no_claims() {
    for name in ["id", "sub", "exp"] {
        let mut payload = claims_payload(42, "a@example.com", EXPIRY);
        payload.remove(name);
        assert_eq!(read_claims(&payload), None);
        payload.insert("other".to_string(), Value::from(1));
        assert_eq!(read_claims(&payload), None);
    }
    assert_eq!(read_claims(&Payload::new()), None);
}

#[test]
fn payload_with_a_member_of_another_kind_is_no_claims() {
    let good = claims_payload(42, "a@example.com", EXPIRY);
    let others = [
        ("id", Value::from("42")),
        ("id", Value::from(42.5)),
        ("id", Value::Null),
        ("id", Value::from(true)),
        ("sub", Value::from(7)),
        ("sub", Value::Null),
        ("sub", Value::Array(vec![Value::from("a@example.com")])),
        ("exp", Value::from("1700864000")),
        ("exp", Value::from(1_700_864_000.5)),
        ("exp", Value::from(-5)),
        ("exp", Value::Object(Payload::new())),
    ];
    for (name, value) in others {
        let mut payload = good.clone();
        payload.insert(name.to_string(), value);
        assert_eq!(read_claims(&payload), None);
    }
}

#[test]
fn payload_with_an_id_out_of_range_is_no_claims() {
    let edge = claims_payload(2_147_483_647, "a@example.com", EXPIRY);
    assert_eq!(read_claims(&edge).unwrap().id, i32::MAX);
    let above = claims_payload(2_147_483_648, "a@example.com", EXPIRY);
    assert_eq!(read_claims(&above), None);
    let low = claims_payload(-2_147_483_648, "a@example.com", EXPIRY);
    assert_eq!(read_claims(&low).unwrap().id, i32::MIN);
    let below = claims_payload(-2_147_483_649, "a@example.com", EXPIRY);
    assert_eq!(read_claims(&below), None);
    let mut huge = claims_payload(0, "a@example.com", EXPIRY);
    huge.insert("id".to_string(), Value::from(u64::MAX));
    assert_eq!(read_claims(&huge), None);
}

#[test]
fn payload_reads_the_largest_expiry() {
    let payload = claims_payload(42, "a@example.com", usize::MAX as u64);
    assert_eq!(read_claims(&payload).unwrap().exp, usize::MAX);
}

#[test]
fn issued_token_verifies_as_its_claims() {
    let token = codec().issue("a@example.com", 42, ISSUED).unwrap();
    assert_eq!(codec().verify(&token, ISSUED), Ok(alice()));
    assert_eq!(codec().verify(&token, ISSUED + 1), Ok(alice()));
    assert_eq!(codec().verify(&token, 0), Ok(alice()));
}

#[test]
fn issued_token_is_the_signed_claims() {
    let token = codec().issue("a@example.com", 42, ISSUED).unwrap();
    assert_eq!(token, signed(&claims_payload(42, "a@example.com", EXPIRY)));
    assert_eq!(token.matches('.').count(), 2);
    let again = codec().issue("a@example.com", 42, ISSUED).unwrap();
    assert_eq!(token, again);
}

#[test]
fn issued_token_depends_on_each_input() {
    let token = codec().issue("a@example.com", 42, ISSUED).unwrap();
    assert_ne!(token, codec().issue("b@example.com", 42, ISSUED).unwrap());
    assert_ne!(token, codec().issue("a@example.com", 43, ISSUED).unwrap());
    assert_ne!(token, codec().issue("a@example.com", 42, ISSUED + 1).unwrap());
    assert_ne!(token, TokenCodec::new("other").issue("a@example.com", 42, ISSUED).unwrap());
}

#[test]
fn tokens_of_two_instants_are_both_valid() {
    let first = codec().issue("a@example.com", 42, ISSUED).unwrap();
    let second = codec().issue("a@example.com", 42, ISSUED + 60).unwrap();
    assert_ne!(first, second);
    assert_eq!(codec().verify(&first, ISSUED + 60).unwrap().exp as u64, EXPIRY);
    assert_eq!(codec().verify(&second, ISSUED + 60).unwrap().exp as u64, EXPIRY + 60);
}

#[test]
fn issue_fails_where_the_expiry_does_not_fit() {
    assert_eq!(codec().issue("a@example.com", 42, u64::MAX), Err(IssueError::ExpiryOutOfRange));
    assert_eq!(
        codec().issue("a@example.com", 42, u64::MAX - 863_999),
        Err(IssueError::ExpiryOutOfRange)
    );
}

#[test]
fn token_is_refused_past_ten_days() {
    let token = codec().issue("a@example.com", 42, ISSUED).unwrap();
    assert_eq!(codec().verify(&token, ISSUED + 864_000), Ok(alice()));
    assert_eq!(codec().verify(&token, ISSUED + 864_001), Err(VerificationFailure::Expired));
    assert_eq!(codec().verify(&token, u64::MAX), Err(VerificationFailure::Expired));
}

#[test]
fn expired_token_with_a_valid_signature_is_refused_as_expired() {
    let token = signed(&claims_payload(42, "a@example.com", 10));
    assert_eq!(codec().verify(&token, 10).unwrap().exp, 10);
    assert_eq!(codec().verify(&token, 11), Err(VerificationFailure::Expired));
    assert_eq!(codec().verify(&token, 71), Err(VerificationFailure::Expired));
}

#[test]
fn tampered_signature_is_refused() {
    let token = codec().issue("a@example.com", 42, ISSUED).unwrap();
    let cut = token.rfind('.').unwrap() + 1;
    let chars: Vec<char> = token.chars().collect();
    assert!(cut < chars.len());
    for at in cut..chars.len() {
        for other in ['A', 'b', '0', '-', '_', '.', '=', ' '] {
            if chars[at] == other {
                continue;
            }
            let mut changed = chars.clone();
            changed[at] = other;
            let changed: String = changed.into_iter().collect();
            assert!(codec().verify(&changed, ISSUED).is_err());
        }
    }
}

#[test]
fn changed_signature_is_an_invalid_signature() {
    let token = codec().issue("a@example.com", 42, ISSUED).unwrap();
    let last = token.chars().last().unwrap();
    let other = if last == 'A' { 'B' } else { 'A' };
    let mut changed = token.clone();
    changed.pop();
    changed.push(other);
    assert_eq!(codec().verify(&changed, ISSUED), Err(VerificationFailure::InvalidSignature));
    let mut longer = token.clone();
    longer.push('A');
    assert_eq!(codec().verify(&longer, ISSUED), Err(VerificationFailure::InvalidSignature));
    let mut shorter = token.clone();
    shorter.pop();
    assert_eq!(codec().verify(&shorter, ISSUED), Err(VerificationFailure::InvalidSignature));
}

#[test]
fn changed_payload_is_an_invalid_signature() {
    let token = codec().issue("a@example.com", 42, ISSUED).unwrap();
    let forged = signed(&claims_payload(1, "a@example.com", EXPIRY));
    let parts: Vec<&str> = token.split('.').collect();
    let other: Vec<&str> = forged.split('.').collect();
    let mixed = [parts[0], other[1], parts[2]].join(".");
    assert_eq!(codec().verify(&mixed, ISSUED), Err(VerificationFailure::InvalidSignature));
}

#[test]
fn token_of_another_secret_is_an_invalid_signature() {
    let token = TokenCodec::new("other").issue("a@example.com", 42, ISSUED).unwrap();
    assert_eq!(codec().verify(&token, ISSUED), Err(VerificationFailure::InvalidSignature));
    assert_eq!(TokenCodec::new("other").verify(&token, ISSUED), Ok(alice()));
    let own = codec().issue("a@example.com", 42, ISSUED).unwrap();
    assert_eq!(
        TokenCodec::new("").verify(&own, ISSUED),
        Err(VerificationFailure::InvalidSignature)
    );
}

#[test]
fn duplicate_codec_has_the_same_secret() {
    let token = TokenCodec::new("s3").issue("a@example.com", 42, ISSUED).unwrap();
    assert_eq!(TokenCodec::new("s3").duplicate().verify(&token, ISSUED), Ok(alice()));
    assert_eq!(TokenCodec::new("s3").duplicate().issue("a@example.com", 42, ISSUED), Ok(token));
}

#[test]
fn text_that_is_no_token_is_malformed() {
    for text in ["", "abc", "a.b", "a.b.c", "a.b.c.d", "..", ".", " ", "Bearer x"] {
        assert_eq!(codec().verify(text, ISSUED), Err(VerificationFailure::MalformedPayload));
    }
}

#[test]
fn token_with_surrounding_text_is_not_verified() {
    let token = codec().issue("a@example.com", 42, ISSUED).unwrap();
    assert!(codec().verify(&format!(" {}", token), ISSUED).is_err());
    assert!(codec().verify(&format!("{} ", token), ISSUED).is_err());
    assert!(codec().verify(&format!("x.{}", token), ISSUED).is_err());
    assert!(codec().verify(&format!("{}.x", token), ISSUED).is_err());
}

#[test]
fn token_of_another_algorithm_is_malformed() {
    let payload = claims_payload(42, "a@example.com", EXPIRY);
    let token = signed_with(&Header::new(Algorithm::HS384), &payload, b"secret");
    assert_eq!(codec().verify(&token, ISSUED), Err(VerificationFailure::MalformedPayload));
}

#[test]
fn signed_payload_with_a_member_more_is_malformed() {
    let mut payload = claims_payload(42, "a@example.com", EXPIRY);
    payload.insert("role".to_string(), Value::from("admin"));
    assert_eq!(codec().verify(&signed(&payload), ISSUED), Err(VerificationFailure::MalformedPayload));
}

#[test]
fn signed_payload_with_a_member_missing_is_malformed() {
    for name in ["id", "sub", "exp"] {
        let mut payload = claims_payload(42, "a@example.com", EXPIRY);
        payload.remove(name);
        assert_eq!(
            codec().verify(&signed(&payload), ISSUED),
            Err(VerificationFailure::MalformedPayload)
        );
    }
}

#[test]
fn signed_payload_with_a_member_of_another_kind_is_malformed() {
    let others = [
        ("id", Value::from("42")),
        ("id", Value::from(2_147_483_648i64)),
        ("sub", Value::from(7)),
        ("exp", Value::from("soon")),
        ("exp", Value::from(1_700_864_000.5)),
        ("exp", Value::from(-5)),
    ];
    for (name, value) in others {
        let mut payload = claims_payload(42, "a@example.com", EXPIRY);
        payload.insert(name.to_string(), value);
        assert_eq!(
            codec().verify(&signed(&payload), ISSUED),
            Err(VerificationFailure::MalformedPayload)
        );
    }
}

#[test]
fn signed_payload_that_is_no_object_is_malformed() {
    let key = EncodingKey::from_secret(b"secret");
    let list = Value::Array(vec![Value::from(1)]);
    let token = jsonwebtoken::encode(&Header::default(), &list, &key).unwrap();
    assert_eq!(codec().verify(&token, ISSUED), Err(VerificationFailure::MalformedPayload));
}

#[test]
fn judge_tells_the_failures_apart() {
    assert_eq!(judge(Err(Refusal::Signature), ISSUED), Err(VerificationFailure::InvalidSignature));
    assert_eq!(judge(Err(Refusal::Unreadable), ISSUED), Err(VerificationFailure::MalformedPayload));
    assert_eq!(judge(Ok(Payload::new()), ISSUED), Err(VerificationFailure::MalformedPayload));
    let payload = claims_payload(42, "a@example.com", EXPIRY);
    assert_eq!(judge(Ok(payload.clone()), EXPIRY), Ok(alice()));
    assert_eq!(judge(Ok(payload), EXPIRY + 1), Err(VerificationFailure::Expired));
}

#[test]
fn failures_have_their_messages() {
    assert_eq!(VerificationFailure::MissingCredential.message(), "Token not found in request header");
    assert_eq!(VerificationFailure::InvalidSignature.message(), "InvalidSignature");
    assert_eq!(VerificationFailure::MalformedPayload.message(), "InvalidToken");
    assert_eq!(VerificationFailure::Expired.message(), "ExpiredSignature");
    assert_eq!(VerificationFailure::ClockUnavailable.message(), "ClockUnavailable");
}

#[test]
fn issued_token_keeps_an_odd_subject() {
    let subjects = [
        "",
        " ",
        "quote \" back \\ slash /",
        "line\nfeed\r\ttab\u{0}nul\u{1f}",
        "é漢字🦀\u{2028}\u{feff}",
        "a.b.c",
        "{\"id\":1}",
    ];
    for subject in subjects {
        let token = codec().issue(subject, 42, ISSUED).unwrap();
        let claims = codec().verify(&token, ISSUED).unwrap();
        assert_eq!(claims.sub, subject);
        assert_eq!(claims.id, 42);
        assert_eq!(claims.exp as u64, EXPIRY);
        assert_eq!(token.matches('.').count(), 2);
        assert!(!token.contains(char::is_whitespace));
    }
    let long = "x".repeat(100_000);
    let token = codec().issue(&long, 42, ISSUED).unwrap();
    assert_eq!(codec().verify(&token, ISSUED).unwrap().sub, long);
}

#[test]
fn issued_token_keeps_every_id() {
    for id in [0, 1, -1, 42, i32::MAX, i32::MIN] {
        let token = codec().issue("a@example.com", id, ISSUED).unwrap();
        assert_eq!(codec().verify(&token, ISSUED).unwrap().id, id);
    }
}

#[test]
fn issued_token_keeps_the_largest_expiry() {
    let last = (usize::MAX as u64) - 864_000;
    let token = codec().issue("a@example.com", 42, last).unwrap();
    let claims = codec().verify(&token, usize::MAX as u64).unwrap();
    assert_eq!(claims.exp, usize::MAX);
    let first = codec().issue("a@example.com", 42, 0).unwrap();
    assert_eq!(codec().verify(&first, 864_000).unwrap().exp, 864_000);
    assert_eq!(codec().verify(&first, 864_001), Err(VerificationFailure::Expired));
}

#[test]
fn secret_is_taken_byte_for_byte() {
    for secret in ["", "secret", "Secret", "secret ", "pässwörd 漢"] {
        let token = TokenCodec::new(secret).issue("a@example.com", 42, ISSUED).unwrap();
        let payload = claims_payload(42, "a@example.com", EXPIRY);
        assert_eq!(token, signed_with(&Header::default(), &payload, secret.as_bytes()));
        assert_eq!(TokenCodec::new(secret).verify(&token, ISSUED), Ok(alice()));
    }
    let token = TokenCodec::new("secret").issue("a@example.com", 42, ISSUED).unwrap();
    for other in ["Secret", "secret ", "", "secre"] {
        assert_eq!(
            TokenCodec::new(other).verify(&token, ISSUED),
            Err(VerificationFailure::InvalidSignature)
        );
    }
}

#[test]
fn verification_ignores_the_crate_s_own_leeway() {
    let token = signed(&claims_payload(42, "a@example.com", 1_000));
    assert_eq!(codec().verify(&token, 1_000).unwrap().exp, 1_000);
    for late in [1_001, 1_030, 1_060, 1_061] {
        assert_eq!(codec().verify(&token, late), Err(VerificationFailure::Expired));
    }
}
