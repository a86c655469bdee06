//! How claims are laid out in a token's JSON payload.
//!
//! A payload is a JSON object, held as a `serde_json::Map`. Verus sees such a
//! map through `json_members` alone; the functions declared `external_body`
//! below are the only places that touch the map itself, and what they state
//! of it is taken from serde_json's documentation, not proved.

use vstd::prelude::*;
use vstd::set_lib::lemma_subset_equality;
use crate::claims::{Claims, ClaimsView};

verus! {

/// `serde_json::Map`, declared so that a signature can hold it. What it
/// holds is `json_members`.
#[verifier::external_type_specification]
#[verifier::external_body]
#[verifier::reject_recursive_types(K)]
#[verifier::reject_recursive_types(V)]
pub struct ExJsonMap<K, V>(serde_json::Map<K, V>);

/// `serde_json::Value`, declared as the kind of value that such a map holds.
#[verifier::external_type_specification]
#[verifier::external_body]
pub struct ExJsonValue(serde_json::Value);

/// One member of a JSON object, as far as the claims need to tell values apart.
pub enum Member {
    /// A number that `serde_json` holds as an integer.
    Int(int),
    /// A string.
    Text(Seq<char>),
    /// Anything else: null, a boolean, a fraction, an array, an object.
    Other,
}

/// The members of a JSON object, by name.
pub uninterp spec fn json_members(payload: serde_json::Map<String, serde_json::Value>) -> Map<
    Seq<char>,
    Member,
>;

/// The integer under `key`, where there is one and an `i64` holds it.
pub open spec fn signed_member(members: Map<Seq<char>, Member>, key: Seq<char>) -> Option<i64> {
    if members.dom().contains(key) {
        match members[key] {
            Member::Int(v) => if i64::MIN <= v <= i64::MAX {
                Some(v as i64)
            } else {
                None
            },
            _ => None,
        }
    } else {
        None
    }
}

/// The integer under `key`, where there is one and a `u64` holds it.
pub open spec fn unsigned_member(members: Map<Seq<char>, Member>, key: Seq<char>) -> Option<u64> {
    if members.dom().contains(key) {
        match members[key] {
            Member::Int(v) => if 0 <= v <= u64::MAX {
                Some(v as u64)
            } else {
                None
            },
            _ => None,
        }
    } else {
        None
    }
}

/// The string under `key`, where there is one.
pub open spec fn text_member(members: Map<Seq<char>, Member>, key: Seq<char>) -> Option<
    Seq<char>,
> {
    if members.dom().contains(key) {
        match members[key] {
            Member::Text(s) => Some(s),
            _ => None,
        }
    } else {
        None
    }
}

/// The object has `n` members.
pub open spec fn has_members(members: Map<Seq<char>, Member>, n: nat) -> bool {
    members.dom().finite() && members.dom().len() == n
}

/// `serde_json::Map::new`: an object without members.
#[verifier::external_body]
fn empty_object() -> (payload: serde_json::Map<String, serde_json::Value>)
    ensures
        json_members(payload) == (Map::<Seq<char>, Member>::empty()),
{
    serde_json::Map::new()
}

/// `serde_json::Map::insert` of a signed integer: the object then holds it
/// under `key`, in place of what stood there, and its other members stay.
#[verifier::external_body]
fn put_signed(payload: &mut serde_json::Map<String, serde_json::Value>, key: &str, value: i64)
    ensures
        json_members(*final(payload)) == json_members(*old(payload)).insert(
            key@,
            Member::Int(value as int),
        ),
{
    payload.insert(key.to_string(), serde_json::Value::from(value));
}

/// `serde_json::Map::insert` of an unsigned integer, as `put_signed`.
#[verifier::external_body]
fn put_unsigned(payload: &mut serde_json::Map<String, serde_json::Value>, key: &str, value: u64)
    ensures
        json_members(*final(payload)) == json_members(*old(payload)).insert(
            key@,
            Member::Int(value as int),
        ),
{
    payload.insert(key.to_string(), serde_json::Value::from(value));
}

/// `serde_json::Map::insert` of a string, as `put_signed`.
#[verifier::external_body]
fn put_text(payload: &mut serde_json::Map<String, serde_json::Value>, key: &str, value: &str)
    ensures
        json_members(*final(payload)) == json_members(*old(payload)).insert(
            key@,
            Member::Text(value@),
        ),
{
    payload.insert(key.to_string(), serde_json::Value::from(value));
}

/// `serde_json::Map::len`: the number of members, of which there are
/// finitely many.
#[verifier::external_body]
fn member_count(payload: &serde_json::Map<String, serde_json::Value>) -> (n: usize)
    ensures
        has_members(json_members(*payload), n as nat),
{
    payload.len()
}

/// `serde_json::Map::get`, then `Value::as_i64`: `Some` for a member that is
/// an integer in the range of `i64`, `None` for any other and for no member.
#[verifier::external_body]
fn get_signed(payload: &serde_json::Map<String, serde_json::Value>, key: &str) -> (r: Option<i64>)
    ensures
        r == signed_member(json_members(*payload), key@),
{
    payload.get(key).and_then(|member| member.as_i64())
}

/// `serde_json::Map::get`, then `Value::as_u64`: `Some` for a member that is
/// an integer in the range of `u64`, `None` for any other and for no member.
#[verifier::external_body]
fn get_unsigned(payload: &serde_json::Map<String, serde_json::Value>, key: &str) -> (r: Option<
    u64,
>)
    ensures
        r == unsigned_member(json_members(*payload), key@),
{
    payload.get(key).and_then(|member| member.as_u64())
}

/// `serde_json::Map::get`, then `Value::as_str`: `Some` for a member that is a
/// string, with its text, `None` for any other and for no member.
#[verifier::external_body]
fn get_text(payload: &serde_json::Map<String, serde_json::Value>, key: &str) -> (r: Option<String>)
    ensures
        match r {
            Some(text) => text_member(json_members(*payload), key@) == Some(text@),
            None => text_member(json_members(*payload), key@) is None,
        },
{
    payload.get(key).and_then(|member| member.as_str()).map(|text| text.to_string())
}

/// The names of the three members of a claims payload.
pub open spec fn claim_names() -> Set<Seq<char>> {
    set!["id"@, "sub"@, "exp"@]
}

/// The payload that stands for `claims`: exactly `id`, `sub` and `exp`.
pub open spec fn wire_fields(claims: ClaimsView) -> Map<Seq<char>, Member> {
    Map::<Seq<char>, Member>::empty().insert("id"@, Member::Int(claims.id)).insert(
        "sub"@,
        Member::Text(claims.sub),
    ).insert("exp"@, Member::Int(claims.exp as int))
}

/// The claims that a payload stands for. It stands for claims only if it
/// has the three members and nothing else, each of its kind and within the
/// range of its field.
pub open spec fn claims_in(members: Map<Seq<char>, Member>) -> Option<ClaimsView> {
    if members.dom() == claim_names() {
        match (members["id"@], members["sub"@], members["exp"@]) {
            (Member::Int(id), Member::Text(sub), Member::Int(exp)) => {
                let claims = ClaimsView { id, sub, exp: exp as nat };
                if exp >= 0 && claims.representable() {
                    Some(claims)
                } else {
                    None
                }
            },
            _ => None,
        }
    } else {
        None
    }
}

/// The three member names differ, so a claims payload has three members.
pub proof fn lemma_claim_names()
    ensures
        "id"@ != "sub"@,
        "id"@ != "exp"@,
        "sub"@ != "exp"@,
        claim_names().finite(),
        claim_names().len() == 3,
{
    reveal_strlit("id");
    reveal_strlit("sub");
    reveal_strlit("exp");
    assert("id"@.len() == 2 && "sub"@.len() == 3 && "exp"@.len() == 3);
    assert("sub"@[0] == 's');
    assert("exp"@[0] == 'e');
    let one = Set::<Seq<char>>::empty().insert("id"@);
    let two = one.insert("sub"@);
    assert(claim_names() =~= two.insert("exp"@));
}

/// Reading back what was written gives the same claims.
pub proof fn law_payload_round_trip(claims: ClaimsView)
    requires
        claims.representable(),
    ensures
        claims_in(wire_fields(claims)) == Some(claims),
{
    lemma_claim_names();
    assert(wire_fields(claims).dom() =~= claim_names());
}

/// A payload stands for at most one set of claims, and those claims are
/// written as that payload and no other.
pub proof fn law_payload_is_determined(members: Map<Seq<char>, Member>, claims: ClaimsView)
    requires
        claims_in(members) == Some(claims),
    ensures
        members == wire_fields(claims),
        claims.representable(),
{
    lemma_claim_names();
    assert(members =~= wire_fields(claims));
}

/// Lays `claims` out as a payload.
pub fn write_claims(claims: &Claims) -> (payload: serde_json::Map<String, serde_json::Value>)
    ensures
        json_members(payload) == wire_fields(claims@),
{
    let mut payload = empty_object();
    put_signed(&mut payload, "id", claims.id as i64);
    put_text(&mut payload, "sub", claims.sub.as_str());
    put_unsigned(&mut payload, "exp", claims.exp as u64);
    payload
}

/// Reads claims out of a payload: `None` for a payload with a member
/// missing, of another kind or out of range, and for one with a member more.
pub fn read_claims(payload: &serde_json::Map<String, serde_json::Value>) -> (r: Option<Claims>)
    ensures
        match r {
            Some(claims) => claims_in(json_members(*payload)) == Some(claims@),
            None => claims_in(json_members(*payload)) is None,
        },
{
    let ghost members = json_members(*payload);
    proof {
        lemma_claim_names();
    }
    if member_count(payload) != 3 {
        return None;
    }
    let id: i64 = match get_signed(payload, "id") {
        Some(v) => v,
        None => {
            return None;
        },
    };
    let sub = match get_text(payload, "sub") {
        Some(v) => v,
        None => {
            return None;
        },
    };
    let exp: u64 = match get_unsigned(payload, "exp") {
        Some(v) => v,
        None => {
            return None;
        },
    };
    proof {
        lemma_subset_equality(claim_names(), members.dom());
    }
    if id < i32::MIN as i64 || id > i32::MAX as i64 || exp > usize::MAX as u64 {
        return None;
    }
    Some(Claims { id: id as i32, sub, exp: exp as usize })
}

} // verus!
