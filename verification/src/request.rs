//! What the guard reads of a request: its `Authorization` header.

use vstd::prelude::*;
use crate::bearer::{bearer_credential, bearer_token};

verus! {

/// `http::HeaderMap`, declared so that a signature can hold it. What it
/// holds, as far as text goes, is `header_text`.
#[verifier::external_type_specification]
#[verifier::external_body]
#[verifier::reject_recursive_types(T)]
pub struct ExHeaderMap<T>(axum::http::HeaderMap<T>);

/// `http::HeaderValue`, declared as the kind of value that such a map holds.
#[verifier::external_type_specification]
#[verifier::external_body]
pub struct ExHeaderValue(axum::http::HeaderValue);

/// The text of a header: of the first value under `name`, where there is one
/// and it is visible ASCII.
pub uninterp spec fn header_text(headers: axum::http::HeaderMap, name: Seq<char>) -> Option<
    Seq<char>,
>;

/// The name of the header that carries the credential.
pub open spec fn authorization_name() -> Seq<char> {
    "Authorization"@
}

/// `HeaderMap::get`, then `HeaderValue::to_str`: the first value under
/// `name` as text, `None` where the map has no such header or the value holds
/// a byte that is not visible ASCII.
#[verifier::external_body]
fn header_value(headers: &axum::http::HeaderMap, name: &str) -> (r: Option<String>)
    ensures
        match r {
            Some(text) => header_text(*headers, name@) == Some(text@),
            None => header_text(*headers, name@) is None,
        },
{
    headers.get(name).and_then(|value| value.to_str().ok()).map(|text| text.to_string())
}

/// The token that a request presents: its `Authorization` header is there
/// and has the form `Bearer <token>`.
pub open spec fn presented(authorization: Option<Seq<char>>) -> Option<Seq<char>> {
    match authorization {
        Some(value) => bearer_credential(value),
        None => None,
    }
}

/// A header value, where there is one, as mathematical values.
pub open spec fn value_view(authorization: Option<&str>) -> Option<Seq<char>> {
    match authorization {
        Some(value) => Some(value@),
        None => None,
    }
}

/// The token that a header value presents, if there is a value and it
/// presents one.
pub fn presented_token(authorization: Option<&str>) -> (r: Option<String>)
    ensures
        match r {
            Some(token) => presented(value_view(authorization)) == Some(token@),
            None => presented(value_view(authorization)) is None,
        },
{
    match authorization {
        Some(value) => match bearer_token(value) {
            Some(token) => Some(token.to_owned()),
            None => None,
        },
        None => None,
    }
}

/// The token that a request presents, if it presents one.
pub fn credential_of(headers: &axum::http::HeaderMap) -> (r: Option<String>)
    ensures
        match r {
            Some(token) => presented(header_text(*headers, authorization_name())) == Some(token@),
            None => presented(header_text(*headers, authorization_name())) is None,
        },
{
    match header_value(headers, "Authorization") {
        Some(value) => presented_token(Some(value.as_str())),
        None => presented_token(None),
    }
}

} // verus!
