//! The identity that a session token carries.

use vstd::prelude::*;

verus! {

/// Seconds for which an issued token stays valid: ten days.
pub const TOKEN_LIFETIME_SECS: u64 = 10 * 24 * 60 * 60;

/// The payload of a session token.
#[derive(Debug, Clone, PartialEq, Eq)]
pub struct Claims {
    /// Stable identifier of the principal.
    pub id: i32,
    /// The account's email. Informational: no decision rests on it.
    pub sub: String,
    /// Unix seconds after which the token is no longer valid.
    pub exp: usize,
}

/// Claims as mathematical values.
pub struct ClaimsView {
    pub id: int,
    pub sub: Seq<char>,
    pub exp: nat,
}

impl ClaimsView {
    /// The values fit the fields of `Claims`.
    pub open spec fn representable(self) -> bool {
        i32::MIN <= self.id <= i32::MAX && self.exp <= usize::MAX
    }

    /// The token is past its expiry at the instant `now`.
    pub open spec fn expired_at(self, now: int) -> bool {
        now > self.exp
    }
}

impl View for Claims {
    type V = ClaimsView;

    open spec fn view(&self) -> ClaimsView {
        ClaimsView { id: self.id as int, sub: self.sub@, exp: self.exp as nat }
    }
}

/// The expiry of a token issued at `now`, where the machine can hold it.
pub open spec fn expiry_after(now: int) -> Option<nat> {
    if 0 <= now && now + TOKEN_LIFETIME_SECS <= usize::MAX {
        Some((now + TOKEN_LIFETIME_SECS) as nat)
    } else {
        None
    }
}

impl Claims {
    /// The claims of a token issued at `now`: the identity, and an expiry one
    /// lifetime later. `None` where that instant does not fit in `usize`.
    pub fn issued_at(subject: &str, user_id: i32, now: u64) -> (r: Option<Claims>)
        ensures
            match r {
                Some(c) => expiry_after(now as int) == Some(c@.exp) && c@.id == user_id
                    && c@.sub == subject@,
                None => expiry_after(now as int) is None,
            },
    {
        match now.checked_add(TOKEN_LIFETIME_SECS) {
            Some(exp) => {
                if exp <= usize::MAX as u64 {
                    Some(Claims { id: user_id, sub: subject.to_owned(), exp: exp as usize })
                } else {
                    None
                }
            },
            None => None,
        }
    }

    /// Whether the token is past its expiry at `now`. A token is still valid
    /// in the second named by `exp`.
    pub fn is_expired_at(&self, now: u64) -> (r: bool)
        ensures
            r == self@.expired_at(now as int),
    {
        now > self.exp as u64
    }
}

} // verus!
