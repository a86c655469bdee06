//! The system clock, read in whole seconds.
//!
//! Verus knows nothing of what the clock shows: the functions that read it
//! state what holds of every reading.

use vstd::prelude::*;

verus! {

/// `std::time::SystemTime`, declared so that a reading of the clock can be
/// handed on. Nothing is known of its inside.
#[verifier::external_type_specification]
#[verifier::external_body]
pub struct ExSystemTime(std::time::SystemTime);

/// `std::time::SystemTimeError`, declared as the error of `duration_since`.
#[verifier::external_type_specification]
#[verifier::external_body]
pub struct ExSystemTimeError(std::time::SystemTimeError);

/// `SystemTime::now`: the instant that the system clock shows. Nothing is
/// known of it.
pub assume_specification[ std::time::SystemTime::now ]() -> std::time::SystemTime;

/// `SystemTime::duration_since`: the time from `earlier` to `t`, or an error
/// where `earlier` is the later of the two. Nothing is known of which.
pub assume_specification[ std::time::SystemTime::duration_since ](
    t: &std::time::SystemTime,
    earlier: std::time::SystemTime,
) -> Result<core::time::Duration, std::time::SystemTimeError>;

/// `Duration::as_secs`: the whole seconds of a duration. Nothing is known of
/// their number.
pub assume_specification[ core::time::Duration::as_secs ](d: &core::time::Duration) -> u64;

/// `std::time::UNIX_EPOCH`: the instant from which the clock counts.
#[verifier::external_body]
fn unix_epoch() -> std::time::SystemTime {
    std::time::UNIX_EPOCH
}

/// The instant that the system clock shows, as whole seconds since the Unix
/// epoch; `None` for a clock that is set before it.
pub(crate) fn unix_seconds() -> Option<u64> {
    match std::time::SystemTime::now().duration_since(unix_epoch()) {
        Ok(elapsed) => Some(elapsed.as_secs()),
        Err(_) => None,
    }
}

} // verus!
