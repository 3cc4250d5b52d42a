//! The system's clock.

use std::time::{Duration, SystemTime, SystemTimeError};

use vstd::prelude::*;

verus! {

/// A point in time as the system measures it. Nothing is known of one.
#[verifier::external_type_specification]
#[verifier::external_body]
pub struct ExSystemTime(SystemTime);

/// Why one point in time is not later than another. Nothing is known of one.
#[verifier::external_type_specification]
#[verifier::external_body]
pub struct ExSystemTimeError(SystemTimeError);

/// `SystemTime::now` reads the clock; what comes back differs from call to
/// call, so nothing is claimed of it.
pub assume_specification[ SystemTime::now ]() -> (now: SystemTime);

/// `SystemTime::duration_since` measures the time from `earlier` to `time`,
/// or fails where `earlier` is the later one. Nothing is claimed of it.
pub assume_specification[ SystemTime::duration_since ](time: &SystemTime, earlier: SystemTime) -> (r:
    Result<Duration, SystemTimeError>);

/// `Duration::as_secs` gives the whole seconds of a duration. Nothing is
/// claimed of them.
pub assume_specification[ Duration::as_secs ](duration: &Duration) -> (seconds: u64);

/// The start of 1970 in UTC, `std::time::UNIX_EPOCH`.
#[verifier::external_body]
fn unix_epoch() -> (epoch: SystemTime) {
    std::time::UNIX_EPOCH
}

/// `SystemTimeError`'s text.
#[verifier::external_body]
fn error_text(error: &SystemTimeError) -> (text: String) {
    error.to_string()
}

/// The whole seconds since the start of 1970, or the text of the error
/// where the clock stands before that.
pub fn unix_seconds() -> (r: Result<u64, String>) {
    let now = SystemTime::now();
    match now.duration_since(unix_epoch()) {
        Ok(duration) => Ok(duration.as_secs()),
        Err(e) => Err(error_text(&e)),
    }
}

} // verus!
