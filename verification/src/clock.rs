//! The wall clock, read in milliseconds since the Unix epoch.

use vstd::prelude::*;
use std::time::{Duration, SystemTime, SystemTimeError, UNIX_EPOCH};

verus! {

/// `std::time::SystemTime`, a reading of the system clock.
#[verifier::external_type_specification]
#[verifier::external_body]
pub struct ExSystemTime(std::time::SystemTime);

/// `std::time::SystemTimeError`, what `duration_since` returns when the
/// second reading is later than the first.
#[verifier::external_type_specification]
#[verifier::external_body]
pub struct ExSystemTimeError(std::time::SystemTimeError);

/// `SystemTime::now`: the current reading of the system clock. Nothing is
/// claimed of it.
#[verifier::external_body]
fn system_now() -> (reading: SystemTime) {
    SystemTime::now()
}

/// `SystemTime::duration_since` with `UNIX_EPOCH` as the earlier reading.
/// Nothing is claimed of the result.
#[verifier::external_body]
fn since_epoch(reading: &SystemTime) -> (span: Result<Duration, SystemTimeError>) {
    reading.duration_since(UNIX_EPOCH)
}

/// `Duration::as_millis`: the whole milliseconds of a duration. Nothing is
/// claimed of the result.
#[verifier::external_body]
fn whole_millis(span: &Duration) -> (millis: u128) {
    span.as_millis()
}

/// Milliseconds since the Unix epoch, or `None` when the system clock stands
/// before the epoch.
pub fn now_ms() -> (now: Option<u128>) {
    let reading = system_now();
    match since_epoch(&reading) {
        Ok(span) => Some(whole_millis(&span)),
        Err(_) => None,
    }
}

} // verus!
