//! The system clock.

use std::time::{Duration, SystemTime, UNIX_EPOCH};
use vstd::prelude::*;

verus! {

/// A moment of the system clock, `std::time::SystemTime`. Nothing of a
/// moment is visible here: it can only be handed on.
#[verifier::external_type_specification]
#[verifier::external_body]
pub struct ExSystemTime(SystemTime);

/// Reads the system clock with `SystemTime::now`. Nothing is claimed of
/// the moment: two readings may differ in either direction.
#[verifier::external_body]
fn system_time_now() -> (moment: SystemTime) {
    SystemTime::now()
}

/// The time from the Unix epoch to `moment`, by `SystemTime::duration_since`
/// with `UNIX_EPOCH`; `None` where the moment lies before the epoch.
#[verifier::external_body]
fn since_unix_epoch(moment: &SystemTime) -> (elapsed: Option<Duration>) {
    match moment.duration_since(UNIX_EPOCH) {
        Ok(elapsed) => Some(elapsed),
        Err(_) => None,
    }
}

/// The whole milliseconds of `elapsed`, by `Duration::as_millis`.
#[verifier::external_body]
fn whole_millis(elapsed: &Duration) -> (millis: u128) {
    elapsed.as_millis()
}

/// The milliseconds since the Unix epoch by the system clock; zero where
/// the clock stands before the epoch.
pub(crate) fn unix_time_millis() -> u128 {
    let now = system_time_now();
    let reading = match since_unix_epoch(&now) {
        Some(elapsed) => Some(whole_millis(&elapsed)),
        None => None,
    };
    millis_or_zero(reading)
}

/// What a reading of the clock counts as: its milliseconds, or zero where
/// the clock stood before the epoch and gave none.
fn millis_or_zero(reading: Option<u128>) -> (millis: u128)
    ensures
        millis == match reading {
            Some(read) => read,
            None => 0,
        },
{
    match reading {
        Some(read) => read,
        None => 0,
    }
}

} // verus!
