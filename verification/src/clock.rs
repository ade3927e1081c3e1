//! The wall clock, in whole seconds since the Unix epoch.

use std::time::{Duration, SystemTime, UNIX_EPOCH};
use vstd::prelude::*;

verus! {

/// `std::time::SystemTime`: a reading of the system clock. Nothing is
/// known of what it holds.
#[verifier::external_type_specification]
#[verifier::external_body]
pub struct ExSystemTime(SystemTime);

/// `SystemTime::now`: the reading of the system clock. Nothing is known of
/// it.
#[verifier::external_body]
fn system_now() -> SystemTime {
    SystemTime::now()
}

/// `SystemTime::duration_since` the Unix epoch: the time that has passed
/// since, or `None` where the clock stands before the epoch.
#[verifier::external_body]
fn since_epoch(instant: &SystemTime) -> Option<Duration> {
    instant.duration_since(UNIX_EPOCH).ok()
}

/// `Duration::as_secs`: the whole seconds of a span of time.
#[verifier::external_body]
fn whole_seconds(span: &Duration) -> u64 {
    span.as_secs()
}

/// The present time in whole seconds since the Unix epoch; 0 where the
/// system clock stands before the epoch.
pub(crate) fn unix_time() -> u64 {
    let instant = system_now();
    let elapsed = match since_epoch(&instant) {
        Some(span) => Some(whole_seconds(&span)),
        None => None,
    };
    epoch_seconds(elapsed)
}

/// The seconds since the Unix epoch that a reading of the clock stands for:
/// the whole seconds that have passed since the epoch, and 0 for a reading
/// that lies before it.
pub fn epoch_seconds(elapsed: Option<u64>) -> (r: u64)
    ensures
        r == (match elapsed {
            Some(seconds) => seconds,
            None => 0,
        }),
{
    match elapsed {
        Some(seconds) => seconds,
        None => 0,
    }
}

} // verus!
