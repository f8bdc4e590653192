//! What the library knows of time: the length of a [`Duration`] in
//! nanoseconds, and how to ask the system clock.

use std::time::{Duration, SystemTime};
use vstd::prelude::*;

verus! {

/// The total length of a duration in nanoseconds, as `Duration::as_nanos` reports it.
pub uninterp spec fn duration_nanos(d: Duration) -> nat;

/// `Duration::from_millis` makes a duration of `millis` milliseconds.
pub assume_specification[ Duration::from_millis ](millis: u64) -> (d: Duration)
    ensures
        duration_nanos(d) == millis * 1_000_000,
;

/// `Duration::from_secs` makes a duration of `secs` whole seconds.
pub assume_specification[ Duration::from_secs ](secs: u64) -> (d: Duration)
    ensures
        duration_nanos(d) == secs * 1_000_000_000,
;

/// `Duration::is_zero` tells whether the duration spans no time at all.
pub assume_specification[ Duration::is_zero ](d: &Duration) -> (zero: bool)
    ensures
        zero == (duration_nanos(*d) == 0),
;

/// `Duration::as_nanos` reports the total length in nanoseconds.
pub assume_specification[ Duration::as_nanos ](d: &Duration) -> (nanos: u128)
    ensures
        nanos == duration_nanos(*d),
;

/// `Duration::as_millis` reports the number of whole milliseconds.
pub assume_specification[ Duration::as_millis ](d: &Duration) -> (millis: u128)
    ensures
        millis == duration_nanos(*d) / 1_000_000,
;

/// A point in time as the system clock measures it.
#[verifier::external_type_specification]
#[verifier::external_body]
pub struct ExSystemTime(SystemTime);

/// `SystemTime::now` reads the system clock. Nothing is known of what it
/// says.
pub assume_specification[ SystemTime::now ]() -> SystemTime
;

/// `SystemTime::duration_since` against the Unix epoch: the time that has
/// passed since then, taken as zero for a clock that stands before it.
#[verifier::external_body]
fn since_unix_epoch(time: SystemTime) -> Duration {
    time.duration_since(SystemTime::UNIX_EPOCH).unwrap_or_default()
}

/// The time that has passed since the Unix epoch, by the system clock.
pub fn unix_time() -> Duration {
    since_unix_epoch(SystemTime::now())
}

} // verus!
