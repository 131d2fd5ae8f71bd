//! The wall clock, read through `chrono`.

use vstd::prelude::*;

verus! {

/// Seconds since the Unix epoch: the system's time, turned into a
/// `chrono::DateTime<Utc>` by `From<SystemTime>` and read by `timestamp`.
/// A clock that stands before 1970 gives a negative number.
///
/// Trusted: the body is not verified. Nothing is claimed of the value: two
/// calls may differ, and the clock may run backwards. `chrono` panics only
/// where the clock stands outside the years that it can hold.
#[verifier::external_body]
pub(crate) fn unix_seconds() -> (now: i64) {
    chrono::DateTime::<chrono::Utc>::from(std::time::SystemTime::now()).timestamp()
}

/// Milliseconds since the Unix epoch: the system's time, turned into a
/// `chrono::DateTime<Utc>` by `From<SystemTime>` and read by
/// `timestamp_millis`.
///
/// Trusted: the body is not verified. Nothing is claimed of the value.
/// `chrono` panics only where the clock stands outside the years that it
/// can hold.
#[verifier::external_body]
pub(crate) fn unix_millis() -> (now: i64) {
    chrono::DateTime::<chrono::Utc>::from(std::time::SystemTime::now()).timestamp_millis()
}

} // verus!
