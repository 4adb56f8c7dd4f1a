//! The wall clock, and the time between two readings of it.

use std::time::{Duration, SystemTime, SystemTimeError};
use vstd::prelude::*;

verus! {

/// `std::time::SystemTime`, carried through as an opaque value.
#[verifier::external_type_specification]
#[verifier::external_body]
pub struct ExSystemTime(SystemTime);

/// `std::time::SystemTimeError`, carried through as an opaque value.
#[verifier::external_type_specification]
#[verifier::external_body]
pub struct ExSystemTimeError(SystemTimeError);

/// Reads the system clock with `SystemTime::now`. Trusted; nothing is
/// claimed about the time read.
#[verifier::external_body]
fn system_time() -> (time: SystemTime) {
    SystemTime::now()
}

/// Measures `time` from the Unix epoch with `SystemTime::duration_since`.
/// Trusted; nothing is claimed about the outcome, which is an error when
/// `time` lies before the epoch.
#[verifier::external_body]
fn since_epoch(time: &SystemTime) -> (elapsed: Result<Duration, SystemTimeError>) {
    time.duration_since(std::time::UNIX_EPOCH)
}

/// The whole milliseconds in `duration`, by `Duration::as_millis`.
/// Trusted; nothing is claimed about the number.
#[verifier::external_body]
fn whole_millis(duration: &Duration) -> (millis: u128) {
    duration.as_millis()
}

/// The milliseconds from the Unix epoch to the present moment on the
/// system clock, or zero when the clock is set before the epoch.
pub fn now() -> (millis: u128) {
    let time = system_time();
    let reading = match since_epoch(&time) {
        Ok(elapsed) => Some(whole_millis(&elapsed)),
        Err(_) => None,
    };
    millis_or_zero(reading)
}

/// The timestamp for a reading of the clock: the milliseconds read, or
/// zero when there are none because the clock is set before the epoch.
pub fn millis_or_zero(reading: Option<u128>) -> (millis: u128)
    ensures
        millis == match reading {
            Some(read) => read,
            None => 0,
        },
{
    match reading {
        Some(read) => read,
        None => 0,
    }
}

/// The time from `start` to `now`; zero if the clock has not advanced.
pub open spec fn elapsed_ms(start: u128, now: u128) -> nat {
    if now >= start {
        (now - start) as nat
    } else {
        0
    }
}

/// The milliseconds from `start` to `now`; zero if `now` lies before
/// `start`.
pub fn elapsed_between(start: u128, now: u128) -> (elapsed: u128)
    ensures
        elapsed == elapsed_ms(start, now),
{
    if now >= start {
        now - start
    } else {
        0
    }
}

} // verus!
