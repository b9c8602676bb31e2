//! The system clock, as far as a generator needs it: the milliseconds that
//! have elapsed since an origin, guarded against a clock that stands still,
//! fails or runs backwards.

use std::time::{Duration, SystemTime, SystemTimeError};
use vstd::prelude::*;

verus! {

/// `std::time::SystemTime`, a point on the system clock. Nothing is known of
/// what a value holds.
#[verifier::external_type_specification]
#[verifier::external_body]
pub struct ExSystemTime(SystemTime);

/// `std::time::SystemTimeError`, which `SystemTime::duration_since` returns
/// when the earlier time is in fact the later one. Nothing is known of what
/// a value holds.
#[verifier::external_type_specification]
#[verifier::external_body]
pub struct ExSystemTimeError(SystemTimeError);

/// `SystemTime::now` reads the system clock. The reading may be any time
/// at all, also one before an earlier reading: nothing is claimed of it.
pub assume_specification[ SystemTime::now ]() -> (now: SystemTime);

/// `SystemTime::duration_since` gives the time elapsed from `earlier` to
/// `later`, or an error when `earlier` is the later of the two. Which of the
/// two comes back is not claimed here, nor how long the duration is.
pub assume_specification[ SystemTime::duration_since ](
    later: &SystemTime,
    earlier: SystemTime,
) -> (elapsed: Result<Duration, SystemTimeError>);

/// `Duration::as_millis` gives the whole milliseconds that a duration holds.
/// Nothing is claimed of the number.
pub assume_specification[ Duration::as_millis ](duration: &Duration) -> (millis: u128);

/// The duration to mint with, given what the clock read and the duration
/// used last: the reading where it is later than `prev_duration_ms`, else
/// `prev_duration_ms`. A clock that gave no reading counts as one that stood
/// still.
pub open spec fn guarded_duration_ms(elapsed_ms: Option<u64>, prev_duration_ms: u64) -> u64 {
    match elapsed_ms {
        Some(ms) if prev_duration_ms < ms => ms,
        _ => prev_duration_ms,
    }
}

/// Reads the system clock and returns the whole milliseconds elapsed since
/// `origin`, cut to their 64 low bits, or `None` where the clock reads a time
/// before `origin`.
pub(crate) fn elapsed_ms_since(origin: SystemTime) -> (elapsed_ms: Option<u64>) {
    match SystemTime::now().duration_since(origin) {
        Ok(duration) => Some(#[verifier::truncate] (duration.as_millis() as u64)),
        Err(_) => None,
    }
}

/// Guards a clock reading against time that did not advance: returns the
/// reading if it is later than `prev_duration_ms`, and `prev_duration_ms`
/// otherwise, so that the durations a generator mints with never decrease.
pub fn most_recent_duration_ms(elapsed_ms: Option<u64>, prev_duration_ms: u64) -> (duration_ms: u64)
    ensures
        duration_ms == guarded_duration_ms(elapsed_ms, prev_duration_ms),
        duration_ms >= prev_duration_ms,
        elapsed_ms matches Some(ms) ==> duration_ms >= ms,
{
    match elapsed_ms {
        Some(ms) => if prev_duration_ms < ms {
            ms
        } else {
            prev_duration_ms
        },
        None => prev_duration_ms,
    }
}

/// Reads the system clock and returns the milliseconds elapsed since
/// `origin_system_time`, guarded by `prev_duration_ms`. Whatever the clock
/// reads, the result is not below `prev_duration_ms`.
pub fn get_most_recent_duration_ms(origin_system_time: SystemTime, prev_duration_ms: u64) -> (duration_ms: u64)
    ensures
        duration_ms >= prev_duration_ms,
{
    most_recent_duration_ms(elapsed_ms_since(origin_system_time), prev_duration_ms)
}

} // verus!
