//! The wall clock, read as whole seconds since the Unix epoch.

use std::time::Duration;
use std::time::SystemTime;
use std::time::UNIX_EPOCH;
use vstd::prelude::*;

verus! {

/// `std::time::SystemTime`, carried opaquely.
#[verifier::external_type_specification]
#[verifier::external_body]
pub struct ExSystemTime(SystemTime);

/// `SystemTime::now`: the current time; nothing can be promised of it.
#[verifier::external_body]
fn system_now() -> SystemTime {
    SystemTime::now()
}

/// `SystemTime::duration_since(UNIX_EPOCH)`, with its error dropped: `None`
/// when the clock is set before the epoch. It reads the clock's value, so
/// nothing is stated of it.
#[verifier::external_body]
fn since_unix_epoch(t: &SystemTime) -> Option<Duration> {
    t.duration_since(UNIX_EPOCH).ok()
}

/// `Duration::as_secs`: the whole seconds of a duration that is carried
/// opaquely, so nothing is stated of them.
#[verifier::external_body]
fn whole_seconds(d: &Duration) -> u64 {
    d.as_secs()
}

/// Whole seconds since the Unix epoch, reinterpreted as `i64`, with `None`
/// (a clock before the epoch) read as zero.
pub open spec fn unix_seconds_spec(secs: Option<u64>) -> i64 {
    match secs {
        Some(s) => s as i64,
        None => 0,
    }
}

/// Whole seconds since the Unix epoch as the library stores them: reinterpreted
/// as `i64`, with `None` (a clock before the epoch) read as zero.
pub fn unix_seconds(secs: Option<u64>) -> (t: i64)
    ensures
        t == unix_seconds_spec(secs),
        secs matches Some(s) ==> (s <= i64::MAX ==> t == s),
{
    match secs {
        Some(s) => s as i64,
        None => 0,
    }
}

/// The current time, in whole seconds since the Unix epoch; zero when the
/// clock is set before the epoch. The clock's reading depends on the moment
/// of the call, so no contract states it: every reading is turned into the
/// result by [`unix_seconds`], whose contract is exact.
pub fn now_unix() -> i64 {
    let secs = match since_unix_epoch(&system_now()) {
        Some(d) => Some(whole_seconds(&d)),
        None => None,
    };
    unix_seconds(secs)
}

} // verus!
