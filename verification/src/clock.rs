//! The system clock, read as seconds and milliseconds since the Unix epoch.
use vstd::prelude::*;

use std::time::{Duration, SystemTime};

verus! {

/// `std::time::SystemTime`, carried through unopened.
#[verifier::external_type_specification]
#[verifier::external_body]
pub struct ExSystemTime(std::time::SystemTime);

/// A point in time: whole seconds since the Unix epoch and the milliseconds
/// past that second.
#[derive(Debug, Clone, Copy, PartialEq, Eq, Structural)]
pub struct Stamp {
    pub secs: u64,
    pub millis: u32,
}

/// Trusted: `SystemTime::now` (std) reads the system clock; nothing is
/// stated of the time it gives.
#[verifier::external_body]
fn system_now() -> SystemTime {
    SystemTime::now()
}

/// Trusted: `SystemTime::duration_since` (std), measured from the Unix
/// epoch; `None` stands for its error, given when the time lies before the
/// epoch. Nothing is stated of the duration, which depends on the clock.
#[verifier::external_body]
fn since_epoch(time: SystemTime) -> Option<Duration> {
    time.duration_since(std::time::UNIX_EPOCH).ok()
}

/// Trusted: `Duration::as_secs` (std), the whole seconds of a duration.
#[verifier::external_body]
fn whole_secs(d: &Duration) -> u64 {
    d.as_secs()
}

/// Trusted: `Duration::subsec_millis` (std), the milliseconds past the
/// whole seconds, which std documents as less than one thousand.
#[verifier::external_body]
fn subsec_millis(d: &Duration) -> (r: u32)
    ensures
        r < 1000,
{
    d.subsec_millis()
}

/// The current time, or the epoch itself when the clock reads before it.
pub fn now_stamp() -> (r: Stamp)
    ensures
        r.millis < 1000,
{
    match since_epoch(system_now()) {
        Some(d) => Stamp { secs: whole_secs(&d), millis: subsec_millis(&d) },
        None => Stamp { secs: 0, millis: 0 },
    }
}

/// Current time in whole seconds since the Unix epoch (zero before it).
pub fn now_secs() -> u64 {
    now_stamp().secs
}

} // verus!
