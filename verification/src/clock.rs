//! Wall-clock timestamps for outgoing browser events.

use std::time::{Duration, SystemTime, SystemTimeError};

use vstd::prelude::*;

verus! {

#[verifier::external_type_specification]
#[verifier::external_body]
pub struct ExSystemTime(SystemTime);

#[verifier::external_type_specification]
#[verifier::external_body]
pub struct ExSystemTimeError(SystemTimeError);

/// Calls `SystemTime::now`. The current time is the machine's: nothing is
/// claimed of it.
#[verifier::external_body]
fn system_now() -> SystemTime {
    SystemTime::now()
}

/// Calls `SystemTime::duration_since` with `UNIX_EPOCH` as the earlier
/// instant. Nothing is claimed of the result: it depends on the clock reading.
#[verifier::external_body]
fn since_unix_epoch(t: &SystemTime) -> Result<Duration, SystemTimeError> {
    t.duration_since(std::time::UNIX_EPOCH)
}

/// Calls `Duration::as_secs`. The duration is opaque here, so nothing is
/// claimed of the whole seconds returned.
#[verifier::external_body]
fn whole_seconds(d: &Duration) -> u64 {
    d.as_secs()
}

/// The time stamp for a clock outcome: the whole seconds since the Unix
/// epoch when the clock reads at or after it (`Some`), and 0 when it reads
/// earlier (`None`).
pub fn seconds_or_zero(since_epoch: Option<u64>) -> (r: u64)
    ensures
        r == match since_epoch {
            Some(secs) => secs,
            None => 0,
        },
{
    match since_epoch {
        Some(secs) => secs,
        None => 0,
    }
}

/// Seconds since the Unix epoch by the machine's clock, or 0 when the clock
/// reads earlier than the epoch: the clock's outcome goes through
/// `seconds_or_zero`. The value depends on the clock alone.
pub fn now_ts() -> u64 {
    let now = system_now();
    let since_epoch = match since_unix_epoch(&now) {
        Ok(d) => Some(whole_seconds(&d)),
        Err(_) => None,
    };
    seconds_or_zero(since_epoch)
}

} // verus!
