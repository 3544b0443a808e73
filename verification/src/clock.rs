//! Reading the wall clock.

use std::time::{Duration, SystemTime, SystemTimeError};

use vstd::prelude::*;

verus! {

#[verifier::external_type_specification]
#[verifier::external_body]
pub struct ExSystemTime(SystemTime);

#[verifier::external_type_specification]
#[verifier::external_body]
pub struct ExSystemTimeError(SystemTimeError);

/// `SystemTime::now`: the current wall-clock time. Nothing is claimed of the
/// value, which depends on the machine's clock.
#[verifier::external_body]
fn system_now() -> SystemTime {
    SystemTime::now()
}

/// `SystemTime::duration_since(UNIX_EPOCH)`: how long after the Unix epoch `t`
/// lies, or an error when it lies before. Nothing is claimed of which comes
/// back.
#[verifier::external_body]
fn since_epoch(t: &SystemTime) -> Result<Duration, SystemTimeError> {
    t.duration_since(std::time::UNIX_EPOCH)
}

/// `Duration::as_millis`: the whole milliseconds of `d`. The duration is opaque
/// here, so nothing is claimed of the number.
#[verifier::external_body]
fn whole_millis(d: &Duration) -> u128 {
    d.as_millis()
}

/// `Duration::as_secs`: the whole seconds of `d`. The duration is opaque here,
/// so nothing is claimed of the number.
#[verifier::external_body]
fn whole_secs(d: &Duration) -> u64 {
    d.as_secs()
}

/// Milliseconds since the Unix epoch, truncated to 64 bits; 0 when the clock
/// reads a time before the epoch.
pub(crate) fn now_ms() -> u64 {
    match since_epoch(&system_now()) {
        Ok(d) => {
            let ms = whole_millis(&d);
            #[verifier::truncate]
            (ms as u64)
        },
        Err(_) => 0,
    }
}

/// Seconds since the Unix epoch, as a signed number; 0 when the clock reads a
/// time before the epoch.
pub(crate) fn now_secs() -> i64 {
    match since_epoch(&system_now()) {
        Ok(d) => {
            let s = whole_secs(&d);
            #[verifier::truncate]
            (s as i64)
        },
        Err(_) => 0,
    }
}

} // verus!
