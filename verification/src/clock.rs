//! The wall clock, in milliseconds since the Unix epoch.
use std::time::Duration;
use std::time::SystemTime;
use vstd::prelude::*;

verus! {

#[verifier::external_type_specification]
#[verifier::external_body]
pub struct ExSystemTime(SystemTime);

/// Calls std's `SystemTime::now`. The result is the system clock's current
/// reading; nothing is stated of it.
#[verifier::external_body]
fn system_time_now() -> SystemTime {
    SystemTime::now()
}

/// Calls std's `SystemTime::duration_since` with `UNIX_EPOCH`: the time
/// elapsed since the epoch, `None` where `t` lies before it. Nothing is
/// stated of the result: `SystemTime` is opaque here.
#[verifier::external_body]
fn duration_since_unix_epoch(t: &SystemTime) -> Option<Duration> {
    match t.duration_since(std::time::UNIX_EPOCH) {
        Ok(d) => Some(d),
        Err(_) => None,
    }
}

/// Calls std's `Duration::as_millis`: the whole milliseconds of `d`. Nothing
/// is stated of the result: `Duration` is opaque here.
#[verifier::external_body]
fn duration_as_millis(d: &Duration) -> u128 {
    d.as_millis()
}

/// Milliseconds as a `u64`: a reading of `None` (a clock before the epoch)
/// gives 0, a reading beyond `u64::MAX` gives `u64::MAX`.
pub fn millis_or_zero(ms: Option<u128>) -> (r: u64)
    ensures
        r == match ms {
            Some(m) => if m > u64::MAX as u128 {
                u64::MAX
            } else {
                m as u64
            },
            None => 0u64,
        },
{
    match ms {
        Some(m) => {
            if m > u64::MAX as u128 {
                u64::MAX
            } else {
                m as u64
            }
        },
        None => 0,
    }
}

/// `v` is a reading of the clock: a value that a call of
/// `current_time_millis` gave.
pub open spec fn clock_reading(v: u64) -> bool {
    call_ensures(current_time_millis, (), v)
}

/// The current time in milliseconds since the Unix epoch (see
/// `millis_or_zero`). It depends on the clock: any `u64` may come back.
pub fn current_time_millis() -> u64 {
    let now = system_time_now();
    let ms = match duration_since_unix_epoch(&now) {
        Some(d) => Some(duration_as_millis(&d)),
        None => None,
    };
    millis_or_zero(ms)
}

} // verus!
