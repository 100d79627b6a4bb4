//! Wall-clock readings in milliseconds since the Unix epoch.
use vstd::prelude::*;

verus! {

#[verifier::external_type_specification]
#[verifier::external_body]
pub struct ExSystemTime(std::time::SystemTime);

/// `std::time::SystemTime::now`: the current wall-clock time. Nothing is
/// stated of the reading.
#[verifier::external_body]
fn system_time_now() -> std::time::SystemTime {
    std::time::SystemTime::now()
}

/// `SystemTime::duration_since(UNIX_EPOCH)`: the time elapsed since the
/// epoch, `None` when the reading lies before it. Nothing is stated of the
/// duration.
#[verifier::external_body]
fn since_unix_epoch(t: &std::time::SystemTime) -> Option<core::time::Duration> {
    t.duration_since(std::time::UNIX_EPOCH).ok()
}

/// `Duration::as_millis`: the whole milliseconds of a duration. Nothing is
/// stated of the count.
#[verifier::external_body]
fn duration_as_millis(d: &core::time::Duration) -> u128 {
    d.as_millis()
}

/// Milliseconds since the Unix epoch; zero for a clock set before it.
pub fn current_millis() -> u128 {
    let now = system_time_now();
    match since_unix_epoch(&now) {
        Some(d) => duration_as_millis(&d),
        None => 0,
    }
}

/// A millisecond reading as a signed timestamp, saturating at `i64::MAX`.
pub open spec fn spec_millis_timestamp(ms: u128) -> int {
    if ms <= i64::MAX as u128 {
        ms as int
    } else {
        i64::MAX as int
    }
}

pub fn millis_timestamp(ms: u128) -> (r: i64)
    ensures
        r as int == spec_millis_timestamp(ms),
{
    if ms <= 9223372036854775807u128 {
        ms as i64
    } else {
        9223372036854775807i64
    }
}

} // verus!
