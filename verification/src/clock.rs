//! Readings of the system clock, as time spans since the Unix epoch.

use vstd::prelude::*;
use crate::time_span::TimeSpan;

verus! {

#[verifier::external_type_specification]
#[verifier::external_body]
pub struct ExSystemTime(std::time::SystemTime);

/// Calls `std::time::SystemTime::now`. Nothing is claimed of the reading.
#[verifier::external_body]
fn system_now() -> std::time::SystemTime {
    std::time::SystemTime::now()
}

/// Calls `SystemTime::duration_since(UNIX_EPOCH)` and hands the span back as
/// whole seconds and sub-second nanoseconds, or `None` where the reading lies
/// before the epoch. Claimed: the nanoseconds are below one billion, as the
/// documentation of `Duration::subsec_nanos` promises.
#[verifier::external_body]
fn since_epoch(t: &std::time::SystemTime) -> (r: Option<(u64, u32)>)
    ensures
        r matches Some(p) ==> p.1 < 1_000_000_000,
{
    match t.duration_since(std::time::UNIX_EPOCH) {
        Ok(d) => Some((d.as_secs(), d.subsec_nanos())),
        Err(_) => None,
    }
}

/// The current time as a span since the Unix epoch, or `None` where the
/// system clock is set before the epoch. The reading depends on the clock
/// alone: two calls may give any two values.
pub fn now_since_epoch() -> Option<TimeSpan> {
    let t = system_now();
    match since_epoch(&t) {
        Some((secs, nanos)) => Some(TimeSpan::new(secs, nanos)),
        None => None,
    }
}

} // verus!
