//! Trusted boundary to the platform: the monotonic clock used for uptime
//! and timing, the wall clock used for timestamps, and the logical CPU
//! count. Every other function of the crate is verified against the
//! contracts stated here.

use vstd::prelude::*;

verus! {

#[verifier::external_type_specification]
#[verifier::external_body]
pub struct ExInstant(std::time::Instant);

/// Relies on std::time::Instant::now: an opaque reading of the monotonic
/// clock, usable only through the elapsed-time wrappers below.
#[verifier::external_body]
pub(crate) fn instant_now() -> (r: std::time::Instant) {
    std::time::Instant::now()
}

/// Relies on std::time::Instant::elapsed; Duration::as_millis converts the
/// result to whole milliseconds. The reading depends on the clock, so
/// nothing is promised of the value.
#[verifier::external_body]
pub(crate) fn elapsed_millis(start: &std::time::Instant) -> (r: u64) {
    start.elapsed().as_millis() as u64
}

/// Relies on std::time::Instant::elapsed; Duration::as_micros converts the
/// result to whole microseconds. The reading depends on the clock, so
/// nothing is promised of the value.
#[verifier::external_body]
pub(crate) fn elapsed_micros(start: &std::time::Instant) -> (r: u128) {
    start.elapsed().as_micros()
}

/// Relies on chrono::Utc::now for the current wall-clock time and on
/// chrono's DateTime::to_rfc3339 for its rendering. The value depends on
/// the clock, so nothing is promised of it.
#[verifier::external_body]
pub(crate) fn now_rfc3339() -> (r: String) {
    chrono::Utc::now().to_rfc3339()
}

/// Relies on num_cpus::get, which its documentation promises to be at
/// least 1.
#[verifier::external_body]
pub(crate) fn cpu_count() -> (r: u32)
    ensures
        r >= 1,
{
    num_cpus::get() as u32
}

} // verus!
