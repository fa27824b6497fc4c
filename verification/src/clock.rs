//! Wall-clock measurement of a phase: a monotonic start point and the
//! microseconds elapsed since it.

use vstd::prelude::*;

verus! {

/// std's monotonic time point, opaque to verification.
#[verifier::external_type_specification]
#[verifier::external_body]
pub struct ExInstant(std::time::Instant);

/// Starts a measurement.
///
/// Relies on `std::time::Instant::now`: a monotonic time point; its
/// value depends on the time of the call, so nothing is promised of it.
#[verifier::external_body]
pub fn clock_now() -> std::time::Instant {
    std::time::Instant::now()
}

/// Microseconds elapsed since `start`.
///
/// Relies on `std::time::Instant::elapsed` and
/// `std::time::Duration::as_micros`: the wall-clock time since `start`;
/// the result depends on the time of the call, so nothing is promised
/// of it.
#[verifier::external_body]
pub fn micros_since(start: &std::time::Instant) -> u64 {
    start.elapsed().as_micros() as u64
}

} // verus!
