//! Monotonic time readings, used only for instrumentation (timing statistics).
//!
//! The readings are machine-dependent, so nothing is promised about the
//! values; every contract that involves them holds for every reading.

use vstd::prelude::*;

verus! {

#[verifier::external_type_specification]
#[verifier::external_body]
pub struct ExInstant(std::time::Instant);

/// Relies on `std::time::Instant::now`: an opaque monotonic time point.
#[verifier::external_body]
pub fn instant_now() -> std::time::Instant {
    std::time::Instant::now()
}

/// Relies on `std::time::Instant::elapsed`: the wall-clock milliseconds since
/// `start` was taken, clamped to `u64`. The reading depends on the machine,
/// so no value is promised.
#[verifier::external_body]
pub fn millis_since(start: &std::time::Instant) -> u64 {
    let ms: u128 = start.elapsed().as_millis();
    if ms > u64::MAX as u128 {
        u64::MAX
    } else {
        ms as u64
    }
}

} // verus!
