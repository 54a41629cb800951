//! The trusted boundary to the platform's monotonic clock.
//!
//! Nothing useful can be proved about when a clock is read, so the items here
//! carry no promises beyond their types: the limiter's contracts hold for
//! every reading the clock may hand back.

use vstd::prelude::*;

verus! {

#[verifier::external_type_specification]
#[verifier::external_body]
pub struct ExInstant(std::time::Instant);

/// Relies on `std::time::Instant::now`: a reading of the process's monotonic
/// clock, which never runs backward between two reads in the same process.
pub assume_specification[ std::time::Instant::now ]() -> std::time::Instant;

/// Relies on `std::time::Instant::saturating_duration_since`: the time that
/// passed from `earlier` to `instant`, and zero if `earlier` is the later of
/// the two; it never panics.
pub assume_specification[ std::time::Instant::saturating_duration_since ](
    instant: &std::time::Instant,
    earlier: std::time::Instant,
) -> std::time::Duration;

/// Relies on `std::time::Duration::as_nanos`: the total number of nanoseconds
/// contained in the duration.
pub assume_specification[ std::time::Duration::as_nanos ](
    duration: &std::time::Duration,
) -> u128;

} // verus!
