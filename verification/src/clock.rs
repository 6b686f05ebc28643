//! Wall-clock time since a starting point.

use vstd::prelude::*;

verus! {

/// `std::time::Instant`, a reading of the monotonic clock. Its content is
/// not looked into.
#[verifier::external_type_specification]
#[verifier::external_body]
pub struct ExStdInstant(std::time::Instant);

/// `std::time::Instant::now` reads the monotonic clock. Nothing is claimed of
/// the value it returns.
pub assume_specification[ std::time::Instant::now ]() -> std::time::Instant;

/// `std::time::Instant::elapsed` gives the time that has passed since the
/// instant was taken. Nothing is claimed of the value it returns.
pub assume_specification[ std::time::Instant::elapsed ](
    instant: &std::time::Instant,
) -> core::time::Duration;

/// `Duration::as_nanos` gives the length of a duration in whole nanoseconds.
/// Nothing is claimed of the value it returns.
pub assume_specification[ core::time::Duration::as_nanos ](duration: &core::time::Duration) -> u128;

/// A point in time from which elapsed time is measured.
pub struct Instant {
    start_time: std::time::Instant,
}

impl Instant {
    /// The present moment.
    pub fn now() -> Instant {
        Instant { start_time: std::time::Instant::now() }
    }

    /// The time that has passed since this instant.
    pub fn elapsed(&self) -> core::time::Duration {
        self.start_time.elapsed()
    }

    /// The time that has passed since this instant, in nanoseconds.
    pub fn elapsed_nanos(&self) -> u128 {
        let passed = self.elapsed();
        passed.as_nanos()
    }
}

} // verus!
