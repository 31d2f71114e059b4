//! The monotonic clock by which statuses are stamped and stability is
//! measured.

use std::time::{Duration, Instant};
use vstd::prelude::*;

verus! {

/// A point on the monotonic clock of `std::time`. Nothing is known of it.
#[verifier::external_type_specification]
#[verifier::external_body]
pub struct ExInstant(Instant);

/// `Instant::now` reads the monotonic clock. The reading depends on when the
/// call is made, so nothing is claimed of it.
pub assume_specification[ Instant::now ]() -> (reading: Instant);

/// `Instant::saturating_duration_since` gives the time from `earlier` to
/// `later`, or zero when `earlier` is the later one. It never panics. Nothing
/// is claimed of the duration.
pub assume_specification[ Instant::saturating_duration_since ](
    later: &Instant,
    earlier: Instant,
) -> (passed: Duration);

/// `Duration::as_nanos` gives a duration in whole nanoseconds. Nothing is
/// claimed of the number.
pub assume_specification[ Duration::as_nanos ](duration: &Duration) -> (nanos: u128);

/// A clock that counts nanoseconds from the moment it was started. Copies of
/// a clock count from the same moment, so their readings compare.
#[derive(Clone, Copy)]
pub struct Clock {
    origin: Instant,
}

/// `nanos` as a time of this library, the largest time standing for all that
/// do not fit.
pub open spec fn clamped(nanos: u128) -> u64 {
    if nanos > u64::MAX {
        u64::MAX
    } else {
        nanos as u64
    }
}

/// Brings a count of nanoseconds into the range of the library's times.
pub fn clamp_nanos(nanos: u128) -> (time: u64)
    ensures
        time == clamped(nanos),
{
    if nanos > u64::MAX as u128 {
        u64::MAX
    } else {
        nanos as u64
    }
}

impl Clock {
    /// Starts a clock at the present moment.
    pub fn start() -> Clock {
        Clock { origin: Instant::now() }
    }

    /// The time on this clock at the present moment.
    pub fn now(&self) -> u64 {
        let reading = Instant::now();
        let passed = reading.saturating_duration_since(self.origin);
        clamp_nanos(passed.as_nanos())
    }
}

} // verus!
