//! The monotonic clock that timestamps are read from.

use std::time::{Duration, Instant};
use vstd::prelude::*;

verus! {

/// `std::time::Instant`: a reading of the monotonic clock, opaque.
#[verifier::external_type_specification]
#[verifier::external_body]
pub struct ExInstant(Instant);

/// `Instant::now`: the current reading of the monotonic clock. Nothing is
/// claimed of it.
pub assume_specification[ std::time::Instant::now ]() -> Instant
;

/// `Instant::elapsed`: the time that has passed since the instant. Nothing is
/// claimed of it.
pub assume_specification[ std::time::Instant::elapsed ](instant: &Instant) -> Duration
;

/// `Duration::as_nanos`: the duration in whole nanoseconds. Nothing is
/// claimed of it.
pub assume_specification[ std::time::Duration::as_nanos ](duration: &Duration) -> u128
;

/// A clock that counts nanoseconds from the moment it was made.
pub struct Clock {
    origin: Instant,
}

impl Clock {
    /// A clock that starts now.
    pub fn new() -> Self {
        Clock { origin: Instant::now() }
    }

    /// The nanoseconds since the clock was made; the largest `u64` where
    /// they exceed it.
    pub fn now(&self) -> u64 {
        saturate(self.origin.elapsed().as_nanos())
    }
}

/// The time from `start` to `end` in nanoseconds, zero where `end` is the
/// earlier one.
pub fn elapsed_between(start: u64, end: u64) -> (wait: u64)
    ensures
        wait == crate::guard::time_between(start, end),
{
    if end >= start {
        end - start
    } else {
        0
    }
}

/// A count of nanoseconds as a `u64`: itself where it fits, the largest
/// `u64` where it does not.
pub open spec fn saturated(nanos: u128) -> u64 {
    if nanos > u64::MAX {
        u64::MAX
    } else {
        nanos as u64
    }
}

/// Turns a count of nanoseconds into a `u64`, the largest one where the
/// count exceeds it.
pub fn saturate(nanos: u128) -> (fitted: u64)
    ensures
        fitted == saturated(nanos),
{
    if nanos > u64::MAX as u128 {
        u64::MAX
    } else {
        nanos as u64
    }
}

} // verus!
