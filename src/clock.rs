//! The monotonic clock that timestamps are read from.
use vstd::prelude::*;
use core::time::Duration;
use std::time::Instant;
use crate::rate::Timestamp;

verus! {

#[verifier::external_type_specification]
#[verifier::external_body]
pub struct ExInstant(Instant);

/// Relies on `Instant::now`: an instant of the monotonic clock; nothing is known of it.
pub assume_specification[ Instant::now ]() -> Instant;

/// Relies on `Instant::elapsed`: the time since an instant; nothing is known of it.
pub assume_specification[ Instant::elapsed ](i: &Instant) -> Duration;

/// Relies on `Duration::as_nanos`: the whole nanoseconds of a duration, which Verus
/// cannot see.
pub assume_specification[ Duration::as_nanos ](d: &Duration) -> u128;

/// The whole nanoseconds of `d`, or the largest 64-bit count where they do not fit.
pub fn duration_nanos(d: &Duration) -> (r: u64) {
    let n = d.as_nanos();
    if n > u64::MAX as u128 {
        u64::MAX
    } else {
        n as u64
    }
}

/// A clock whose timestamps count nanoseconds from when it was made.
pub struct Clock {
    origin: Instant,
}

impl Clock {
    /// A clock whose origin is now.
    pub fn new() -> (r: Clock) {
        Clock { origin: Instant::now() }
    }

    /// The time since the origin.
    pub fn now(&self) -> (r: Timestamp) {
        let elapsed = self.origin.elapsed();
        Timestamp { nanos: duration_nanos(&elapsed) }
    }
}

} // verus!
