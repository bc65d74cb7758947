//! Per-second rates from counters that only grow, sampled at irregular times.
use vstd::prelude::*;
use crate::store::KeyedStore;

verus! {

/// An instant, in nanoseconds since the origin of the clock that took it.
#[derive(Debug, Clone, Copy, PartialEq, Eq, Structural)]
pub struct Timestamp {
    pub nanos: u64,
}

impl Timestamp {
    /// The instant `nanos` nanoseconds after the origin.
    pub fn from_nanos(nanos: u64) -> (r: Timestamp)
        ensures
            r.nanos == nanos,
    {
        Timestamp { nanos }
    }

    /// The instant `secs` seconds after the origin.
    pub fn from_secs(secs: u32) -> (r: Timestamp)
        ensures
            r.nanos == secs * 1_000_000_000,
    {
        Timestamp { nanos: secs as u64 * 1_000_000_000 }
    }

    /// The instant `nanos` nanoseconds after this one, or the last one there is.
    pub fn plus_nanos(&self, nanos: u64) -> (r: Timestamp)
        ensures
            r.nanos == if self.nanos + nanos > u64::MAX {
                u64::MAX as int
            } else {
                self.nanos + nanos
            },
    {
        Timestamp { nanos: self.nanos.saturating_add(nanos) }
    }
}

/// A counter value and when it was read.
#[derive(Debug, Clone, Copy, PartialEq, Eq, Structural)]
pub struct Observation {
    pub value: u64,
    pub at: Timestamp,
}

/// How much a counter grew, and over how long.
#[derive(Debug, Clone, Copy, PartialEq, Eq, Structural)]
pub struct RateSample {
    /// The growth; zero where the counter went down.
    pub delta: u64,
    /// The time between the readings in nanoseconds; zero where time did not advance.
    pub elapsed_nanos: u64,
}

/// The change from `prev` to a reading of `value` at `at`: a decrease counts as no
/// growth, and time that does not advance counts as none.
pub open spec fn rate_between(prev: Observation, value: u64, at: Timestamp) -> RateSample {
    RateSample {
        delta: if value >= prev.value {
            (value - prev.value) as u64
        } else {
            0
        },
        elapsed_nanos: if at.nanos > prev.at.nanos {
            (at.nanos - prev.at.nanos) as u64
        } else {
            0
        },
    }
}

/// Growth per second, truncated; zero where no time passed.
pub open spec fn per_second_of(s: RateSample) -> int {
    if s.elapsed_nanos == 0 {
        0
    } else {
        s.delta * 1_000_000_000 / (s.elapsed_nanos as int)
    }
}

impl RateSample {
    /// Growth per second, truncated, and the largest count where it does not fit.
    pub fn per_second(&self) -> (r: u64)
        ensures
            r == if per_second_of(*self) > u64::MAX {
                u64::MAX as int
            } else {
                per_second_of(*self)
            },
    {
        if self.elapsed_nanos == 0 {
            0
        } else {
            let q: u128 = self.delta as u128 * 1_000_000_000 / self.elapsed_nanos as u128;
            assert(q <= self.delta * 1_000_000_000) by (nonlinear_arith)
                requires
                    q == self.delta * 1_000_000_000 / (self.elapsed_nanos as int),
                    self.elapsed_nanos >= 1,
            ;
            if q > u64::MAX as u128 {
                u64::MAX
            } else {
                q as u64
            }
        }
    }
}

/// The last reading of each metric, by key.
pub struct RateCalculator {
    previous: KeyedStore<Observation>,
}

impl RateCalculator {
    /// The last reading of each key.
    pub closed spec fn view(&self) -> Map<Seq<char>, Observation> {
        self.previous@
    }

    pub closed spec fn wf(&self) -> bool {
        self.previous.wf()
    }

    /// A calculator with no readings.
    pub fn new() -> (r: RateCalculator)
        ensures
            r.wf(),
            r@ == Map::<Seq<char>, Observation>::empty(),
    {
        RateCalculator { previous: KeyedStore::new() }
    }

    /// The change since the last reading of `key` to `current_value` at `current_time`;
    /// none where `key` has no reading.
    pub fn calculate_rate(&self, key: &str, current_value: u64, current_time: Timestamp) -> (r:
        Option<RateSample>)
        requires
            self.wf(),
        ensures
            r == if self@.contains_key(key@) {
                Some(rate_between(self@[key@], current_value, current_time))
            } else {
                None::<RateSample>
            },
    {
        match self.previous.get(key) {
            Some(prev) => {
                let delta = if current_value >= prev.value {
                    current_value - prev.value
                } else {
                    0
                };
                let elapsed_nanos = if current_time.nanos > prev.at.nanos {
                    current_time.nanos - prev.at.nanos
                } else {
                    0
                };
                Some(RateSample { delta, elapsed_nanos })
            },
            None => None,
        }
    }

    /// Records the reading `value` of `key` at `timestamp`.
    pub fn update(&mut self, key: &str, value: u64, timestamp: Timestamp)
        requires
            old(self).wf(),
        ensures
            final(self).wf(),
            final(self)@ == old(self)@.insert(key@, Observation { value, at: timestamp }),
    {
        self.previous.insert(String::from_str(key), Observation { value, at: timestamp });
    }

    /// The change since the last reading of `key`, then records the new one.
    pub fn calculate_and_update(&mut self, key: &str, current_value: u64, current_time: Timestamp) -> (r:
        Option<RateSample>)
        requires
            old(self).wf(),
        ensures
            final(self).wf(),
            r == if old(self)@.contains_key(key@) {
                Some(rate_between(old(self)@[key@], current_value, current_time))
            } else {
                None::<RateSample>
            },
            final(self)@ == old(self)@.insert(
                key@,
                Observation { value: current_value, at: current_time },
            ),
    {
        let r = self.calculate_rate(key, current_value, current_time);
        self.update(key, current_value, current_time);
        r
    }

    /// Forgets every reading.
    pub fn reset(&mut self)
        requires
            old(self).wf(),
        ensures
            final(self).wf(),
            final(self)@ == Map::<Seq<char>, Observation>::empty(),
    {
        self.previous.clear();
    }

    /// Whether `key` has a reading.
    pub fn has_previous_data(&self, key: &str) -> (r: bool)
        requires
            self.wf(),
        ensures
            r == self@.contains_key(key@),
    {
        self.previous.get(key).is_some()
    }

    /// The last reading of `key`, if it has one.
    pub fn previous(&self, key: &str) -> (r: Option<Observation>)
        requires
            self.wf(),
        ensures
            r == if self@.contains_key(key@) {
                Some(self@[key@])
            } else {
                None::<Observation>
            },
    {
        match self.previous.get(key) {
            Some(o) => Some(*o),
            None => None,
        }
    }
}

impl Default for RateCalculator {
    fn default() -> (r: RateCalculator)
        ensures
            r.wf(),
            r@ == Map::<Seq<char>, Observation>::empty(),
    {
        RateCalculator::new()
    }
}

} // verus!
