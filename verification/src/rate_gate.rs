//! The rate gate: a minimum interval between two requests to one service.
//!
//! A rate gate reads no clock and never sleeps. The caller hands it the time,
//! sleeps for as long as it says, and so never sends two requests closer
//! together than the interval.

use crate::text::within_u64;
use vstd::prelude::*;

verus! {

/// The interval that the query service asks for.
pub const QUERY_INTERVAL_MS: u64 = 1_000;

/// A gate for one remote service. Times are milliseconds on a clock that
/// does not run backwards.
#[derive(Debug, Clone, Copy, PartialEq, Eq)]
pub struct RateGate {
    /// The least time between the return of one acquire and the next.
    pub interval_ms: u64,
    /// When the latest acquire returned; `None` before the first.
    pub last_return_ms: Option<u64>,
}

impl RateGate {
    /// How long an acquire at `now_ms` has to wait: whatever is left of the
    /// interval since the latest acquire returned, and nothing before the
    /// first acquire.
    pub open spec fn wait_for(self, now_ms: u64) -> u64 {
        match self.last_return_ms {
            None => 0,
            Some(last) => {
                let elapsed = if now_ms >= last {
                    now_ms - last
                } else {
                    0
                };
                if elapsed < self.interval_ms {
                    (self.interval_ms - elapsed) as u64
                } else {
                    0
                }
            },
        }
    }

    /// When an acquire at `now_ms` returns, held within `u64`.
    pub open spec fn return_time(self, now_ms: u64) -> u64 {
        within_u64(now_ms + self.wait_for(now_ms))
    }

    /// This rate gate after an acquire at `now_ms`.
    pub open spec fn after_acquire(self, now_ms: u64) -> RateGate {
        RateGate { interval_ms: self.interval_ms, last_return_ms: Some(self.return_time(now_ms)) }
    }

    /// A gate that nobody has passed yet.
    pub fn new(interval_ms: u64) -> (gate: RateGate)
        ensures
            gate == (RateGate { interval_ms, last_return_ms: None }),
    {
        RateGate { interval_ms, last_return_ms: None }
    }

    /// How long an acquire at `now_ms` would have to wait.
    pub fn wait_needed(&self, now_ms: u64) -> (wait_ms: u64)
        ensures
            wait_ms == self.wait_for(now_ms),
            wait_ms <= self.interval_ms,
    {
        match self.last_return_ms {
            None => 0,
            Some(last) => {
                let elapsed = if now_ms >= last {
                    now_ms - last
                } else {
                    0
                };
                if elapsed < self.interval_ms {
                    self.interval_ms - elapsed
                } else {
                    0
                }
            },
        }
    }

    /// Passes at `now_ms`: says how long the caller has to sleep
    /// first, and records the end of that sleep as the time of return. It
    /// never fails; it only delays.
    pub fn acquire(&mut self, now_ms: u64) -> (wait_ms: u64)
        ensures
            wait_ms == old(self).wait_for(now_ms),
            *final(self) == old(self).after_acquire(now_ms),
    {
        let wait_ms = self.wait_needed(now_ms);
        let returned = match now_ms.checked_add(wait_ms) {
            Some(t) => t,
            None => u64::MAX,
        };
        self.last_return_ms = Some(returned);
        wait_ms
    }
}

/// An acquire never returns before a full interval has passed since the
/// acquire before it returned.
pub proof fn lemma_acquire_waits_out_the_interval(gate: RateGate, now_ms: u64)
    requires
        gate.last_return_ms matches Some(last) && last <= now_ms,
    ensures
        now_ms + gate.wait_for(now_ms) >= gate.last_return_ms.unwrap() + gate.interval_ms,
        gate.wait_for(now_ms) <= gate.interval_ms,
{
}

/// Two consecutive acquires on one gate return at least one interval apart,
/// provided that the caller sleeps as long as the first one says before it
/// comes back.
pub proof fn lemma_consecutive_acquires_are_paced(gate: RateGate, first_ms: u64, second_ms: u64)
    requires
        first_ms + gate.wait_for(first_ms) <= second_ms,
        second_ms + gate.interval_ms <= u64::MAX,
    ensures
        ({
            let between = gate.after_acquire(first_ms);
            &&& between.return_time(second_ms) - gate.return_time(first_ms) >= gate.interval_ms
            &&& between.after_acquire(second_ms).interval_ms == gate.interval_ms
        }),
{
}

} // verus!
