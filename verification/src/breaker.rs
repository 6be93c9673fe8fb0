//! Circuit breaker that guards every operation on the persistent store.
//!
//! Time is a count of milliseconds on a monotonic clock that the caller reads.

use crate::clock::{elapsed, elapsed_ms};
use vstd::prelude::*;

verus! {

/// Consecutive failures that open the breaker.
pub const FAILURE_THRESHOLD: u32 = 5;

/// Quiet time after the last failure, in milliseconds, that must be exceeded
/// before an open breaker closes again.
pub const RECOVERY_MS: u64 = 30_000;

/// What a call found when it reached the breaker.
#[derive(Clone, Copy, Debug, PartialEq, Eq, Structural)]
pub enum BreakerState {
    /// The breaker was closed.
    Closed,
    /// The breaker was open and stays open; the call is attempted all the same.
    Open,
    /// The breaker was open and has just closed itself.
    Recovered,
}

#[derive(Clone, Copy, Debug, PartialEq, Eq, Structural)]
pub struct CircuitBreaker {
    /// Failures since the last success or recovery.
    pub failure_count: u32,
    pub is_open: bool,
    /// Time of the last failure, if one is remembered.
    pub last_failure: Option<u64>,
}

impl CircuitBreaker {
    /// Whether an open breaker closes itself when a call arrives at `now`.
    pub open spec fn recovers_at(self, now: u64) -> bool {
        self.is_open && self.last_failure is Some && elapsed_ms(now, self.last_failure->0)
            > RECOVERY_MS
    }

    /// The breaker after a call has arrived at `now`.
    pub open spec fn after_begin(self, now: u64) -> CircuitBreaker {
        if self.recovers_at(now) {
            CircuitBreaker { failure_count: 0, is_open: false, last_failure: None }
        } else {
            self
        }
    }

    /// What the arriving call is told.
    pub open spec fn state_at(self, now: u64) -> BreakerState {
        if !self.is_open {
            BreakerState::Closed
        } else if self.recovers_at(now) {
            BreakerState::Recovered
        } else {
            BreakerState::Open
        }
    }

    /// The counter after one more failure; it wraps at the end of its range.
    pub open spec fn next_count(self) -> u32 {
        if self.failure_count == u32::MAX {
            0
        } else {
            (self.failure_count + 1) as u32
        }
    }

    /// The breaker after an operation has ended at `now`.
    pub open spec fn after_outcome(self, succeeded: bool, now: u64) -> CircuitBreaker {
        if succeeded {
            CircuitBreaker { failure_count: 0, ..self }
        } else {
            CircuitBreaker {
                failure_count: self.next_count(),
                is_open: self.is_open || self.next_count() >= FAILURE_THRESHOLD,
                last_failure: Some(now),
            }
        }
    }

    /// The breaker after a whole call that arrived at `started` and ended at
    /// `finished`.
    pub open spec fn after_call(self, started: u64, finished: u64, succeeded: bool) -> CircuitBreaker {
        self.after_begin(started).after_outcome(succeeded, finished)
    }

    /// The closed breaker that has seen no failure.
    pub open spec fn spec_new() -> CircuitBreaker {
        CircuitBreaker { failure_count: 0, is_open: false, last_failure: None }
    }

    #[verifier::when_used_as_spec(spec_new)]
    pub fn new() -> (b: CircuitBreaker)
        ensures
            b == Self::spec_new(),
    {
        CircuitBreaker { failure_count: 0, is_open: false, last_failure: None }
    }

    /// A call arrives: an open breaker whose last failure lies more than
    /// `RECOVERY_MS` back closes and forgets its failures.
    pub fn begin(&mut self, now: u64) -> (state: BreakerState)
        ensures
            *final(self) == old(self).after_begin(now),
            state == old(self).state_at(now),
    {
        if !self.is_open {
            return BreakerState::Closed;
        }
        match self.last_failure {
            Some(time) => {
                let quiet: u64 = elapsed(now, time);
                if quiet > RECOVERY_MS {
                    self.is_open = false;
                    self.failure_count = 0;
                    self.last_failure = None;
                    BreakerState::Recovered
                } else {
                    BreakerState::Open
                }
            },
            None => BreakerState::Open,
        }
    }

    /// The operation has ended: a success clears the counter, a failure counts
    /// and opens the breaker at the threshold.
    pub fn record(&mut self, succeeded: bool, now: u64)
        ensures
            *final(self) == old(self).after_outcome(succeeded, now),
    {
        if succeeded {
            self.failure_count = 0;
        } else {
            let count: u32 = self.failure_count.wrapping_add(1);
            self.failure_count = count;
            if count >= FAILURE_THRESHOLD {
                self.is_open = true;
            }
            self.last_failure = Some(now);
        }
    }

    /// Passes the outcome of a store operation through the breaker. The
    /// operation is attempted in every state of the breaker.
    pub fn call<T, E>(&mut self, started: u64, finished: u64, outcome: Result<T, E>) -> (r: Result<
        T,
        E,
    >)
        ensures
            r == outcome,
            *final(self) == old(self).after_call(started, finished, outcome is Ok),
    {
        let _ = self.begin(started);
        self.record(outcome.is_ok(), finished);
        outcome
    }
}

/// A closed breaker that has counted no failure is open after five failed
/// calls in a row, whenever they come.
pub proof fn lemma_opens_after_five_failures(
    b: CircuitBreaker,
    t1: (u64, u64),
    t2: (u64, u64),
    t3: (u64, u64),
    t4: (u64, u64),
    t5: (u64, u64),
)
    requires
        !b.is_open,
        b.failure_count == 0,
    ensures
        b.after_call(t1.0, t1.1, false).after_call(t2.0, t2.1, false).after_call(
            t3.0,
            t3.1,
            false,
        ).after_call(t4.0, t4.1, false).after_call(t5.0, t5.1, false).is_open,
{
}

/// An open breaker whose last failure lies more than thirty seconds back
/// closes at the next call and counts from zero again.
pub proof fn lemma_resets_after_quiet_period(b: CircuitBreaker, last: u64, now: u64)
    requires
        b.is_open,
        b.last_failure == Some(last),
        now - last > RECOVERY_MS,
    ensures
        b.after_begin(now).failure_count == 0,
        !b.after_begin(now).is_open,
        b.state_at(now) == BreakerState::Recovered,
{
}

/// A success zeroes the counter in every state.
pub proof fn lemma_success_clears_count(b: CircuitBreaker, started: u64, finished: u64)
    ensures
        b.after_call(started, finished, true).failure_count == 0,
{
}

} // verus!
