//! A circuit breaker for calls to the key store: after enough consecutive failures it opens
//! and refuses calls for a while; once that time has passed it lets a call through again, and
//! a success closes it. Instants are milliseconds.

use vstd::prelude::*;

verus! {

/// Abstract state of a breaker.
pub struct CircuitView {
    pub failure_threshold: u32,
    pub open_ms: u64,
    pub consecutive_failures: u32,
    pub opened_at_ms: Option<u64>,
}

/// Whether a breaker in state `v` lets a call through at `now_ms`: always while closed;
/// while open, only once `open_ms` have passed since it opened.
pub open spec fn permits(v: CircuitView, now_ms: u64) -> bool {
    match v.opened_at_ms {
        None => true,
        Some(t) => now_ms >= t && now_ms - t >= v.open_ms,
    }
}

/// The state after a successful call: closed, no failures counted.
pub open spec fn after_success(v: CircuitView) -> CircuitView {
    CircuitView { consecutive_failures: 0, opened_at_ms: None, ..v }
}

/// The state after a failed call at `now_ms`: one more failure counted (the count stops at
/// its maximum); when the count reaches the threshold the breaker opens at `now_ms`.
pub open spec fn after_failure(v: CircuitView, now_ms: u64) -> CircuitView {
    let failures = if v.consecutive_failures < u32::MAX {
        (v.consecutive_failures + 1) as u32
    } else {
        v.consecutive_failures
    };
    CircuitView {
        consecutive_failures: failures,
        opened_at_ms: if failures >= v.failure_threshold {
            Some(now_ms)
        } else {
            v.opened_at_ms
        },
        ..v
    }
}

#[derive(Debug, Clone)]
pub struct CircuitBreaker {
    failure_threshold: u32,
    open_ms: u64,
    consecutive_failures: u32,
    opened_at_ms: Option<u64>,
}

impl View for CircuitBreaker {
    type V = CircuitView;

    closed spec fn view(&self) -> CircuitView {
        CircuitView {
            failure_threshold: self.failure_threshold,
            open_ms: self.open_ms,
            consecutive_failures: self.consecutive_failures,
            opened_at_ms: self.opened_at_ms,
        }
    }
}

impl CircuitBreaker {
    /// A closed breaker that opens after `failure_threshold` consecutive failures and stays
    /// open for `open_ms`.
    pub fn new(failure_threshold: u32, open_ms: u64) -> (b: Self)
        ensures
            b@ == (CircuitView {
                failure_threshold,
                open_ms,
                consecutive_failures: 0,
                opened_at_ms: None,
            }),
    {
        CircuitBreaker { failure_threshold, open_ms, consecutive_failures: 0, opened_at_ms: None }
    }

    /// Whether a call may be made at `now_ms`.
    pub fn is_call_permitted(&self, now_ms: u64) -> (b: bool)
        ensures
            b == permits(self@, now_ms),
    {
        match self.opened_at_ms {
            None => true,
            Some(t) => now_ms >= t && now_ms - t >= self.open_ms,
        }
    }

    /// Records a successful call.
    pub fn on_success(&mut self)
        ensures
            final(self)@ == after_success(old(self)@),
    {
        self.consecutive_failures = 0;
        self.opened_at_ms = None;
    }

    /// Records a failed call at `now_ms`.
    pub fn on_failure(&mut self, now_ms: u64)
        ensures
            final(self)@ == after_failure(old(self)@, now_ms),
    {
        if self.consecutive_failures < u32::MAX {
            self.consecutive_failures = self.consecutive_failures + 1;
        }
        if self.consecutive_failures >= self.failure_threshold {
            self.opened_at_ms = Some(now_ms);
        }
    }
}

/// Once a failure brings the count to the threshold, no call is let through until the open
/// time has passed; and a success always lets the next call through.
pub proof fn lemma_breaker_opens_and_closes(v: CircuitView, now_ms: u64, later_ms: u64)
    requires
        v.consecutive_failures < u32::MAX,
        v.consecutive_failures + 1 >= v.failure_threshold,
        now_ms <= later_ms,
        later_ms - now_ms < v.open_ms,
    ensures
        !permits(after_failure(v, now_ms), later_ms),
        permits(after_success(v), later_ms),
{
}

} // verus!
