//! The delays between the restarts of a failing job.

use vstd::prelude::*;

verus! {

/// How long to wait before a restart: the first delay is the minimum, each
/// further one doubles up to the maximum, and a failure that follows a long
/// enough run starts again from the minimum. All times are in milliseconds.
#[derive(Clone, Copy, Debug)]
pub struct BackoffPolicy {
    min_delay_ms: u64,
    max_delay_ms: u64,
    reset_after_ms: u64,
}

impl BackoffPolicy {
    /// The shortest delay.
    pub closed spec fn min(self) -> u64 {
        self.min_delay_ms
    }

    /// The longest delay.
    pub closed spec fn max(self) -> u64 {
        self.max_delay_ms
    }

    /// The time an attempt has to run before its failure counts as the first
    /// of a new series.
    pub closed spec fn reset_after(self) -> u64 {
        self.reset_after_ms
    }

    /// The shortest delay is not longer than the longest.
    #[verifier::type_invariant]
    pub open spec fn wf(self) -> bool {
        self.min() <= self.max()
    }

    /// The delay that follows `delay`: twice as long, kept between the
    /// minimum and the maximum.
    pub open spec fn grow(self, delay: u64) -> u64 {
        if 2 * delay < self.min() {
            self.min()
        } else if 2 * delay > self.max() {
            self.max()
        } else {
            (2 * delay) as u64
        }
    }

    /// The delay before a restart when the series stands at `pending` and the
    /// failed attempt ran for `ran_for` milliseconds.
    pub open spec fn delay_for(self, pending: u64, ran_for: u64) -> u64 {
        if ran_for >= self.reset_after() {
            self.min()
        } else {
            pending
        }
    }

    /// A policy with the given bounds, or `None` when the minimum exceeds the
    /// maximum.
    pub fn new(min_delay_ms: u64, max_delay_ms: u64, reset_after_ms: u64) -> (policy: Option<
        BackoffPolicy,
    >)
        ensures
            policy is Some <==> min_delay_ms <= max_delay_ms,
            policy matches Some(p) ==> p.wf() && p.min() == min_delay_ms && p.max() == max_delay_ms
                && p.reset_after() == reset_after_ms,
    {
        if min_delay_ms <= max_delay_ms {
            Some(BackoffPolicy { min_delay_ms, max_delay_ms, reset_after_ms })
        } else {
            None
        }
    }

    /// The shortest delay.
    pub fn min_delay_ms(&self) -> (ms: u64)
        ensures
            ms == self.min(),
            self.wf(),
    {
        proof {
            use_type_invariant(self);
        }
        self.min_delay_ms
    }

    /// The longest delay.
    pub fn max_delay_ms(&self) -> (ms: u64)
        ensures
            ms == self.max(),
            self.wf(),
    {
        proof {
            use_type_invariant(self);
        }
        self.max_delay_ms
    }

    /// The running time after which a series of failures starts anew.
    pub fn reset_after_ms(&self) -> (ms: u64)
        ensures
            ms == self.reset_after(),
    {
        self.reset_after_ms
    }

    /// The delay that follows `delay_ms` in a series: see [`BackoffPolicy::grow`].
    pub fn next_delay(&self, delay_ms: u64) -> (next: u64)
        ensures
            next == self.grow(delay_ms),
            self.min() <= next <= self.max(),
    {
        proof {
            use_type_invariant(self);
        }
        if delay_ms > self.max_delay_ms / 2 {
            self.max_delay_ms
        } else {
            let doubled: u64 = delay_ms + delay_ms;
            if doubled < self.min_delay_ms {
                self.min_delay_ms
            } else {
                doubled
            }
        }
    }

    /// The delay before a restart: see [`BackoffPolicy::delay_for`].
    pub fn restart_delay(&self, pending_ms: u64, ran_for_ms: u64) -> (delay: u64)
        ensures
            delay == self.delay_for(pending_ms, ran_for_ms),
    {
        if ran_for_ms >= self.reset_after_ms {
            self.min_delay_ms
        } else {
            pending_ms
        }
    }

    /// A grown delay lies between the bounds, and is not shorter than the
    /// delay it grew from as long as that one was within the maximum.
    pub proof fn lemma_grow_bounds(self, delay: u64)
        requires
            self.wf(),
        ensures
            self.min() <= self.grow(delay) <= self.max(),
            delay <= self.max() ==> delay <= self.grow(delay),
    {
    }
}

} // verus!
