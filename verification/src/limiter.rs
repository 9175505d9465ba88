//! The shared rate limiter: a minimum spacing between the start times of any
//! two consecutive outbound fetches.
//!
//! The limiter itself is pure bookkeeping over millisecond timestamps: given
//! the current wall-clock time it computes the earliest permitted start time
//! (the *grant*) and records it.  The caller is responsible for actually
//! waiting until the granted time before fetching, and for serializing
//! callers through one shared instance.

use vstd::prelude::*;

verus! {

/// Spacing state: the minimum interval and the most recent granted start.
pub struct RateLimiter {
    min_interval_ms: u64,
    last_grant_ms: u64,
    primed: bool,
}

impl RateLimiter {
    /// The minimum spacing between two granted start times, in milliseconds.
    pub closed spec fn min_interval(self) -> u64 {
        self.min_interval_ms
    }

    /// The most recently granted start time.
    pub closed spec fn last_grant(self) -> u64 {
        self.last_grant_ms
    }

    /// Whether a grant has been handed out already.
    pub closed spec fn primed(self) -> bool {
        self.primed
    }

    /// The earliest start time that may be granted next; before the first
    /// grant there is no constraint.  Clamped to the largest representable
    /// timestamp.
    pub open spec fn deadline_spec(self) -> int {
        if !self.primed() {
            0
        } else if self.last_grant() + self.min_interval() <= u64::MAX {
            self.last_grant() + self.min_interval()
        } else {
            u64::MAX as int
        }
    }

    /// The start time granted when `acquire_at` is called at wall-clock time
    /// `now_ms`: the current time, pushed forward to the deadline if the
    /// deadline has not passed yet.
    pub open spec fn grant_spec(self, now_ms: u64) -> int {
        if now_ms >= self.deadline_spec() {
            now_ms as int
        } else {
            self.deadline_spec()
        }
    }

    /// The limiter state after a grant at wall-clock time `now_ms`.
    pub closed spec fn after_acquire(self, now_ms: u64) -> RateLimiter {
        RateLimiter {
            min_interval_ms: self.min_interval_ms,
            last_grant_ms: self.grant_spec(now_ms) as u64,
            primed: true,
        }
    }

    /// A fresh limiter that has granted nothing yet.
    pub fn new(min_interval_ms: u64) -> (l: RateLimiter)
        ensures
            l.min_interval() == min_interval_ms,
            !l.primed(),
    {
        RateLimiter { min_interval_ms, last_grant_ms: 0, primed: false }
    }

    /// Grants the next fetch start time for a caller that asks at wall-clock
    /// time `now_ms`, and records it.  The caller must wait until the granted
    /// time before starting its fetch.
    pub fn acquire_at(&mut self, now_ms: u64) -> (grant: u64)
        ensures
            grant == old(self).grant_spec(now_ms),
            *final(self) == old(self).after_acquire(now_ms),
            final(self).min_interval() == old(self).min_interval(),
            final(self).primed(),
            final(self).last_grant() == grant,
            grant >= now_ms,
    {
        let deadline: u64 = if !self.primed {
            now_ms
        } else if self.last_grant_ms > u64::MAX - self.min_interval_ms {
            u64::MAX
        } else {
            self.last_grant_ms + self.min_interval_ms
        };
        let grant: u64 = if now_ms >= deadline {
            now_ms
        } else {
            deadline
        };
        self.last_grant_ms = grant;
        self.primed = true;
        grant
    }

    /// Rate spacing: whatever wall-clock times two consecutive grants are
    /// requested at, the second granted start time lies at least
    /// `min_interval` after the first.  (Stated below the clamp at
    /// `u64::MAX`, where the deadline arithmetic cannot saturate.)
    pub proof fn lemma_rate_spacing(self, t1: u64, t2: u64)
        requires
            self.grant_spec(t1) + self.min_interval() <= u64::MAX,
        ensures
            self.after_acquire(t1).grant_spec(t2) >= self.grant_spec(t1) + self.min_interval(),
    {
    }
}

} // verus!
