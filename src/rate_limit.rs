//! Admission control: one token bucket shared by every request.
//!
//! The bucket refills continuously at `rate` tokens per second up to `burst`
//! tokens. Time is given by the caller in nanoseconds of a monotonic clock, so
//! the bucket is a pure state machine; the caller serializes access to it.
use vstd::prelude::*;

verus! {

/// Sub-units of one token: one per nanosecond at a rate of one per second.
pub const UNITS_PER_TOKEN: u128 = 1_000_000_000;

/// Configured rate (requests per second) and burst capacity.
#[derive(Clone, Debug, PartialEq, Eq)]
pub struct RateLimitConfig {
    pub requests_per_second: u64,
    pub burst_capacity: u32,
}

/// A token bucket; its level is kept in sub-units of a token.
#[derive(Clone, Debug)]
pub struct RateLimiter {
    rate: u64,
    burst: u32,
    level: u128,
    last: u64,
}

/// A usable configuration: a rate and a burst of at least one. Anything
/// else would block every request or disable limiting, and is refused at
/// startup.
pub open spec fn valid_config(c: RateLimitConfig) -> bool {
    c.requests_per_second >= 1 && c.burst_capacity >= 1
}

/// Whether the configuration can start a limiter.
pub fn config_is_valid(c: &RateLimitConfig) -> (r: bool)
    ensures
        r == valid_config(*c),
{
    c.requests_per_second >= 1 && c.burst_capacity >= 1
}

pub open spec fn min_nat(a: nat, b: nat) -> nat {
    if a <= b {
        a
    } else {
        b
    }
}

impl RateLimiter {
    pub closed spec fn spec_rate(&self) -> nat {
        self.rate as nat
    }

    pub closed spec fn spec_burst(&self) -> nat {
        self.burst as nat
    }

    /// Sub-units in the bucket as of `spec_last`.
    pub closed spec fn spec_level(&self) -> nat {
        self.level as nat
    }

    /// Latest instant seen, in nanoseconds.
    pub closed spec fn spec_last(&self) -> nat {
        self.last as nat
    }

    pub open spec fn capacity(&self) -> nat {
        self.spec_burst() * UNITS_PER_TOKEN as nat
    }

    /// Rate and burst are at least one; the level never exceeds the capacity.
    pub open spec fn wf(&self) -> bool {
        self.spec_rate() >= 1 && self.spec_burst() >= 1 && self.spec_level() <= self.capacity()
    }

    /// The level at `now`: refilled for the time elapsed since `spec_last`,
    /// capped at the capacity. A clock that goes back refills nothing.
    pub open spec fn level_at(&self, now: nat) -> nat {
        if now <= self.spec_last() {
            self.spec_level()
        } else {
            min_nat(
                self.capacity(),
                self.spec_level() + self.spec_rate() * (now - self.spec_last()) as nat,
            )
        }
    }

    /// A full bucket at `now`.
    pub fn new(config: &RateLimitConfig, now: u64) -> (r: RateLimiter)
        requires
            valid_config(*config),
        ensures
            r.wf(),
            r.spec_rate() == config.requests_per_second,
            r.spec_burst() == config.burst_capacity,
            r.spec_level() == r.capacity(),
            r.spec_last() == now,
    {
        let rate = config.requests_per_second;
        let burst = config.burst_capacity;
        let level = (burst as u128) * UNITS_PER_TOKEN;
        RateLimiter { rate, burst, level, last: now }
    }

    pub fn rate(&self) -> (r: u64)
        ensures
            r == self.spec_rate(),
    {
        self.rate
    }

    pub fn burst(&self) -> (r: u32)
        ensures
            r == self.spec_burst(),
    {
        self.burst
    }

    /// Admits one request at `now` if a whole token is available, and takes
    /// it; a refused request takes nothing.
    pub fn try_acquire(&mut self, now: u64) -> (admitted: bool)
        requires
            old(self).wf(),
        ensures
            final(self).wf(),
            final(self).spec_rate() == old(self).spec_rate(),
            final(self).spec_burst() == old(self).spec_burst(),
            final(self).spec_last() == if now > old(self).spec_last() {
                now as nat
            } else {
                old(self).spec_last()
            },
            admitted == (old(self).level_at(now as nat) >= UNITS_PER_TOKEN),
            final(self).spec_level() == if admitted {
                (old(self).level_at(now as nat) - UNITS_PER_TOKEN) as nat
            } else {
                old(self).level_at(now as nat)
            },
    {
        let cap: u128 = (self.burst as u128) * UNITS_PER_TOKEN;
        let mut level = self.level;
        if now > self.last {
            let elapsed: u64 = now - self.last;
            proof {
                assert((self.rate as u128) * (elapsed as u128) <= 0xffff_ffff_ffff_ffffu128
                    * 0xffff_ffff_ffff_ffffu128) by (nonlinear_arith)
                    requires
                        self.rate <= 0xffff_ffff_ffff_ffffu64,
                        elapsed <= 0xffff_ffff_ffff_ffffu64,
                ;
            }
            let gained: u128 = (self.rate as u128) * (elapsed as u128);
            if gained >= cap - level {
                level = cap;
            } else {
                level = level + gained;
            }
            self.last = now;
        }
        if level >= UNITS_PER_TOKEN {
            self.level = level - UNITS_PER_TOKEN;
            true
        } else {
            self.level = level;
            false
        }
    }
}

} // verus!
