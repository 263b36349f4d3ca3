//! Tick-based time: instants and durations counted in scheduler ticks.
//!
//! The tick counter is a 32-bit value that wraps around; all deadline
//! comparisons use modular arithmetic, never a naive `<`.
use vstd::prelude::*;

verus! {

/// Ticks per second of the scheduler's time base.
pub const TICK_HZ: u32 = 100;

/// Half of the 32-bit tick range; a deadline is considered reached when the
/// wrapped distance from the deadline to "now" is below this bound.
pub const HALF_RANGE: u32 = 0x8000_0000;

/// A point in time, counted in ticks since boot. Wraps at 32 bits.
#[derive(Clone, Copy, Debug, PartialEq, Eq, Structural)]
pub struct Instant {
    pub ticks: u32,
}

/// A span of time, counted in ticks.
#[derive(Clone, Copy, Debug, PartialEq, Eq, Structural)]
pub struct Duration {
    pub ticks: u32,
}

/// Number of ticks from `t` to `now`, modulo the 32-bit wrap.
pub open spec fn ticks_between(t: u32, now: u32) -> u32 {
    ((now as int - t as int) % 0x1_0000_0000) as u32
}

/// Wraparound-safe "deadline `t` has been reached at `now`": the wrapped
/// distance from `t` to `now` is less than half the tick range.
pub open spec fn tick_reached(t: u32, now: u32) -> bool {
    ticks_between(t, now) < HALF_RANGE
}

/// 32-bit wrapping addition, as a mathematical function.
pub open spec fn wrap_add(a: u32, b: u32) -> u32 {
    ((a as int + b as int) % 0x1_0000_0000) as u32
}

/// Where the tick counter has not wrapped, the wraparound-safe test agrees
/// with the plain comparison: a deadline at or before "now", and less than
/// half the tick range ago, has been reached.
pub proof fn lemma_reached_agrees_without_wrap(t: u32, now: u32)
    requires
        t <= now,
        now - t < HALF_RANGE,
    ensures
        tick_reached(t, now),
{
}

/// A deadline still ahead — by no more than half the tick range — has not
/// been reached.
pub proof fn lemma_future_deadline_not_reached(t: u32, now: u32)
    requires
        now < t,
        t - now <= HALF_RANGE,
    ensures
        !tick_reached(t, now),
{
}

/// Wrapping addition of two raw tick counts.
pub fn wrapping_add_ticks(a: u32, b: u32) -> (r: u32)
    ensures
        r == wrap_add(a, b),
{
    if b <= u32::MAX - a {
        a + b
    } else {
        proof {
            assert((a + b) % 0x1_0000_0000 == a + b - 0x1_0000_0000) by (nonlinear_arith)
                requires
                    0x1_0000_0000 <= a + b < 0x2_0000_0000,
            ;
        }
        b - (u32::MAX - a) - 1
    }
}

/// Wrapping distance from `t` to `now`.
pub fn ticks_since(t: u32, now: u32) -> (r: u32)
    ensures
        r == ticks_between(t, now),
{
    if t <= now {
        now - t
    } else {
        proof {
            assert((now - t) % 0x1_0000_0000 == now - t + 0x1_0000_0000) by (nonlinear_arith)
                requires
                    -0x1_0000_0000 < now - t < 0,
            ;
        }
        now + (u32::MAX - t) + 1
    }
}

impl Instant {
    /// The instant `ticks` ticks after boot.
    pub fn from_ticks(ticks: u32) -> (r: Instant)
        ensures
            r.ticks == ticks,
    {
        Instant { ticks }
    }

    /// Raw tick count of this instant.
    pub fn ticks(&self) -> (r: u32)
        ensures
            r == self.ticks,
    {
        self.ticks
    }

    /// The instant `d` later, wrapping at the 32-bit range.
    pub fn plus(&self, d: Duration) -> (r: Instant)
        ensures
            r.ticks == wrap_add(self.ticks, d.ticks),
    {
        Instant { ticks: wrapping_add_ticks(self.ticks, d.ticks) }
    }

    /// Time elapsed from `earlier` to `self`, modulo the 32-bit wrap.
    pub fn since(&self, earlier: Instant) -> (r: Duration)
        ensures
            r.ticks == ticks_between(earlier.ticks, self.ticks),
    {
        Duration { ticks: ticks_since(earlier.ticks, self.ticks) }
    }
}

impl Duration {
    /// A duration of `ticks` raw ticks.
    pub fn from_ticks(ticks: u32) -> (r: Duration)
        ensures
            r.ticks == ticks,
    {
        Duration { ticks }
    }

    /// Raw tick count of this duration.
    pub fn ticks(&self) -> (r: u32)
        ensures
            r == self.ticks,
    {
        self.ticks
    }

    /// A duration of `ms` milliseconds, truncated to whole ticks.
    pub fn millis(ms: u32) -> (r: Duration)
        ensures
            r.ticks == ms / 10,
    {
        Duration { ticks: ms / 10 }
    }

    /// A duration of `s` seconds.
    pub fn secs(s: u32) -> (r: Duration)
        requires
            s * TICK_HZ <= u32::MAX,
        ensures
            r.ticks == s * TICK_HZ,
    {
        Duration { ticks: s * TICK_HZ }
    }
}

} // verus!
