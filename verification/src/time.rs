//! The monotonic clock: instants and durations counted in ticks.
//!
//! An instant is a 64-bit tick count that wraps at 2^64. Two instants are
//! compared by their wrapped difference, never by magnitude: a deadline
//! counts as reached when the clock is at it or less than half the range
//! past it. With a tick of one microsecond the half range is some 292,000
//! years.

use vstd::prelude::*;

verus! {

/// Ticks per second.
pub const TICK_HZ: u64 = 1_000_000;

/// Ticks per millisecond.
pub const TICKS_PER_MILLI: u64 = 1_000;

/// Half of the clock's range: the farthest that a deadline may lie ahead.
pub const HALF_RANGE: u64 = 0x8000_0000_0000_0000;

/// `a + b` modulo 2^64.
pub open spec fn wrap_add(a: u64, b: u64) -> u64 {
    if a + b > u64::MAX {
        (a + b - 0x1_0000_0000_0000_0000) as u64
    } else {
        (a + b) as u64
    }
}

/// `a - b` modulo 2^64.
pub open spec fn wrap_sub(a: u64, b: u64) -> u64 {
    if a < b {
        (a - b + 0x1_0000_0000_0000_0000) as u64
    } else {
        (a - b) as u64
    }
}

/// A span of time, in ticks.
#[derive(Clone, Copy, Debug, PartialEq, Eq, Structural)]
pub struct Duration {
    pub ticks: u64,
}

/// A reading of the monotonic clock, in ticks modulo 2^64.
#[derive(Clone, Copy, Debug, PartialEq, Eq, Structural)]
pub struct Instant {
    pub ticks: u64,
}

impl Duration {
    pub fn from_ticks(ticks: u64) -> (d: Duration)
        ensures
            d.ticks == ticks,
    {
        Duration { ticks }
    }

    /// A span of `millis` milliseconds. The tick count must fit in 64 bits.
    pub fn from_millis(millis: u64) -> (d: Duration)
        requires
            millis * TICKS_PER_MILLI <= u64::MAX,
        ensures
            d.ticks == millis * TICKS_PER_MILLI,
    {
        Duration { ticks: millis * TICKS_PER_MILLI }
    }

    /// A span of `secs` seconds. The tick count must fit in 64 bits.
    pub fn from_secs(secs: u64) -> (d: Duration)
        requires
            secs * TICK_HZ <= u64::MAX,
        ensures
            d.ticks == secs * TICK_HZ,
    {
        Duration { ticks: secs * TICK_HZ }
    }

    pub fn as_ticks(&self) -> (t: u64)
        ensures
            t == self.ticks,
    {
        self.ticks
    }

    /// Whole milliseconds in the span, rounded down.
    pub fn as_millis(&self) -> (m: u64)
        ensures
            m == self.ticks / TICKS_PER_MILLI,
    {
        self.ticks / TICKS_PER_MILLI
    }
}

impl Instant {
    pub fn from_ticks(ticks: u64) -> (t: Instant)
        ensures
            t.ticks == ticks,
    {
        Instant { ticks }
    }

    pub fn as_ticks(&self) -> (t: u64)
        ensures
            t == self.ticks,
    {
        self.ticks
    }

    /// The instant `d` after `self`, on the wrapping clock.
    pub open spec fn plus(self, d: Duration) -> Instant {
        Instant { ticks: wrap_add(self.ticks, d.ticks) }
    }

    /// Ticks from `self` forward to `later`, on the wrapping clock.
    pub open spec fn ticks_until(self, later: Instant) -> u64 {
        wrap_sub(later.ticks, self.ticks)
    }

    /// Whether a clock that reads `self` has reached `deadline`: it is at
    /// the deadline or less than half the range past it.
    pub open spec fn reached(self, deadline: Instant) -> bool {
        deadline.ticks_until(self) < HALF_RANGE
    }

    /// Where `deadline` lies as seen from `self`: the ticks still to go, or
    /// minus the ticks by which it is overdue. It is at most zero exactly
    /// when the deadline is reached.
    pub open spec fn offset_to(self, deadline: Instant) -> int {
        if self.ticks_until(deadline) <= HALF_RANGE {
            self.ticks_until(deadline) as int
        } else {
            self.ticks_until(deadline) - 0x1_0000_0000_0000_0000
        }
    }

    /// The instant `d` after this one. Wraps at 2^64.
    pub fn after(&self, d: Duration) -> (t: Instant)
        ensures
            t == self.plus(d),
    {
        Instant { ticks: self.ticks.wrapping_add(d.ticks) }
    }

    /// Time gone by from `earlier` to this instant, on the wrapping clock.
    pub fn since(&self, earlier: Instant) -> (d: Duration)
        ensures
            d.ticks == earlier.ticks_until(*self),
    {
        Duration { ticks: self.ticks.wrapping_sub(earlier.ticks) }
    }

    /// Whether this reading of the clock has reached `deadline`.
    pub fn has_reached(&self, deadline: Instant) -> (r: bool)
        ensures
            r == self.reached(deadline),
            r == (self.offset_to(deadline) <= 0),
    {
        self.ticks.wrapping_sub(deadline.ticks) < HALF_RANGE
    }

    /// Whether, seen from this reading of the clock, deadline `a` comes
    /// strictly before deadline `b`.
    pub fn comes_before(&self, a: Instant, b: Instant) -> (r: bool)
        ensures
            r == (self.offset_to(a) < self.offset_to(b)),
    {
        let bias: u64 = HALF_RANGE - 1;
        let ka: u64 = a.ticks.wrapping_sub(self.ticks).wrapping_add(bias);
        let kb: u64 = b.ticks.wrapping_sub(self.ticks).wrapping_add(bias);
        ka < kb
    }
}

/// A deadline no more than half the range ahead is reached exactly when
/// the clock has advanced by at least the distance to it (and by less than
/// the distance plus half the range).
pub proof fn lemma_reached_after_advance(t: Instant, ahead: Duration, gone: Duration)
    requires
        ahead.ticks <= HALF_RANGE,
        gone.ticks < HALF_RANGE,
    ensures
        t.plus(gone).reached(t.plus(ahead)) == (gone.ticks >= ahead.ticks),
{
}

} // verus!
