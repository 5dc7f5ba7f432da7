//! Waits on the clock: a one-shot timer and a periodic ticker.
//!
//! A timer always suspends its task once before it completes, also where
//! its deadline is reached already: a wait of no duration still gives the
//! other runnable tasks their turn. A ticker computes each boundary from
//! the one before, never from the time at which it was served, so that
//! late service does not move later boundaries.

use vstd::prelude::*;
use crate::error::Error;
use crate::task::{Poll, Waker};
use crate::time::{Duration, Instant, HALF_RANGE};
use crate::timer::{TimerDeadline, TimerQueue};

verus! {

/// A wait for one deadline.
#[derive(Clone, Copy, Debug, PartialEq, Eq, Structural)]
pub struct Timer {
    pub deadline: Instant,
    /// Whether the task has suspended on this timer at least once.
    pub yielded: bool,
}

impl Timer {
    /// A wait until `deadline`.
    pub fn at(deadline: Instant) -> (t: Timer)
        ensures
            t == (Timer { deadline, yielded: false }),
    {
        Timer { deadline, yielded: false }
    }

    /// A wait of `d`, counted from `now`.
    pub fn after(now: Instant, d: Duration) -> (t: Timer)
        ensures
            t == (Timer { deadline: now.plus(d), yielded: false }),
    {
        Timer { deadline: now.after(d), yielded: false }
    }

    /// The registration that this timer makes for `waker`.
    pub open spec fn entry(self, waker: Waker) -> TimerDeadline {
        TimerDeadline { deadline: self.deadline, waker }
    }

    /// Whether a poll at `now` completes the wait.
    pub open spec fn done(self, now: Instant) -> bool {
        self.yielded && now.reached(self.deadline)
    }

    /// One attempt to complete the wait at `now`. Where the task has
    /// suspended on the timer before and the deadline is reached, the wait
    /// completes and its registration is withdrawn. Otherwise the deadline
    /// is registered for `waker` and the answer is `Pending`; where the
    /// service cannot take the registration its error is passed on.
    pub fn poll(&mut self, now: Instant, queue: &mut TimerQueue, waker: Waker) -> (r: Result<
        Poll<()>,
        Error,
    >)
        requires
            old(queue).wf(),
        ensures
            final(queue).wf(),
            final(self).deadline == old(self).deadline,
            old(self).done(now) ==> {
                &&& r == Ok::<Poll<()>, Error>(Poll::Ready(()))
                &&& final(queue)@ == old(queue)@.cancelled(old(self).entry(waker))
                &&& !final(queue)@.entries.contains(old(self).entry(waker))
                &&& final(self).yielded
            },
            !old(self).done(now) ==> {
                &&& final(queue)@ == old(queue)@.scheduled(old(self).entry(waker))
                &&& match old(queue)@.schedule_answer(old(self).entry(waker)) {
                    Ok(_) => r == Ok::<Poll<()>, Error>(Poll::Pending) && final(self).yielded,
                    Err(e) => r == Err::<Poll<()>, Error>(e) && final(self).yielded == old(self).yielded,
                }
            },
    {
        if self.yielded && now.has_reached(self.deadline) {
            let _ = queue.cancel(self.deadline, waker);
            Ok(Poll::Ready(()))
        } else {
            match queue.schedule(self.deadline, waker) {
                Ok(_) => {
                    self.yielded = true;
                    Ok(Poll::Pending)
                },
                Err(e) => Err(e),
            }
        }
    }

    /// Gives the wait up: the registration for `waker` is withdrawn.
    pub fn cancel(&self, queue: &mut TimerQueue, waker: Waker)
        requires
            old(queue).wf(),
        ensures
            final(queue).wf(),
            final(queue)@ == old(queue)@.cancelled(self.entry(waker)),
            !final(queue)@.entries.contains(self.entry(waker)),
    {
        let _ = queue.cancel(self.deadline, waker);
    }
}

/// A deadline that is reached and is moved on by less than half the
/// clock's range lies that much later as seen from the same reading.
pub proof fn lemma_offset_moves_on(now: Instant, deadline: Instant, by: Duration)
    requires
        now.reached(deadline),
        by.ticks < HALF_RANGE,
    ensures
        now.offset_to(deadline.plus(by)) == now.offset_to(deadline) + by.ticks,
{
}

/// The `k`-th boundary after `first` of a ticker with the given period.
pub open spec fn boundary(first: Instant, period: Duration, k: nat) -> Instant
    decreases k,
{
    if k == 0 {
        first
    } else {
        boundary(first, period, (k - 1) as nat).plus(period)
    }
}

/// Boundaries lie whole periods apart on the wrapping clock, however late
/// each was served: the `k`-th is `k` periods after the first, modulo
/// 2^64.
pub proof fn lemma_boundary_no_drift(first: Instant, period: Duration, k: nat)
    ensures
        boundary(first, period, k).ticks == (first.ticks + k * period.ticks)
            % 0x1_0000_0000_0000_0000,
    decreases k,
{
    let range: int = 0x1_0000_0000_0000_0000;
    if k == 0 {
        assert(k * period.ticks == 0);
        vstd::arithmetic::div_mod::lemma_small_mod(first.ticks as nat, range as nat);
    } else {
        lemma_boundary_no_drift(first, period, (k - 1) as nat);
        let before: int = first.ticks + (k - 1) * period.ticks;
        let prev = boundary(first, period, (k - 1) as nat).ticks;
        assert(k * period.ticks == (k - 1) * period.ticks + period.ticks) by (nonlinear_arith);
        assert(prev == before % range);
        vstd::arithmetic::div_mod::lemma_add_mod_noop(before, period.ticks as int, range);
        vstd::arithmetic::div_mod::lemma_small_mod(period.ticks as nat, range as nat);
        assert((prev + period.ticks) % range == (before + period.ticks) % range);
        if prev + period.ticks >= range {
            vstd::arithmetic::div_mod::lemma_mod_sub_multiples_vanish(
                prev + period.ticks,
                range,
            );
            vstd::arithmetic::div_mod::lemma_small_mod(
                (prev + period.ticks - range) as nat,
                range as nat,
            );
        } else {
            vstd::arithmetic::div_mod::lemma_small_mod(
                (prev + period.ticks) as nat,
                range as nat,
            );
        }
    }
}

/// A periodic wait.
#[derive(Clone, Copy, Debug, PartialEq, Eq, Structural)]
pub struct Ticker {
    /// The next boundary.
    pub expires_at: Instant,
    pub period: Duration,
}

impl Ticker {
    /// A ticker whose first boundary lies one period after `now`.
    pub fn every(now: Instant, period: Duration) -> (t: Ticker)
        ensures
            t == (Ticker { expires_at: now.plus(period), period }),
    {
        Ticker { expires_at: now.after(period), period }
    }

    /// The registration that this ticker makes for `waker`.
    pub open spec fn entry(self, waker: Waker) -> TimerDeadline {
        TimerDeadline { deadline: self.expires_at, waker }
    }

    /// The ticker once its boundary has fired.
    pub open spec fn advanced(self) -> Ticker {
        Ticker { expires_at: self.expires_at.plus(self.period), period: self.period }
    }

    /// The ticker after `k` firings.
    pub open spec fn advanced_by(self, k: nat) -> Ticker
        decreases k,
    {
        if k == 0 {
            self
        } else {
            self.advanced_by((k - 1) as nat).advanced()
        }
    }

    /// Whether the ticker can be served: its period is more than nothing
    /// and less than half the clock's range.
    pub open spec fn steady(self) -> bool {
        0 < self.period.ticks < HALF_RANGE
    }

    /// How many boundaries of a steady ticker are reached at `now` and
    /// have yet to fire.
    pub open spec fn due_at(self, now: Instant) -> nat
        decreases HALF_RANGE - now.offset_to(self.expires_at),
    {
        if self.steady() && now.reached(self.expires_at) {
            proof {
                lemma_offset_moves_on(now, self.expires_at, self.period);
            }
            1 + self.advanced().due_at(now)
        } else {
            0
        }
    }

    /// How many boundaries of a steady ticker are reached at `now` and
    /// have yet to fire.
    pub fn due(&self, now: Instant) -> (n: u64)
        requires
            self.steady(),
        ensures
            n == self.due_at(now),
    {
        proof {
            lemma_due_count(*self, now);
        }
        if now.has_reached(self.expires_at) {
            now.since(self.expires_at).as_ticks() / self.period.as_ticks() + 1
        } else {
            0
        }
    }

    /// One attempt to pass the next boundary at `now`. Where the boundary
    /// is reached the ticker fires: the boundary moves on by one period
    /// and the registration is withdrawn. A ticker that was served late
    /// fires at once on the next attempt, once per boundary. Otherwise the
    /// boundary is registered for `waker` and the answer is `Pending`.
    pub fn poll_next(&mut self, now: Instant, queue: &mut TimerQueue, waker: Waker) -> (r: Result<
        Poll<()>,
        Error,
    >)
        requires
            old(queue).wf(),
        ensures
            final(queue).wf(),
            now.reached(old(self).expires_at) ==> {
                &&& r == Ok::<Poll<()>, Error>(Poll::Ready(()))
                &&& *final(self) == old(self).advanced()
                &&& final(queue)@ == old(queue)@.cancelled(old(self).entry(waker))
            },
            !now.reached(old(self).expires_at) ==> {
                &&& *final(self) == *old(self)
                &&& final(queue)@ == old(queue)@.scheduled(old(self).entry(waker))
                &&& r == match old(queue)@.schedule_answer(old(self).entry(waker)) {
                    Ok(_) => Ok::<Poll<()>, Error>(Poll::Pending),
                    Err(e) => Err::<Poll<()>, Error>(e),
                }
            },
    {
        if now.has_reached(self.expires_at) {
            let _ = queue.cancel(self.expires_at, waker);
            self.expires_at = self.expires_at.after(self.period);
            Ok(Poll::Ready(()))
        } else {
            match queue.schedule(self.expires_at, waker) {
                Ok(_) => Ok(Poll::Pending),
                Err(e) => Err(e),
            }
        }
    }

    /// Starts the ticker anew: the next boundary lies one period after
    /// `now`.
    pub fn reset(&mut self, now: Instant)
        ensures
            *final(self) == (Ticker { expires_at: now.plus(old(self).period), period: old(self).period }),
    {
        self.expires_at = now.after(self.period);
    }
}

/// A steady ticker whose boundary is reached has one boundary due for
/// every whole period since then, and the one that is reached.
pub proof fn lemma_due_count(t: Ticker, now: Instant)
    requires
        t.steady(),
    ensures
        t.due_at(now) == (if now.reached(t.expires_at) {
            t.expires_at.ticks_until(now) as int / t.period.ticks as int + 1
        } else {
            0
        }),
    decreases HALF_RANGE - now.offset_to(t.expires_at),
{
    if now.reached(t.expires_at) {
        lemma_offset_moves_on(now, t.expires_at, t.period);
        lemma_due_count(t.advanced(), now);
        let late = t.expires_at.ticks_until(now) as int;
        let p = t.period.ticks as int;
        if late >= p {
            assert(t.advanced().expires_at.ticks_until(now) == late - p);
            assert((late - p) / p + 1 == late / p) by (nonlinear_arith)
                requires
                    p > 0,
                    late >= p,
            ;
        } else {
            assert(late / p == 0) by (nonlinear_arith)
                requires
                    p > 0,
                    0 <= late < p,
            ;
        }
    }
}

/// A steady ticker that has fired all the boundaries reached at `now` has
/// its next boundary ahead of `now`, by no more than one period.
pub proof fn lemma_served_is_ahead(t: Ticker, now: Instant)
    requires
        t.steady(),
        now.offset_to(t.expires_at) <= t.period.ticks,
    ensures
        0 < now.offset_to(t.advanced_by(t.due_at(now)).expires_at) <= t.period.ticks,
        t.advanced_by(t.due_at(now)).period == t.period,
    decreases HALF_RANGE - now.offset_to(t.expires_at),
{
    if now.reached(t.expires_at) {
        lemma_offset_moves_on(now, t.expires_at, t.period);
        lemma_served_is_ahead(t.advanced(), now);
        lemma_advance_commutes(t, t.advanced().due_at(now));
    } else {
        assert(t.advanced_by(0) == t);
    }
}

/// Firing once and then `k` times is firing `k` times and then once.
pub proof fn lemma_advance_commutes(t: Ticker, k: nat)
    ensures
        t.advanced().advanced_by(k) == t.advanced_by(k + 1),
    decreases k,
{
    if k == 0 {
        assert(t.advanced().advanced_by(0) == t.advanced());
        assert(t.advanced_by(1) == t.advanced_by(0).advanced());
    } else {
        lemma_advance_commutes(t, (k - 1) as nat);
        assert(t.advanced().advanced_by(k) == t.advanced().advanced_by((k - 1) as nat).advanced());
        assert(t.advanced_by(k + 1) == t.advanced_by(k).advanced());
    }
}

/// After `k` firings the next boundary of a ticker is the `k`-th after the
/// one it started with: firing times depend on the start and the period
/// alone.
pub proof fn lemma_ticker_boundaries(t: Ticker, k: nat)
    ensures
        t.advanced_by(k).expires_at == boundary(t.expires_at, t.period, k),
        t.advanced_by(k).period == t.period,
    decreases k,
{
    if k > 0 {
        lemma_ticker_boundaries(t, (k - 1) as nat);
    }
}

} // verus!
