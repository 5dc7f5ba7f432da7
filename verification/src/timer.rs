//! The timer service: pending wake deadlines on the monotonic clock.
//!
//! A registration is a deadline and the waker to fire. The service keeps
//! registrations in the order in which they were made and fires those
//! that are due earliest deadline first; registrations with the same
//! deadline fire in the order in which they were made. A registration is
//! gone once it has fired or was cancelled, and the same registration is
//! never held twice.

use vstd::prelude::*;
use crate::error::{Error, Resource};
use crate::seqs::{lemma_remove_contains, lemma_remove_no_duplicates};
use crate::ring::Ring;
use crate::task::{Poll, Waker};
use crate::time::{Duration, Instant};

verus! {

/// One registration: wake `waker` once the clock has reached `deadline`.
#[derive(Clone, Copy, Debug, PartialEq, Eq, Structural)]
pub struct TimerDeadline {
    pub deadline: Instant,
    pub waker: Waker,
}

/// The index of the registration to fire first as seen from `now`: the
/// one whose deadline lies earliest, and among equals the one made first.
/// Zero for an empty sequence.
pub open spec fn earliest(entries: Seq<TimerDeadline>, now: Instant) -> int
    decreases entries.len(),
{
    if entries.len() <= 1 {
        0
    } else {
        let k = earliest(entries.drop_last(), now);
        if now.offset_to(entries.last().deadline) < now.offset_to(entries[k].deadline) {
            entries.len() - 1
        } else {
            k
        }
    }
}

/// Whether some registration is due at `now`.
pub open spec fn any_due(entries: Seq<TimerDeadline>, now: Instant) -> bool {
    entries.len() > 0 && now.reached(entries[earliest(entries, now)].deadline)
}

/// The registrations left once those due at `now` have fired.
pub open spec fn after_expiry(entries: Seq<TimerDeadline>, now: Instant) -> Seq<TimerDeadline>
    decreases entries.len(),
{
    if any_due(entries, now) {
        proof {
            lemma_earliest(entries, now);
        }
        after_expiry(entries.remove(earliest(entries, now)), now)
    } else {
        entries
    }
}

/// The wakers of the registrations due at `now`, in the order of firing.
pub open spec fn fired(entries: Seq<TimerDeadline>, now: Instant) -> Seq<Waker>
    decreases entries.len(),
{
    if any_due(entries, now) {
        proof {
            lemma_earliest(entries, now);
        }
        seq![entries[earliest(entries, now)].waker] + fired(
            entries.remove(earliest(entries, now)),
            now,
        )
    } else {
        Seq::empty()
    }
}

/// `earliest` names a registration none of the others comes before, and
/// every registration made before it has a strictly later deadline.
pub proof fn lemma_earliest(entries: Seq<TimerDeadline>, now: Instant)
    requires
        entries.len() > 0,
    ensures
        0 <= earliest(entries, now) < entries.len(),
        forall|j: int|
            0 <= j < entries.len() ==> now.offset_to(entries[earliest(entries, now)].deadline)
                <= now.offset_to(#[trigger] entries[j].deadline),
        forall|j: int|
            0 <= j < earliest(entries, now) ==> now.offset_to(
                entries[earliest(entries, now)].deadline,
            ) < now.offset_to(#[trigger] entries[j].deadline),
    decreases entries.len(),
{
    if entries.len() > 1 {
        let front = entries.drop_last();
        lemma_earliest(front, now);
        let k = earliest(front, now);
        assert(front[k] == entries[k]);
        assert forall|j: int| 0 <= j < entries.len() implies now.offset_to(
            entries[earliest(entries, now)].deadline,
        ) <= now.offset_to(#[trigger] entries[j].deadline) by {
            if j < front.len() {
                assert(front[j] == entries[j]);
            }
        }
        assert forall|j: int| 0 <= j < earliest(entries, now) implies now.offset_to(
            entries[earliest(entries, now)].deadline,
        ) < now.offset_to(#[trigger] entries[j].deadline) by {
            assert(front[j] == entries[j]);
        }
    }
}

/// Once the due registrations have fired, none that is left is due, and
/// what is left was there before.
pub proof fn lemma_after_expiry(entries: Seq<TimerDeadline>, now: Instant)
    ensures
        forall|j: int|
            0 <= j < after_expiry(entries, now).len() ==> !now.reached(
                #[trigger] after_expiry(entries, now)[j].deadline,
            ),
        forall|e: TimerDeadline| #[trigger]
            after_expiry(entries, now).contains(e) ==> entries.contains(e),
        after_expiry(entries, now).len() + fired(entries, now).len() == entries.len(),
    decreases entries.len(),
{
    if any_due(entries, now) {
        let k = earliest(entries, now);
        lemma_earliest(entries, now);
        let rest = entries.remove(k);
        lemma_after_expiry(rest, now);
        assert forall|e: TimerDeadline| #[trigger]
            after_expiry(entries, now).contains(e) implies entries.contains(e) by {
            assert(rest.contains(e));
            let i = choose|i: int| 0 <= i < rest.len() && rest[i] == e;
            if i < k {
                assert(entries[i] == e);
            } else {
                assert(entries[i + 1] == e);
            }
        }
    } else if entries.len() > 0 {
        lemma_earliest(entries, now);
    }
}

/// The state of the timer service: its registrations, in the order in
/// which they were made, and how many it can hold.
pub struct TimerQueueView {
    pub entries: Seq<TimerDeadline>,
    pub capacity: nat,
}

impl TimerQueueView {
    pub open spec fn wf(self) -> bool {
        &&& self.entries.no_duplicates()
        &&& self.entries.len() <= self.capacity
    }

    /// What a request to register `e` answers: it is refused only where
    /// `e` is new and the service is full.
    pub open spec fn schedule_answer(self, e: TimerDeadline) -> Result<(), Error> {
        if !self.entries.contains(e) && self.entries.len() >= self.capacity {
            Err(
                Error::CapacityExceeded {
                    resource: Resource::Timers,
                    limit: self.capacity as usize,
                },
            )
        } else {
            Ok(())
        }
    }

    /// The state after a request to register `e`.
    pub open spec fn scheduled(self, e: TimerDeadline) -> Self {
        if self.entries.contains(e) || self.entries.len() >= self.capacity {
            self
        } else {
            TimerQueueView { entries: self.entries.push(e), capacity: self.capacity }
        }
    }

    /// The state after the registration `e` is withdrawn.
    pub open spec fn cancelled(self, e: TimerDeadline) -> Self {
        if self.entries.contains(e) {
            TimerQueueView {
                entries: self.entries.remove(self.entries.index_of(e)),
                capacity: self.capacity,
            }
        } else {
            self
        }
    }

    /// The waker that fires next at `now`, if a registration is due.
    pub open spec fn due(self, now: Instant) -> Option<Waker> {
        if any_due(self.entries, now) {
            Some(self.entries[earliest(self.entries, now)].waker)
        } else {
            None
        }
    }

    /// The state after the registration that fires next at `now` is taken
    /// out.
    pub open spec fn popped(self, now: Instant) -> Self {
        if any_due(self.entries, now) {
            TimerQueueView {
                entries: self.entries.remove(earliest(self.entries, now)),
                capacity: self.capacity,
            }
        } else {
            self
        }
    }

    /// The deadline that the service has to serve next, seen from `now`.
    pub open spec fn next_deadline(self, now: Instant) -> Option<Instant> {
        if self.entries.len() > 0 {
            Some(self.entries[earliest(self.entries, now)].deadline)
        } else {
            None
        }
    }
}

/// A registration that was withdrawn is held no longer.
pub proof fn lemma_cancelled_is_gone(q: TimerQueueView, e: TimerDeadline)
    requires
        q.wf(),
    ensures
        q.cancelled(e).wf(),
        !q.cancelled(e).entries.contains(e),
        forall|x: TimerDeadline|
            x != e ==> q.cancelled(e).entries.contains(x) == q.entries.contains(x),
{
    if q.entries.contains(e) {
        let k = q.entries.index_of(e);
        lemma_remove_no_duplicates(q.entries, k);
        lemma_remove_contains(q.entries, k, e);
        assert forall|x: TimerDeadline| x != e implies q.cancelled(e).entries.contains(x)
            == q.entries.contains(x) by {
            lemma_remove_contains(q.entries, k, x);
        }
    }
}

/// A registration that is not held does not fire: no expiry, at whatever
/// time, wakes through it.
pub proof fn lemma_absent_never_fires(entries: Seq<TimerDeadline>, now: Instant, w: Waker)
    requires
        forall|j: int| 0 <= j < entries.len() ==> (#[trigger] entries[j]).waker != w,
    ensures
        !fired(entries, now).contains(w),
    decreases entries.len(),
{
    if any_due(entries, now) {
        let k = earliest(entries, now);
        lemma_earliest(entries, now);
        let rest = entries.remove(k);
        assert forall|j: int| 0 <= j < rest.len() implies (#[trigger] rest[j]).waker != w by {
            if j < k {
                assert(rest[j] == entries[j]);
            } else {
                assert(rest[j] == entries[j + 1]);
            }
        }
        lemma_absent_never_fires(rest, now, w);
        let head = seq![entries[k].waker];
        let tail = fired(rest, now);
        if (head + tail).contains(w) {
            let i = choose|i: int| 0 <= i < (head + tail).len() && (head + tail)[i] == w;
            if i == 0 {
                assert(entries[k].waker == w);
            } else {
                assert(tail[i - 1] == w);
            }
        }
    }
}

pub struct TimerQueue {
    entries: Ring<TimerDeadline>,
}

impl View for TimerQueue {
    type V = TimerQueueView;

    closed spec fn view(&self) -> TimerQueueView {
        TimerQueueView { entries: self.entries@, capacity: self.entries.cap() }
    }
}

impl TimerQueue {
    /// The state is well formed and the representation sound.
    pub open spec fn wf(&self) -> bool {
        &&& self.inv()
        &&& self@.wf()
        &&& self@.capacity <= usize::MAX
    }

    /// The invariant of the representation.
    pub closed spec fn inv(&self) -> bool {
        self.entries.wf()
    }

    /// A timer service for up to `capacity` registrations.
    pub fn new(capacity: usize) -> (q: Self)
        ensures
            q.wf(),
            q@.entries == Seq::<TimerDeadline>::empty(),
            q@.capacity == capacity,
    {
        TimerQueue { entries: Ring::new(capacity) }
    }

    pub fn len(&self) -> (n: usize)
        requires
            self.wf(),
        ensures
            n == self@.entries.len(),
    {
        self.entries.len()
    }

    /// The index at which `e` is held.
    fn find(&self, e: TimerDeadline) -> (at: Option<usize>)
        requires
            self.wf(),
        ensures
            match at {
                Some(k) => k < self@.entries.len() && self@.entries[k as int] == e
                    && self@.entries.contains(e) && self@.entries.index_of(e) == k,
                None => !self@.entries.contains(e),
            },
    {
        let n: usize = self.entries.len();
        let mut k: usize = 0;
        while k < n
            invariant
                self.wf(),
                n == self@.entries.len(),
                k <= n,
                forall|j: int| 0 <= j < k ==> self@.entries[j] != e,
            decreases n - k,
        {
            let x: TimerDeadline = self.entries.get(k);
            if x.deadline.ticks == e.deadline.ticks && x.waker.same(&e.waker) {
                return Some(k);
            }
            k = k + 1;
        }
        None
    }

    /// The index of the registration to fire first.
    fn first(&self, now: Instant) -> (k: usize)
        requires
            self.wf(),
            self@.entries.len() > 0,
        ensures
            k == earliest(self@.entries, now),
            k < self@.entries.len(),
    {
        let n: usize = self.entries.len();
        let mut best: usize = 0;
        let mut k: usize = 1;
        assert(self@.entries.subrange(0, 1).len() == 1);
        while k < n
            invariant
                self.wf(),
                n == self@.entries.len(),
                1 <= k <= n,
                best < k,
                best == earliest(self@.entries.subrange(0, k as int), now),
            decreases n - k,
        {
            let cand: Instant = self.entries.get(k).deadline;
            let held: Instant = self.entries.get(best).deadline;
            proof {
                let next = self@.entries.subrange(0, k as int + 1);
                assert(next.drop_last() =~= self@.entries.subrange(0, k as int));
                assert(next.last() == self@.entries[k as int]);
                assert(next[best as int] == self@.entries[best as int]);
            }
            if now.comes_before(cand, held) {
                best = k;
            }
            k = k + 1;
        }
        assert(self@.entries.subrange(0, n as int) =~= self@.entries);
        best
    }

    /// Registers `deadline` for `waker`. A registration that is held
    /// already is not made twice. Fails with `CapacityExceeded` where the
    /// registration is new and the service is full.
    pub fn schedule(&mut self, deadline: Instant, waker: Waker) -> (r: Result<(), Error>)
        requires
            old(self).wf(),
        ensures
            final(self).wf(),
            r == old(self)@.schedule_answer(TimerDeadline { deadline, waker }),
            final(self)@ == old(self)@.scheduled(TimerDeadline { deadline, waker }),
    {
        let e = TimerDeadline { deadline, waker };
        if self.find(e).is_some() {
            return Ok(());
        }
        if self.entries.is_full() {
            return Err(
                Error::CapacityExceeded {
                    resource: Resource::Timers,
                    limit: self.entries.capacity(),
                },
            );
        }
        self.entries.push_back(e);
        proof {
            let before = old(self)@.entries;
            assert forall|i: int, j: int|
                0 <= i < self@.entries.len() && 0 <= j < self@.entries.len() && i
                    != j implies self@.entries[i] != self@.entries[j] by {
                if i < before.len() && j < before.len() {
                    assert(before[i] != before[j]);
                } else if i < before.len() {
                    assert(before.contains(before[i]));
                } else {
                    assert(before.contains(before[j]));
                }
            }
        }
        Ok(())
    }

    /// Withdraws the registration of `deadline` for `waker`. Returns
    /// whether it was held.
    pub fn cancel(&mut self, deadline: Instant, waker: Waker) -> (held: bool)
        requires
            old(self).wf(),
        ensures
            final(self).wf(),
            held == old(self)@.entries.contains(TimerDeadline { deadline, waker }),
            final(self)@ == old(self)@.cancelled(TimerDeadline { deadline, waker }),
            !final(self)@.entries.contains(TimerDeadline { deadline, waker }),
    {
        let e = TimerDeadline { deadline, waker };
        proof {
            lemma_cancelled_is_gone(self@, e);
        }
        match self.find(e) {
            Some(k) => {
                let _ = self.entries.remove_at(k);
                true
            },
            None => false,
        }
    }

    /// Takes out the registration that fires next at `now` and returns
    /// its waker, or `None` where no registration is due.
    pub fn pop_due(&mut self, now: Instant) -> (w: Option<Waker>)
        requires
            old(self).wf(),
        ensures
            final(self).wf(),
            w == old(self)@.due(now),
            final(self)@ == old(self)@.popped(now),
    {
        if self.entries.is_empty() {
            return None;
        }
        let k: usize = self.first(now);
        let e: TimerDeadline = self.entries.get(k);
        if now.has_reached(e.deadline) {
            proof {
                lemma_remove_no_duplicates(self@.entries, k as int);
            }
            let _ = self.entries.remove_at(k);
            Some(e.waker)
        } else {
            None
        }
    }

    /// Fires every registration that is due at `now` and returns the
    /// wakers in the order of firing.
    pub fn expire(&mut self, now: Instant) -> (woken: Vec<Waker>)
        requires
            old(self).wf(),
        ensures
            final(self).wf(),
            woken@ == fired(old(self)@.entries, now),
            final(self)@.entries == after_expiry(old(self)@.entries, now),
            final(self)@.capacity == old(self)@.capacity,
    {
        let mut woken: Vec<Waker> = Vec::new();
        loop
            invariant
                self.wf(),
                self@.capacity == old(self)@.capacity,
                woken@ + fired(self@.entries, now) == fired(old(self)@.entries, now),
                after_expiry(self@.entries, now) == after_expiry(old(self)@.entries, now),
            ensures
                self.wf(),
                self@.capacity == old(self)@.capacity,
                woken@ == fired(old(self)@.entries, now),
                self@.entries == after_expiry(old(self)@.entries, now),
            decreases self@.entries.len(),
        {
            let ghost cur = self@.entries;
            let ghost sofar = woken@;
            match self.pop_due(now) {
                Some(w) => {
                    woken.push(w);
                    proof {
                        lemma_earliest(cur, now);
                        let rest = cur.remove(earliest(cur, now));
                        assert(fired(cur, now) == seq![w] + fired(rest, now));
                        assert(sofar.push(w) + fired(rest, now) =~= sofar + fired(cur, now));
                    }
                },
                None => {
                    proof {
                        assert(fired(cur, now) =~= Seq::<Waker>::empty());
                        assert(sofar + fired(cur, now) =~= sofar);
                    }
                    break ;
                },
            }
        }
        woken
    }

    /// The deadline that the service has to serve next, seen from `now`:
    /// how long an idle context may sleep.
    pub fn next_deadline(&self, now: Instant) -> (d: Option<Instant>)
        requires
            self.wf(),
        ensures
            d == self@.next_deadline(now),
    {
        if self.entries.is_empty() {
            None
        } else {
            let k: usize = self.first(now);
            Some(self.entries.get(k).deadline)
        }
    }
}

} // verus!
