//! The run loop's two halves: what a core does before it resumes a task
//! and after the task has suspended.
//!
//! Before: the deadlines that are due fire and wake their tasks, then the
//! core takes its next runnable task. After: the tasks that the resumed
//! task woke are marked runnable. A core without a runnable task is idle
//! and may sleep until the next deadline or interrupt.

use vstd::prelude::*;
use crate::context::{next_on, picked, same_topology, woken_all, ContextSet, ContextView};
use crate::task::Waker;
use crate::time::Instant;
use crate::timer::{after_expiry, fired, TimerQueue, TimerQueueView};

verus! {

/// What one pass of a core's run loop did.
pub struct Turn<E> {
    /// The task that was resumed, if the core had one to run.
    pub ran: Option<Waker>,
    /// What the task reported, in order.
    pub log: Vec<E>,
    /// The error on which the task's turn ended, if it ended on one.
    pub failed: Option<crate::error::Error>,
    /// For an idle core, the deadline to sleep until, if one is pending.
    pub sleep_until: Option<Instant>,
}

/// The contexts and the timer service of one machine.
pub struct Runtime {
    pub contexts: ContextSet,
    pub timers: TimerQueue,
}

/// The state of the contexts and of the timer service.
pub struct RuntimeView {
    pub contexts: Seq<ContextView>,
    pub timers: TimerQueueView,
}

impl RuntimeView {
    /// The contexts once the deadlines due at `now` have fired.
    pub open spec fn fired_contexts(self, now: Instant) -> Seq<ContextView> {
        woken_all(self.contexts, fired(self.timers.entries, now))
    }

    /// The task that `core` resumes at `now`.
    pub open spec fn turn_of(self, core: usize, now: Instant) -> Option<Waker> {
        next_on(self.fired_contexts(now), core)
    }

    /// The state once `core` has begun its turn at `now`.
    pub open spec fn begun(self, core: usize, now: Instant) -> Self {
        RuntimeView {
            contexts: picked(self.fired_contexts(now), core),
            timers: TimerQueueView {
                entries: after_expiry(self.timers.entries, now),
                capacity: self.timers.capacity,
            },
        }
    }

    /// The state once the tasks in `woken` are marked runnable.
    pub open spec fn finished(self, woken: Seq<Waker>) -> Self {
        RuntimeView { contexts: woken_all(self.contexts, woken), timers: self.timers }
    }
}

impl View for Runtime {
    type V = RuntimeView;

    open spec fn view(&self) -> RuntimeView {
        RuntimeView { contexts: self.contexts@, timers: self.timers@ }
    }
}

impl Runtime {
    pub open spec fn wf(&self) -> bool {
        self.contexts.wf() && self.timers.wf()
    }

    /// A machine without contexts whose timer service holds up to
    /// `timers` deadlines.
    pub fn new(timers: usize) -> (rt: Self)
        ensures
            rt.wf(),
            rt@.contexts == Seq::<ContextView>::empty(),
            rt@.timers.entries == Seq::<crate::timer::TimerDeadline>::empty(),
            rt@.timers.capacity == timers,
    {
        Runtime { contexts: ContextSet::new(), timers: TimerQueue::new(timers) }
    }

    /// Begins a turn of `core` at `now`: fires the deadlines that are due
    /// and takes the core's next runnable task off its queue. `None`
    /// where the core is idle.
    pub fn begin_turn(&mut self, core: usize, now: Instant) -> (w: Option<Waker>)
        requires
            old(self).wf(),
        ensures
            final(self).wf(),
            w == old(self)@.turn_of(core, now),
            final(self)@ == old(self)@.begun(core, now),
            same_topology(old(self)@.contexts, final(self)@.contexts),
    {
        let due = self.timers.expire(now);
        self.contexts.wake_all(&due);
        self.contexts.pick(core)
    }

    /// Ends a turn: marks the tasks in `woken` runnable, in their order.
    pub fn finish_turn(&mut self, woken: &Vec<Waker>)
        requires
            old(self).wf(),
        ensures
            final(self).wf(),
            final(self)@ == old(self)@.finished(woken@),
            same_topology(old(self)@.contexts, final(self)@.contexts),
    {
        self.contexts.wake_all(woken);
    }

    /// The deadline until which an idle core may sleep, seen from `now`.
    pub fn sleep_until(&self, now: Instant) -> (d: Option<Instant>)
        requires
            self.wf(),
        ensures
            d == self@.timers.next_deadline(now),
    {
        self.timers.next_deadline(now)
    }
}

} // verus!
