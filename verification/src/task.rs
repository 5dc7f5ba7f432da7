//! What a primitive knows of a task: how to mark it runnable again, and
//! what a task answers when it is resumed.

use vstd::prelude::*;

verus! {

/// The capability to mark one suspended task runnable again: the task's
/// slot and the execution context that owns the slot.
#[derive(Clone, Copy, Debug, PartialEq, Eq, Structural)]
pub struct Waker {
    pub context: usize,
    pub task: usize,
}

/// The answer of one attempt to make progress.
#[derive(Debug, PartialEq, Eq)]
pub enum Poll<T> {
    /// The operation is complete, with this result.
    Ready(T),
    /// The caller is registered with the source and must suspend.
    Pending,
}

impl Waker {
    pub fn new(context: usize, task: usize) -> (w: Waker)
        ensures
            w.context == context,
            w.task == task,
    {
        Waker { context, task }
    }

    /// Whether two wakers stand for the same task.
    pub fn same(&self, other: &Waker) -> (r: bool)
        ensures
            r == (*self == *other),
    {
        self.context == other.context && self.task == other.task
    }
}

/// The wakers of an optional waiter: one or none.
pub open spec fn wake_seq(w: Option<Waker>) -> Seq<Waker> {
    match w {
        Some(w) => seq![w],
        None => Seq::empty(),
    }
}

/// The answer of a turn that ended on the error `failed`, or on none.
pub open spec fn answer_of(failed: Option<crate::error::Error>) -> Result<(), crate::error::Error> {
    match failed {
        Some(e) => Err(e),
        None => Ok(()),
    }
}

/// What a task's turn leaves for its surroundings to carry out: the tasks
/// to mark runnable, in order, and the events to report, in order.
pub struct Effects<E> {
    pub woken: Vec<Waker>,
    pub log: Vec<E>,
}

impl<E> Effects<E> {
    pub fn new() -> (fx: Self)
        ensures
            fx.woken@ == Seq::<Waker>::empty(),
            fx.log@ == Seq::<E>::empty(),
    {
        Effects { woken: Vec::new(), log: Vec::new() }
    }

    /// Adds the waiter that a primitive handed back, if it handed one.
    pub fn wake(&mut self, w: Option<Waker>)
        ensures
            final(self).woken@ == old(self).woken@ + wake_seq(w),
            final(self).log@ == old(self).log@,
    {
        match w {
            Some(w) => {
                self.woken.push(w);
                assert(self.woken@ =~= old(self).woken@ + wake_seq(Some(w)));
            },
            None => {
                assert(self.woken@ =~= old(self).woken@ + wake_seq(None));
            },
        }
    }

    /// Adds the waiters that a primitive handed back.
    pub fn wake_all(&mut self, ws: Vec<Waker>)
        ensures
            final(self).woken@ == old(self).woken@ + ws@,
            final(self).log@ == old(self).log@,
    {
        let mut ws = ws;
        self.woken.append(&mut ws);
    }

    /// Adds an event.
    pub fn note(&mut self, e: E)
        ensures
            final(self).woken@ == old(self).woken@,
            final(self).log@ == old(self).log@.push(e),
    {
        self.log.push(e);
    }
}

} // verus!
