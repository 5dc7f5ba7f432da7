//! An edge-triggered input as a suspension source.
//!
//! The driver of the input reports each rising edge; a task waits for the
//! next one. An edge that nobody waits for is not remembered: a wait that
//! starts after it sees the edge after that.

use vstd::prelude::*;
use crate::error::Error;
use crate::task::{Poll, Waker};

verus! {

/// An input line on which one task at a time waits for a rising edge.
#[derive(Clone, Copy, Debug, PartialEq, Eq, Structural)]
pub struct EdgeInput {
    /// The task that waits for the next edge.
    pub waiter: Option<Waker>,
    /// The task whose edge has come and that has yet to learn of it.
    pub fired_for: Option<Waker>,
}

impl EdgeInput {
    pub open spec fn idle() -> EdgeInput {
        EdgeInput { waiter: None, fired_for: None }
    }

    /// The input after a rising edge: the edge belongs to whoever waited.
    pub open spec fn risen(self) -> EdgeInput {
        match self.waiter {
            Some(w) => EdgeInput { waiter: None, fired_for: Some(w) },
            None => self,
        }
    }

    /// What a wait by `waker` answers.
    pub open spec fn wait_answer(self, waker: Waker) -> Result<Poll<()>, Error> {
        if self.fired_for == Some(waker) {
            Ok(Poll::Ready(()))
        } else if self.waiter is Some && self.waiter != Some(waker) {
            Err(Error::DoubleWait)
        } else {
            Ok(Poll::Pending)
        }
    }

    /// The input after a wait by `waker`.
    pub open spec fn waited(self, waker: Waker) -> EdgeInput {
        if self.fired_for == Some(waker) {
            EdgeInput { waiter: self.waiter, fired_for: None }
        } else if self.waiter is Some && self.waiter != Some(waker) {
            self
        } else {
            EdgeInput { waiter: Some(waker), fired_for: self.fired_for }
        }
    }

    /// The input after `waker` has given its wait up.
    pub open spec fn cancelled(self, waker: Waker) -> EdgeInput {
        EdgeInput {
            waiter: if self.waiter == Some(waker) { None } else { self.waiter },
            fired_for: if self.fired_for == Some(waker) { None } else { self.fired_for },
        }
    }

    pub fn new() -> (e: EdgeInput)
        ensures
            e == EdgeInput::idle(),
    {
        EdgeInput { waiter: None, fired_for: None }
    }

    /// Reports a rising edge. Returns the task to wake, if one waited.
    pub fn on_rising_edge(&mut self) -> (woken: Option<Waker>)
        ensures
            *final(self) == old(self).risen(),
            woken == old(self).waiter,
    {
        match self.waiter {
            Some(w) => {
                self.waiter = None;
                self.fired_for = Some(w);
                Some(w)
            },
            None => None,
        }
    }

    /// One attempt of `waker` to see a rising edge. Where its edge has
    /// come the wait completes. Otherwise `waker` is registered for the
    /// next edge, unless another task is: then the answer is `DoubleWait`
    /// and nothing changes.
    pub fn poll_rising_edge(&mut self, waker: Waker) -> (r: Result<Poll<()>, Error>)
        ensures
            r == old(self).wait_answer(waker),
            *final(self) == old(self).waited(waker),
    {
        let mine: bool = match self.fired_for {
            Some(w) => w.same(&waker),
            None => false,
        };
        if mine {
            self.fired_for = None;
            return Ok(Poll::Ready(()));
        }
        match self.waiter {
            Some(w) => {
                if w.same(&waker) {
                    Ok(Poll::Pending)
                } else {
                    Err(Error::DoubleWait)
                }
            },
            None => {
                self.waiter = Some(waker);
                Ok(Poll::Pending)
            },
        }
    }

    /// Gives the wait of `waker` up, and an edge that has come for it.
    pub fn cancel_wait(&mut self, waker: Waker)
        ensures
            *final(self) == old(self).cancelled(waker),
    {
        match self.waiter {
            Some(w) => {
                if w.same(&waker) {
                    self.waiter = None;
                }
            },
            None => {},
        }
        match self.fired_for {
            Some(w) => {
                if w.same(&waker) {
                    self.fired_for = None;
                }
            },
            None => {},
        }
    }
}

} // verus!
