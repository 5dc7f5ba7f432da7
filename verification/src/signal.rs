//! A one-slot signal: the latest value for a single waiting task.
//!
//! A signal holds at most one value. Signalling again before the value is
//! taken replaces it: nothing is queued. One task may wait at a time; a
//! second task that waits while the first is still registered is refused
//! with [`Error::DoubleWait`], and the first stays registered. A wait
//! that finds a value completes at once, without suspending.

use vstd::prelude::*;
use crate::error::Error;
use crate::task::{Poll, Waker};

verus! {

/// What a signal holds: the value not yet taken and the task waiting for
/// one.
pub struct SignalView<T> {
    pub value: Option<T>,
    pub waiter: Option<Waker>,
}

impl<T> SignalView<T> {
    pub open spec fn empty() -> Self {
        SignalView { value: None, waiter: None }
    }

    /// The signal after `value` is signalled: the value replaces what was
    /// there, and the waiter, who is woken, is no longer registered.
    pub open spec fn signalled(self, value: T) -> Self {
        SignalView { value: Some(value), waiter: None }
    }

    /// The signal after each value of `values` is signalled in turn.
    pub open spec fn signalled_all(self, values: Seq<T>) -> Self
        decreases values.len(),
    {
        if values.len() == 0 {
            self
        } else {
            self.signalled_all(values.drop_last()).signalled(values.last())
        }
    }

    /// Whether `waker` may wait: nobody else is registered.
    pub open spec fn admits(self, waker: Waker) -> bool {
        self.waiter is None || self.waiter == Some(waker)
    }

    /// The signal after `waker` has waited on it once.
    pub open spec fn waited(self, waker: Waker) -> Self {
        if self.value is Some {
            SignalView { value: None, waiter: None }
        } else if self.admits(waker) {
            SignalView { value: None, waiter: Some(waker) }
        } else {
            self
        }
    }

    /// What one wait by `waker` answers.
    pub open spec fn wait_answer(self, waker: Waker) -> Result<Poll<T>, Error> {
        match self.value {
            Some(v) => Ok(Poll::Ready(v)),
            None => if self.admits(waker) {
                Ok(Poll::Pending)
            } else {
                Err(Error::DoubleWait)
            },
        }
    }

    /// The signal after `waker` has withdrawn its wait.
    pub open spec fn cancelled(self, waker: Waker) -> Self {
        if self.waiter == Some(waker) {
            SignalView { value: self.value, waiter: None }
        } else {
            self
        }
    }
}

pub struct Signal<T> {
    value: Option<T>,
    waiter: Option<Waker>,
}

impl<T> View for Signal<T> {
    type V = SignalView<T>;

    closed spec fn view(&self) -> SignalView<T> {
        SignalView { value: self.value, waiter: self.waiter }
    }
}

impl<T> Signal<T> {
    pub fn new() -> (s: Self)
        ensures
            s@ == SignalView::<T>::empty(),
    {
        Signal { value: None, waiter: None }
    }

    /// Stores `value` over whatever was there and returns the waiter to
    /// wake, if one was registered. Never suspends.
    pub fn signal(&mut self, value: T) -> (woken: Option<Waker>)
        ensures
            final(self)@ == old(self)@.signalled(value),
            woken == old(self)@.waiter,
    {
        self.value = Some(value);
        self.waiter.take()
    }

    /// One attempt to take the value. With a value present it is taken and
    /// returned. Without one, `waker` is registered and the answer is
    /// `Pending`, unless another task is registered already: then the
    /// answer is `DoubleWait` and nothing changes.
    pub fn poll_wait(&mut self, waker: Waker) -> (r: Result<Poll<T>, Error>)
        ensures
            r == old(self)@.wait_answer(waker),
            final(self)@ == old(self)@.waited(waker),
    {
        match self.value.take() {
            Some(v) => {
                self.waiter = None;
                Ok(Poll::Ready(v))
            },
            None => {
                match self.waiter {
                    Some(w) => {
                        if w.same(&waker) {
                            Ok(Poll::Pending)
                        } else {
                            Err(Error::DoubleWait)
                        }
                    },
                    None => {
                        self.waiter = Some(waker);
                        Ok(Poll::Pending)
                    },
                }
            },
        }
    }

    /// Withdraws the wait of `waker`, if it is the one registered. A value
    /// already stored stays.
    pub fn cancel_wait(&mut self, waker: Waker)
        ensures
            final(self)@ == old(self)@.cancelled(waker),
    {
        match self.waiter {
            Some(w) => {
                if w.same(&waker) {
                    self.waiter = None;
                }
            },
            None => {},
        }
    }

    /// Takes the value, if there is one, without registering anybody.
    pub fn try_take(&mut self) -> (v: Option<T>)
        ensures
            v == old(self)@.value,
            final(self)@.value is None,
            final(self)@.waiter == old(self)@.waiter,
    {
        self.value.take()
    }

    /// The value that is waiting to be taken, left where it is.
    pub fn peek(&self) -> (v: Option<&T>)
        ensures
            match v {
                Some(r) => self@.value == Some(*r),
                None => self@.value is None,
            },
    {
        self.value.as_ref()
    }

    /// Whether a value is waiting to be taken.
    pub fn signaled(&self) -> (b: bool)
        ensures
            b == (self@.value is Some),
    {
        self.value.is_some()
    }
}

/// However many values were signalled since the last wait, and whatever
/// the signal held before, the next wait answers with the last of them
/// alone, and after it the signal is empty.
pub proof fn lemma_last_signal_wins<T>(s: SignalView<T>, values: Seq<T>, waker: Waker)
    requires
        values.len() > 0,
    ensures
        s.signalled_all(values).wait_answer(waker) == Ok::<Poll<T>, Error>(Poll::Ready(values.last())),
        s.signalled_all(values).waited(waker) == SignalView::<T>::empty(),
        s.signalled_all(values).waited(waker).wait_answer(waker) == Ok::<Poll<T>, Error>(Poll::Pending),
{
}

} // verus!
