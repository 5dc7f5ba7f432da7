//! Racing two suspension sources: select, and a wait with a time limit.
//!
//! The first source is asked first and wins a tie. Whoever loses is
//! retracted from its source before the winner's result is handed out, so
//! that no wake of the loser can reach the task later.

use vstd::prelude::*;
use crate::delay::Timer;
use crate::error::Error;
use crate::pubsub::{PubSubChannel, WaitResult};
use crate::signal::Signal;
use crate::task::{Poll, Waker};
use crate::time::{Duration, Instant};
use crate::timer::{
    fired, lemma_absent_never_fires, lemma_cancelled_is_gone, TimerDeadline, TimerQueue,
    TimerQueueView,
};
use crate::watch::Watch;

verus! {

/// The result of the source that completed first.
#[derive(Debug, PartialEq, Eq)]
pub enum Either<A, B> {
    First(A),
    Second(B),
}

/// The time limit ran out before the operation completed.
#[derive(Clone, Copy, Debug, PartialEq, Eq, Structural)]
pub struct TimeoutError;

/// How a race against the clock stands.
#[derive(Debug, PartialEq, Eq)]
pub enum Race<T> {
    /// The operation completed in time.
    Won(T),
    /// The time limit ran out.
    Lost,
    /// Neither has happened yet.
    Running,
}

/// What a race of two sources answers, the first asked first.
pub open spec fn select_answer<A, B>(first: Poll<A>, second: Poll<B>) -> Poll<Either<A, B>> {
    match first {
        Poll::Ready(a) => Poll::Ready(Either::First(a)),
        Poll::Pending => match second {
            Poll::Ready(b) => Poll::Ready(Either::Second(b)),
            Poll::Pending => Poll::Pending,
        },
    }
}

/// Decides a race of two sources from what each answered.
pub fn select<A, B>(first: Poll<A>, second: Poll<B>) -> (r: Poll<Either<A, B>>)
    ensures
        r == select_answer(first, second),
{
    match first {
        Poll::Ready(a) => Poll::Ready(Either::First(a)),
        Poll::Pending => match second {
            Poll::Ready(b) => Poll::Ready(Either::Second(b)),
            Poll::Pending => Poll::Pending,
        },
    }
}

/// What a wait for two sources answers: both results once both are there.
pub open spec fn join_answer<A, B>(first: Option<A>, second: Option<B>) -> Poll<(A, B)> {
    match (first, second) {
        (Some(a), Some(b)) => Poll::Ready((a, b)),
        _ => Poll::Pending,
    }
}

/// Decides a wait for two sources from the results that are in.
pub fn join<A, B>(first: Option<A>, second: Option<B>) -> (r: Poll<(A, B)>)
    ensures
        r == join_answer(first, second),
{
    match first {
        Some(a) => match second {
            Some(b) => Poll::Ready((a, b)),
            None => Poll::Pending,
        },
        None => Poll::Pending,
    }
}

/// What a race against the clock hands to the task.
pub open spec fn outcome<T>(race: Race<T>) -> Poll<Result<T, TimeoutError>> {
    match race {
        Race::Won(v) => Poll::Ready(Ok(v)),
        Race::Lost => Poll::Ready(Err(TimeoutError)),
        Race::Running => Poll::Pending,
    }
}

/// Once a race is decided and the limit's registration withdrawn, no
/// expiry at whatever later time wakes the task through it: where the
/// limit was the task's only registration, the timer service does not
/// wake the task at all.
pub proof fn lemma_no_wake_after_race(
    q: TimerQueueView,
    limit: TimerDeadline,
    later: Instant,
)
    requires
        q.wf(),
        forall|i: int|
            0 <= i < q.entries.len() && (#[trigger] q.entries[i]).waker == limit.waker
                ==> q.entries[i] == limit,
    ensures
        !fired(q.cancelled(limit).entries, later).contains(limit.waker),
{
    lemma_cancelled_is_gone(q, limit);
    let rest = q.cancelled(limit).entries;
    assert forall|j: int| 0 <= j < rest.len() implies (#[trigger] rest[j]).waker
        != limit.waker by {
        assert(rest.contains(rest[j]));
        if rest[j].waker == limit.waker {
            assert(q.entries.contains(rest[j]));
            let i = choose|i: int| 0 <= i < q.entries.len() && q.entries[i] == rest[j];
            assert(q.entries[i].waker == limit.waker);
        }
    }
    lemma_absent_never_fires(rest, later, limit.waker);
}

/// A time limit on one operation.
#[derive(Clone, Copy, Debug, PartialEq, Eq, Structural)]
pub struct Timeout {
    pub timer: Timer,
}

impl Timeout {
    /// A limit of `limit`, counted from `now`.
    pub fn new(now: Instant, limit: Duration) -> (t: Timeout)
        ensures
            t.timer == (Timer { deadline: now.plus(limit), yielded: false }),
    {
        Timeout { timer: Timer::after(now, limit) }
    }

    /// The limit once its task has suspended on it.
    pub open spec fn armed(self) -> Timeout {
        Timeout { timer: Timer { yielded: true, ..self.timer } }
    }

    /// The limit after an attempt at `now` in which the operation did or
    /// did not complete and the timer service did or did not take the
    /// limit's registration.
    pub open spec fn after_attempt(self, completed: bool, now: Instant, taken: bool) -> Timeout {
        if !completed && !self.timer.done(now) && taken {
            self.armed()
        } else {
            self
        }
    }

    /// Decides the race at `now` from what the operation answered. An
    /// operation that completed wins, also where the limit has run out
    /// too, and the limit's registration is withdrawn. Otherwise the clock
    /// is asked: the race is lost once the limit's timer completes, and
    /// running while it is registered. An error of the timer service is
    /// passed on.
    pub fn settle<T>(
        &mut self,
        inner: Poll<T>,
        now: Instant,
        queue: &mut TimerQueue,
        waker: Waker,
    ) -> (r: Result<Race<T>, Error>)
        requires
            old(queue).wf(),
        ensures
            final(queue).wf(),
            final(self).timer.deadline == old(self).timer.deadline,
            match inner {
                Poll::Ready(v) => {
                    &&& r == Ok::<Race<T>, Error>(Race::Won(v))
                    &&& *final(self) == *old(self)
                    &&& final(queue)@ == old(queue)@.cancelled(old(self).timer.entry(waker))
                    &&& !final(queue)@.entries.contains(old(self).timer.entry(waker))
                },
                Poll::Pending => if old(self).timer.done(now) {
                    &&& r == Ok::<Race<T>, Error>(Race::Lost)
                    &&& *final(self) == *old(self)
                    &&& final(queue)@ == old(queue)@.cancelled(old(self).timer.entry(waker))
                    &&& !final(queue)@.entries.contains(old(self).timer.entry(waker))
                } else {
                    &&& final(queue)@ == old(queue)@.scheduled(old(self).timer.entry(waker))
                    &&& match old(queue)@.schedule_answer(old(self).timer.entry(waker)) {
                        Ok(_) => r == Ok::<Race<T>, Error>(Race::Running) && *final(self)
                            == old(self).armed(),
                        Err(e) => r == Err::<Race<T>, Error>(e) && *final(self) == *old(self),
                    }
                },
            },
    {
        match inner {
            Poll::Ready(v) => {
                self.timer.cancel(queue, waker);
                Ok(Race::Won(v))
            },
            Poll::Pending => {
                match self.timer.poll(now, queue, waker) {
                    Ok(Poll::Ready(_)) => Ok(Race::Lost),
                    Ok(Poll::Pending) => Ok(Race::Running),
                    Err(e) => Err(e),
                }
            },
        }
    }

    /// One attempt of subscriber `id` to read before the limit runs out.
    /// A message or a lag report that is there is handed out and the
    /// limit's registration withdrawn. Once the limit has run out the
    /// answer is `TimeoutError` and the subscriber waits no longer.
    pub fn poll_next_message<T: Copy>(
        &mut self,
        channel: &mut PubSubChannel<T>,
        id: usize,
        now: Instant,
        queue: &mut TimerQueue,
        waker: Waker,
    ) -> (r: Result<Poll<Result<WaitResult<T>, TimeoutError>>, Error>)
        requires
            old(queue).wf(),
            old(channel).wf(),
        ensures
            final(queue).wf(),
            final(channel).wf(),
            *final(self) == old(self).after_attempt(
                old(channel)@.next_answer(id) != Poll::<WaitResult<T>>::Pending,
                now,
                old(queue)@.schedule_answer(old(self).timer.entry(waker)) is Ok,
            ),
            match old(channel)@.next_answer(id) {
                Poll::Ready(m) => {
                    &&& r == Ok::<Poll<Result<WaitResult<T>, TimeoutError>>, Error>(
                        Poll::Ready(Ok(m)),
                    )
                    &&& final(channel)@ == old(channel)@.after_next(id, waker)
                    &&& final(queue)@ == old(queue)@.cancelled(old(self).timer.entry(waker))
                    &&& !final(queue)@.entries.contains(old(self).timer.entry(waker))
                },
                Poll::Pending => if old(self).timer.done(now) {
                    &&& r == Ok::<Poll<Result<WaitResult<T>, TimeoutError>>, Error>(
                        Poll::Ready(Err(TimeoutError)),
                    )
                    &&& final(channel)@ == old(channel)@.cancelled(id)
                    &&& final(queue)@ == old(queue)@.cancelled(old(self).timer.entry(waker))
                    &&& !final(queue)@.entries.contains(old(self).timer.entry(waker))
                } else {
                    &&& final(channel)@ == old(channel)@.after_next(id, waker)
                    &&& final(queue)@ == old(queue)@.scheduled(old(self).timer.entry(waker))
                    &&& r == match old(queue)@.schedule_answer(old(self).timer.entry(waker)) {
                        Ok(_) => Ok::<Poll<Result<WaitResult<T>, TimeoutError>>, Error>(
                            Poll::Pending,
                        ),
                        Err(e) => Err::<Poll<Result<WaitResult<T>, TimeoutError>>, Error>(e),
                    }
                },
            },
    {
        let inner = channel.poll_next(id, waker);
        match self.settle(inner, now, queue, waker) {
            Ok(Race::Won(m)) => Ok(Poll::Ready(Ok(m))),
            Ok(Race::Lost) => {
                channel.cancel_wait(id);
                assert(final(channel)@ =~= old(channel)@.cancelled(id)) by {
                    assert(final(channel)@.subs =~= old(channel)@.cancelled(id).subs);
                }
                Ok(Poll::Ready(Err(TimeoutError)))
            },
            Ok(Race::Running) => Ok(Poll::Pending),
            Err(e) => Err(e),
        }
    }

    /// One attempt of `waker` to take the value of `signal` before the
    /// limit runs out. Once the limit has run out the answer is
    /// `TimeoutError` and `waker` waits on the signal no longer.
    pub fn poll_wait<T>(
        &mut self,
        signal: &mut Signal<T>,
        now: Instant,
        queue: &mut TimerQueue,
        waker: Waker,
    ) -> (r: Result<Poll<Result<T, TimeoutError>>, Error>)
        requires
            old(queue).wf(),
        ensures
            final(queue).wf(),
            *final(self) == old(self).after_attempt(
                old(signal)@.wait_answer(waker) != Ok::<Poll<T>, Error>(Poll::Pending),
                now,
                old(queue)@.schedule_answer(old(self).timer.entry(waker)) is Ok,
            ),
            match old(signal)@.wait_answer(waker) {
                Ok(Poll::Ready(v)) => {
                    &&& r == Ok::<Poll<Result<T, TimeoutError>>, Error>(Poll::Ready(Ok(v)))
                    &&& final(signal)@ == old(signal)@.waited(waker)
                    &&& final(queue)@ == old(queue)@.cancelled(old(self).timer.entry(waker))
                    &&& !final(queue)@.entries.contains(old(self).timer.entry(waker))
                },
                Ok(Poll::Pending) => if old(self).timer.done(now) {
                    &&& r == Ok::<Poll<Result<T, TimeoutError>>, Error>(
                        Poll::Ready(Err(TimeoutError)),
                    )
                    &&& final(signal)@ == old(signal)@.cancelled(waker)
                    &&& final(signal)@.waiter != Some(waker)
                    &&& final(queue)@ == old(queue)@.cancelled(old(self).timer.entry(waker))
                    &&& !final(queue)@.entries.contains(old(self).timer.entry(waker))
                } else {
                    &&& final(signal)@ == old(signal)@.waited(waker)
                    &&& final(queue)@ == old(queue)@.scheduled(old(self).timer.entry(waker))
                    &&& r == match old(queue)@.schedule_answer(old(self).timer.entry(waker)) {
                        Ok(_) => Ok::<Poll<Result<T, TimeoutError>>, Error>(Poll::Pending),
                        Err(e) => Err::<Poll<Result<T, TimeoutError>>, Error>(e),
                    }
                },
                Err(e) => {
                    &&& r == Err::<Poll<Result<T, TimeoutError>>, Error>(e)
                    &&& final(signal)@ == old(signal)@
                    &&& final(queue)@ == old(queue)@
                    &&& *final(self) == *old(self)
                },
            },
    {
        let inner = match signal.poll_wait(waker) {
            Ok(p) => p,
            Err(e) => {
                return Err(e);
            },
        };
        match self.settle(inner, now, queue, waker) {
            Ok(Race::Won(v)) => Ok(Poll::Ready(Ok(v))),
            Ok(Race::Lost) => {
                signal.cancel_wait(waker);
                Ok(Poll::Ready(Err(TimeoutError)))
            },
            Ok(Race::Running) => Ok(Poll::Pending),
            Err(e) => Err(e),
        }
    }

    /// One attempt of receiver `id` to see a change of `watch` before the
    /// limit runs out. Once the limit has run out the answer is
    /// `TimeoutError` and the receiver waits no longer.
    pub fn poll_changed<T: Copy>(
        &mut self,
        watch: &mut Watch<T>,
        id: usize,
        now: Instant,
        queue: &mut TimerQueue,
        waker: Waker,
    ) -> (r: Result<Poll<Result<T, TimeoutError>>, Error>)
        requires
            old(queue).wf(),
            old(watch).wf(),
        ensures
            final(queue).wf(),
            final(watch).wf(),
            *final(self) == old(self).after_attempt(
                old(watch)@.changed_answer(id) != Poll::<T>::Pending,
                now,
                old(queue)@.schedule_answer(old(self).timer.entry(waker)) is Ok,
            ),
            match old(watch)@.changed_answer(id) {
                Poll::Ready(v) => {
                    &&& r == Ok::<Poll<Result<T, TimeoutError>>, Error>(Poll::Ready(Ok(v)))
                    &&& final(watch)@ == old(watch)@.changed(id, waker)
                    &&& final(queue)@ == old(queue)@.cancelled(old(self).timer.entry(waker))
                    &&& !final(queue)@.entries.contains(old(self).timer.entry(waker))
                },
                Poll::Pending => if old(self).timer.done(now) {
                    &&& r == Ok::<Poll<Result<T, TimeoutError>>, Error>(
                        Poll::Ready(Err(TimeoutError)),
                    )
                    &&& final(watch)@ == old(watch)@.cancelled(id)
                    &&& final(queue)@ == old(queue)@.cancelled(old(self).timer.entry(waker))
                    &&& !final(queue)@.entries.contains(old(self).timer.entry(waker))
                } else {
                    &&& final(watch)@ == old(watch)@.changed(id, waker)
                    &&& final(queue)@ == old(queue)@.scheduled(old(self).timer.entry(waker))
                    &&& r == match old(queue)@.schedule_answer(old(self).timer.entry(waker)) {
                        Ok(_) => Ok::<Poll<Result<T, TimeoutError>>, Error>(Poll::Pending),
                        Err(e) => Err::<Poll<Result<T, TimeoutError>>, Error>(e),
                    }
                },
            },
    {
        let inner = watch.poll_changed(id, waker);
        match self.settle(inner, now, queue, waker) {
            Ok(Race::Won(v)) => Ok(Poll::Ready(Ok(v))),
            Ok(Race::Lost) => {
                watch.cancel_wait(id);
                assert(final(watch)@ =~= old(watch)@.cancelled(id)) by {
                    assert(final(watch)@.slots =~= old(watch)@.cancelled(id).slots);
                }
                Ok(Poll::Ready(Err(TimeoutError)))
            },
            Ok(Race::Running) => Ok(Poll::Pending),
            Err(e) => Err(e),
        }
    }
}

} // verus!
