//! Tasks that report at a fixed period.
//!
//! Each reporter owns a ticker and reports once per boundary. The main
//! task runs two reporters side by side at one period, a second task runs
//! one at half that period. A reporter that is resumed late reports once
//! for every boundary that has passed, and its later boundaries stay
//! where they were.

use vstd::prelude::*;
use crate::delay::{lemma_offset_moves_on, Ticker};
use crate::error::Error;
use crate::runtime::{Runtime, RuntimeView, Turn};
use crate::task::{answer_of, Effects, Poll, Waker};
use crate::time::{Duration, Instant, HALF_RANGE, TICKS_PER_MILLI};
use crate::timer::{TimerQueue, TimerQueueView};

verus! {

/// The names under which the reporters report.
#[derive(Clone, Copy, Debug, PartialEq, Eq, Structural)]
pub enum Label {
    Task,
    Select1,
    Select2,
}

/// What the tasks report.
#[derive(Clone, Copy, Debug, PartialEq, Eq, Structural)]
pub enum Event {
    Waited { id: Label },
}

/// One reporter: its name, its period in milliseconds, and its ticker
/// once it has started.
#[derive(Clone, Copy, Debug, PartialEq, Eq, Structural)]
pub struct PrintEvery {
    pub id: Label,
    pub millis: u64,
    pub ticker: Option<Ticker>,
}

/// A reporter together with what it touches.
pub struct PrintEveryWorld {
    pub task: PrintEvery,
    pub timers: TimerQueueView,
    pub log: Seq<Event>,
    /// The error on which the turn ended, if it ended on one.
    pub failed: Option<Error>,
}

impl PrintEveryWorld {
    /// The world after the reporter has served its ticker `t` at `now`:
    /// it has reported once for each boundary that was reached and waits
    /// for the first that is not.
    pub open spec fn served(self, t: Ticker, now: Instant, waker: Waker) -> Self
        decreases HALF_RANGE - now.offset_to(t.expires_at),
    {
        if t.steady() && now.reached(t.expires_at) {
            proof {
                lemma_offset_moves_on(now, t.expires_at, t.period);
            }
            PrintEveryWorld {
                timers: self.timers.cancelled(t.entry(waker)),
                log: self.log.push(Event::Waited { id: self.task.id }),
                ..self
            }.served(t.advanced(), now, waker)
        } else {
            PrintEveryWorld {
                task: PrintEvery { ticker: Some(t), ..self.task },
                timers: self.timers.scheduled(t.entry(waker)),
                failed: match self.timers.schedule_answer(t.entry(waker)) {
                    Ok(_) => None,
                    Err(e) => Some(e),
                },
                ..self
            }
        }
    }

    /// The world after one turn of the reporter at `now`. A reporter that
    /// has yet to start sets its first boundary one period after `now`.
    pub open spec fn polled(self, now: Instant, waker: Waker) -> Self {
        self.served(self.task.ticker_at(now), now, waker)
    }
}

impl PrintEvery {
    /// A reporter named `id` with a period of `millis` milliseconds.
    pub fn new(id: Label, millis: u64) -> (p: PrintEvery)
        ensures
            p == (PrintEvery { id, millis, ticker: None }),
    {
        PrintEvery { id, millis, ticker: None }
    }

    /// The period is more than nothing and less than half the clock's
    /// range, and the ticker, once there, has that period.
    pub open spec fn valid(self) -> bool {
        &&& 0 < self.millis * TICKS_PER_MILLI < HALF_RANGE
        &&& self.ticker is Some ==> self.ticker.unwrap().period.ticks == self.millis
            * TICKS_PER_MILLI
    }

    /// The ticker with which a turn at `now` begins.
    pub open spec fn ticker_at(self, now: Instant) -> Ticker {
        match self.ticker {
            Some(t) => t,
            None => Ticker {
                expires_at: now.plus(Duration { ticks: (self.millis * TICKS_PER_MILLI) as u64 }),
                period: Duration { ticks: (self.millis * TICKS_PER_MILLI) as u64 },
            },
        }
    }

    /// The reporter and what it touches, as one value.
    pub open spec fn world(self, timers: TimerQueueView, fx: Effects<Event>) -> PrintEveryWorld {
        PrintEveryWorld { task: self, timers, log: fx.log@, failed: None }
    }

    /// One turn of the reporter at `now` on behalf of `waker`: it reports
    /// once for every boundary of its ticker that is reached, and its
    /// turn ends when it has to wait for the next one, or on an error of
    /// the timer service.
    pub fn poll(
        &mut self,
        now: Instant,
        timers: &mut TimerQueue,
        waker: Waker,
        fx: &mut Effects<Event>,
    ) -> (r: Result<(), Error>)
        requires
            old(timers).wf(),
            old(self).valid(),
        ensures
            final(timers).wf(),
            final(self).valid(),
            final(fx).woken@ == old(fx).woken@,
            final(self).world(final(timers)@, *final(fx)) == (PrintEveryWorld {
                failed: None,
                ..old(self).world(old(timers)@, *old(fx)).polled(now, waker)
            }),
            r == answer_of(old(self).world(old(timers)@, *old(fx)).polled(now, waker).failed),
    {
        let mut ticker: Ticker = match self.ticker {
            Some(t) => t,
            None => Ticker::every(now, Duration::from_millis(self.millis)),
        };
        let ghost goal = old(self).world(old(timers)@, *old(fx)).polled(now, waker);
        loop
            invariant
                timers.wf(),
                ticker.steady(),
                ticker.period.ticks == self.millis * TICKS_PER_MILLI,
                *self == *old(self),
                fx.woken@ == old(fx).woken@,
                self.world(timers@, *fx).served(ticker, now, waker) == goal,
                goal == old(self).world(old(timers)@, *old(fx)).polled(now, waker),
            decreases HALF_RANGE - now.offset_to(ticker.expires_at),
        {
            proof {
                if now.reached(ticker.expires_at) {
                    lemma_offset_moves_on(now, ticker.expires_at, ticker.period);
                }
            }
            match ticker.poll_next(now, timers, waker) {
                Err(e) => {
                    self.ticker = Some(ticker);
                    return Err(e);
                },
                Ok(Poll::Pending) => {
                    self.ticker = Some(ticker);
                    return Ok(());
                },
                Ok(Poll::Ready(_)) => {
                    fx.note(Event::Waited { id: self.id });
                },
            }
        }
    }
}

/// Two reporters side by side in one task: each takes its turn, the
/// first first.
#[derive(Clone, Copy, Debug, PartialEq, Eq, Structural)]
pub struct SelectPair {
    pub first: PrintEvery,
    pub second: PrintEvery,
}

/// The pair together with what it touches.
pub struct SelectPairWorld {
    pub task: SelectPair,
    pub timers: TimerQueueView,
    pub log: Seq<Event>,
    pub failed: Option<Error>,
}

impl SelectPairWorld {
    /// The world after one turn of the pair at `now`: the second reporter
    /// takes its turn unless the first failed.
    pub open spec fn polled(self, now: Instant, waker: Waker) -> Self {
        let a = PrintEveryWorld {
            task: self.task.first,
            timers: self.timers,
            log: self.log,
            failed: None,
        }.polled(now, waker);
        if a.failed is Some {
            SelectPairWorld {
                task: SelectPair { first: a.task, second: self.task.second },
                timers: a.timers,
                log: a.log,
                failed: a.failed,
            }
        } else {
            let b = PrintEveryWorld { task: self.task.second, ..a }.polled(now, waker);
            SelectPairWorld {
                task: SelectPair { first: a.task, second: b.task },
                timers: b.timers,
                log: b.log,
                failed: b.failed,
            }
        }
    }
}

impl SelectPair {
    /// Two reporters with a period of `millis` milliseconds each.
    pub fn new(millis: u64) -> (p: SelectPair)
        ensures
            p == (SelectPair {
                first: PrintEvery { id: Label::Select1, millis, ticker: None },
                second: PrintEvery { id: Label::Select2, millis, ticker: None },
            }),
    {
        SelectPair {
            first: PrintEvery::new(Label::Select1, millis),
            second: PrintEvery::new(Label::Select2, millis),
        }
    }

    pub open spec fn valid(self) -> bool {
        self.first.valid() && self.second.valid()
    }

    /// The pair and what it touches, as one value.
    pub open spec fn world(self, timers: TimerQueueView, fx: Effects<Event>) -> SelectPairWorld {
        SelectPairWorld { task: self, timers, log: fx.log@, failed: None }
    }

    /// One turn of the pair at `now` on behalf of `waker`.
    pub fn poll(
        &mut self,
        now: Instant,
        timers: &mut TimerQueue,
        waker: Waker,
        fx: &mut Effects<Event>,
    ) -> (r: Result<(), Error>)
        requires
            old(timers).wf(),
            old(self).valid(),
        ensures
            final(timers).wf(),
            final(self).valid(),
            final(fx).woken@ == old(fx).woken@,
            final(self).world(final(timers)@, *final(fx)) == (SelectPairWorld {
                failed: None,
                ..old(self).world(old(timers)@, *old(fx)).polled(now, waker)
            }),
            r == answer_of(old(self).world(old(timers)@, *old(fx)).polled(now, waker).failed),
    {
        match self.first.poll(now, timers, waker, fx) {
            Err(e) => Err(e),
            Ok(_) => self.second.poll(now, timers, waker, fx),
        }
    }
}

/// The slot of the main task.
pub const MAIN: usize = 0;

/// The slot of the second task.
pub const TASK: usize = 1;

/// The period of the second task's reporter, in milliseconds.
pub const TASK_PERIOD_MILLIS: u64 = 500;

/// The period of the main task's reporters, in milliseconds.
pub const SELECT_PERIOD_MILLIS: u64 = 1000;

/// The program: both tasks in one context on core 0.
pub struct Periodic {
    rt: Runtime,
    main: SelectPair,
    task: PrintEvery,
}

/// The state of the program.
pub struct PeriodicView {
    pub rt: RuntimeView,
    pub main: SelectPair,
    pub task: PrintEvery,
}

/// What a turn of the program comes to: the state after it and what it
/// hands out.
pub struct PeriodicTurn {
    pub state: PeriodicView,
    pub ran: Option<Waker>,
    pub log: Seq<Event>,
    pub failed: Option<Error>,
    pub sleep_until: Option<Instant>,
}

impl PeriodicView {
    pub open spec fn wf(self) -> bool {
        self.main.valid() && self.task.valid()
    }

    /// The turn in which the main task is resumed.
    pub open spec fn main_turn(self, w: Waker, now: Instant) -> PeriodicTurn {
        let after = SelectPairWorld {
            task: self.main,
            timers: self.rt.timers,
            log: Seq::empty(),
            failed: None,
        }.polled(now, w);
        PeriodicTurn {
            state: PeriodicView {
                rt: RuntimeView { timers: after.timers, ..self.rt }.finished(Seq::empty()),
                main: after.task,
                task: self.task,
            },
            ran: Some(w),
            log: after.log,
            failed: after.failed,
            sleep_until: None,
        }
    }

    /// The turn in which the second task is resumed.
    pub open spec fn task_turn(self, w: Waker, now: Instant) -> PeriodicTurn {
        let after = PrintEveryWorld {
            task: self.task,
            timers: self.rt.timers,
            log: Seq::empty(),
            failed: None,
        }.polled(now, w);
        PeriodicTurn {
            state: PeriodicView {
                rt: RuntimeView { timers: after.timers, ..self.rt }.finished(Seq::empty()),
                main: self.main,
                task: after.task,
            },
            ran: Some(w),
            log: after.log,
            failed: after.failed,
            sleep_until: None,
        }
    }

    /// One pass of the run loop at `now`.
    pub open spec fn stepped(self, now: Instant) -> PeriodicTurn {
        let begun = PeriodicView { rt: self.rt.begun(0, now), ..self };
        match self.rt.turn_of(0, now) {
            None => PeriodicTurn {
                state: begun,
                ran: None,
                log: Seq::empty(),
                failed: None,
                sleep_until: begun.rt.timers.next_deadline(now),
            },
            Some(w) => if w.task == MAIN {
                begun.main_turn(w, now)
            } else {
                begun.task_turn(w, now)
            },
        }
    }
}

impl View for Periodic {
    type V = PeriodicView;

    closed spec fn view(&self) -> PeriodicView {
        PeriodicView { rt: self.rt@, main: self.main, task: self.task }
    }
}

impl Periodic {
    /// The state is well formed and the representation sound.
    pub open spec fn wf(&self) -> bool {
        &&& self.inv()
        &&& self@.wf()
    }

    /// The invariant of the representation.
    pub closed spec fn inv(&self) -> bool {
        self.rt.wf()
    }

    /// The program at its start: both tasks spawned and runnable, the
    /// main task first, no ticker started yet.
    pub fn new() -> (p: Self)
        ensures
            p.wf(),
            p@.main == (SelectPair {
                first: PrintEvery { id: Label::Select1, millis: SELECT_PERIOD_MILLIS, ticker: None },
                second: PrintEvery {
                    id: Label::Select2,
                    millis: SELECT_PERIOD_MILLIS,
                    ticker: None,
                },
            }),
            p@.task == (PrintEvery { id: Label::Task, millis: TASK_PERIOD_MILLIS, ticker: None }),
            p@.rt.timers.entries.len() == 0,
            p@.rt.contexts.len() == 1,
            p@.rt.contexts[0].core == 0,
            p@.rt.contexts[0].executor.queue == seq![MAIN, TASK],
    {
        let mut rt = Runtime::new(3);
        let ctx = rt.contexts.add(0, 0, 2);
        let main = rt.contexts.spawn(Waker { context: ctx, task: MAIN });
        let task = rt.contexts.spawn(Waker { context: ctx, task: TASK });
        assert(main is Ok && task is Ok);
        let p = Periodic {
            rt,
            main: SelectPair::new(SELECT_PERIOD_MILLIS),
            task: PrintEvery::new(Label::Task, TASK_PERIOD_MILLIS),
        };
        assert(p@.rt.contexts[0].executor.queue =~= seq![MAIN, TASK]);
        p
    }

    /// One pass of the run loop at `now`: the deadlines that are due
    /// fire, and the next runnable task, if there is one, is resumed
    /// until it suspends.
    pub fn step(&mut self, now: Instant) -> (turn: Turn<Event>)
        requires
            old(self).wf(),
        ensures
            final(self).wf(),
            final(self)@ == old(self)@.stepped(now).state,
            turn.ran == old(self)@.stepped(now).ran,
            turn.log@ == old(self)@.stepped(now).log,
            turn.failed == old(self)@.stepped(now).failed,
            turn.sleep_until == old(self)@.stepped(now).sleep_until,
    {
        match self.rt.begin_turn(0, now) {
            None => {
                let until = self.rt.sleep_until(now);
                Turn { ran: None, log: Vec::new(), failed: None, sleep_until: until }
            },
            Some(w) => {
                let mut fx: Effects<Event> = Effects::new();
                let r = if w.task == MAIN {
                    self.main.poll(now, &mut self.rt.timers, w, &mut fx)
                } else {
                    self.task.poll(now, &mut self.rt.timers, w, &mut fx)
                };
                self.rt.finish_turn(&fx.woken);
                let failed: Option<Error> = match r {
                    Ok(_) => None,
                    Err(e) => Some(e),
                };
                Turn { ran: Some(w), log: fx.log, failed, sleep_until: None }
            },
        }
    }
}

} // verus!
