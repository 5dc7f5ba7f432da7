//! Two priorities on one core, a button, and a channel between them.
//!
//! The main task waits for a press of the button, then starts a task in
//! its own context and one in a context of higher priority that an
//! interrupt drives. From then on the main task alternates between
//! spinning on the clock, which keeps its own context from running
//! anything else, and waiting for the channel with a time limit. The task
//! of higher priority publishes a counter on every press; it runs also
//! while the main task spins.

use vstd::prelude::*;
use crate::context::{
    guard_needed, next_on, picked, reached_across, spawned, ContextSet, ContextView, Guard,
};
use crate::delay::{lemma_offset_moves_on, Ticker, Timer};
use crate::edge::EdgeInput;
use crate::error::Error;
use crate::pubsub::{sub_waiters, PubSubChannel, PubSubView, WaitResult};
use crate::runtime::{Runtime, RuntimeView, Turn};
use crate::task::{answer_of, Effects, Poll, Waker};
use crate::time::{Duration, Instant, HALF_RANGE, TICKS_PER_MILLI, TICK_HZ};
use crate::timeout::{Timeout, TimeoutError};
use crate::timer::{TimerQueue, TimerQueueView};

verus! {

/// What the tasks report.
#[derive(Clone, Copy, Debug, PartialEq, Eq, Structural)]
pub enum Event {
    WaitingRisingEdge,
    Initialized,
    StartingLowPriority,
    BlockingWait,
    AsyncWait,
    ChannelLagged { lag: u64 },
    ChannelMessage { message: u32 },
    Prio0Button,
    Prio0Task,
    Prio1Button,
    Prio1Task,
}

/// Seconds between two boundaries of a task's ticker.
pub const TICK_SECS: u64 = 1;

/// Milliseconds that the task of higher priority waits before it starts.
pub const START_DELAY_MILLIS: u64 = 200;

/// Seconds that the main task spins, and its time limit on the channel.
pub const MAIN_WAIT_SECS: u64 = 5;

/// The ticker that a task starts at `now`.
pub open spec fn ticker_from(now: Instant) -> Ticker {
    Ticker {
        expires_at: now.plus(Duration { ticks: (TICK_SECS * TICK_HZ) as u64 }),
        period: Duration { ticks: (TICK_SECS * TICK_HZ) as u64 },
    }
}

/// The task of the main context: it paces itself by the button, where it
/// was given one, or by its ticker.
#[derive(Clone, Copy, Debug, PartialEq, Eq, Structural)]
pub struct LowPrio {
    pub has_button: bool,
    /// The ticker, once the task has started.
    pub ticker: Option<Ticker>,
}

/// The task of the main context together with what it touches.
pub struct LowPrioWorld {
    pub task: LowPrio,
    pub button: EdgeInput,
    pub timers: TimerQueueView,
    pub log: Seq<Event>,
    /// The error on which the turn ended, if it ended on one.
    pub failed: Option<Error>,
}

impl LowPrioWorld {
    /// The world after the task has served its ticker `t` at `now`: it
    /// has reported once for each boundary that was reached and waits for
    /// the first that is not.
    pub open spec fn ticked(self, t: Ticker, now: Instant, waker: Waker) -> Self
        decreases HALF_RANGE - now.offset_to(t.expires_at),
    {
        if t.steady() && now.reached(t.expires_at) {
            proof {
                lemma_offset_moves_on(now, t.expires_at, t.period);
            }
            LowPrioWorld {
                timers: self.timers.cancelled(t.entry(waker)),
                log: self.log.push(Event::Prio0Task),
                ..self
            }.ticked(t.advanced(), now, waker)
        } else {
            LowPrioWorld {
                task: LowPrio { ticker: Some(t), ..self.task },
                timers: self.timers.scheduled(t.entry(waker)),
                failed: match self.timers.schedule_answer(t.entry(waker)) {
                    Ok(_) => None,
                    Err(e) => Some(e),
                },
                ..self
            }
        }
    }

    /// The world after the task has asked the button once more.
    pub open spec fn asked(self, waker: Waker) -> Self {
        LowPrioWorld {
            button: self.button.waited(waker),
            failed: match self.button.wait_answer(waker) {
                Ok(_) => None,
                Err(e) => Some(e),
            },
            ..self
        }
    }

    /// The world after the task has asked the button: a press that has
    /// come it reports, and then it asks for the next.
    pub open spec fn pressed(self, waker: Waker) -> Self {
        if self.button.wait_answer(waker) == Ok::<Poll<()>, Error>(Poll::Ready(())) {
            LowPrioWorld {
                button: self.button.waited(waker),
                log: self.log.push(Event::Prio0Button),
                ..self
            }.asked(waker)
        } else {
            self.asked(waker)
        }
    }

    /// The world after one turn of the task at `now`. A task that has yet
    /// to start sets up its ticker and reports for the first time.
    pub open spec fn polled(self, now: Instant, waker: Waker) -> Self {
        let begun = match self.task.ticker {
            Some(_) => self,
            None => LowPrioWorld {
                task: LowPrio { ticker: Some(ticker_from(now)), ..self.task },
                log: self.log.push(
                    if self.task.has_button {
                        Event::Prio0Button
                    } else {
                        Event::Prio0Task
                    },
                ),
                ..self
            },
        };
        if self.task.has_button {
            begun.pressed(waker)
        } else {
            begun.ticked(begun.task.ticker.unwrap(), now, waker)
        }
    }
}

impl LowPrio {
    /// The task, with or without the button to pace it.
    pub fn new(has_button: bool) -> (t: LowPrio)
        ensures
            t == (LowPrio { has_button, ticker: None }),
    {
        LowPrio { has_button, ticker: None }
    }

    /// The ticker, once there, has the period that the task gave it.
    pub open spec fn valid(self) -> bool {
        self.ticker is Some ==> self.ticker.unwrap().period.ticks == TICK_SECS * TICK_HZ
    }

    /// The task and what it touches, as one value.
    pub open spec fn world(
        self,
        button: EdgeInput,
        timers: TimerQueueView,
        fx: Effects<Event>,
    ) -> LowPrioWorld {
        LowPrioWorld { task: self, button, timers, log: fx.log@, failed: None }
    }

    /// One turn of the task at `now` on behalf of `waker`: it reports
    /// when it starts and then once for every press or boundary that has
    /// come, and its turn ends when it has to wait for the next, or on
    /// an error of the button or of the timer service.
    pub fn poll(
        &mut self,
        button: &mut EdgeInput,
        now: Instant,
        timers: &mut TimerQueue,
        waker: Waker,
        fx: &mut Effects<Event>,
    ) -> (r: Result<(), Error>)
        requires
            old(timers).wf(),
            old(self).valid(),
        ensures
            final(timers).wf(),
            final(self).valid(),
            final(self).has_button == old(self).has_button,
            final(fx).woken@ == old(fx).woken@,
            final(self).world(*final(button), final(timers)@, *final(fx)) == (LowPrioWorld {
                failed: None,
                ..old(self).world(*old(button), old(timers)@, *old(fx)).polled(now, waker)
            }),
            r == answer_of(
                old(self).world(*old(button), old(timers)@, *old(fx)).polled(now, waker).failed,
            ),
    {
        let ghost goal = old(self).world(*old(button), old(timers)@, *old(fx)).polled(now, waker);
        let mut ticker: Ticker = match self.ticker {
            Some(t) => t,
            None => {
                let t = Ticker::every(now, Duration::from_secs(TICK_SECS));
                self.ticker = Some(t);
                fx.note(
                    if self.has_button {
                        Event::Prio0Button
                    } else {
                        Event::Prio0Task
                    },
                );
                t
            },
        };
        if self.has_button {
            match button.poll_rising_edge(waker) {
                Err(e) => Err(e),
                Ok(Poll::Pending) => Ok(()),
                Ok(Poll::Ready(_)) => {
                    fx.note(Event::Prio0Button);
                    match button.poll_rising_edge(waker) {
                        Err(e) => Err(e),
                        Ok(_) => Ok(()),
                    }
                },
            }
        } else {
            loop
                invariant
                    timers.wf(),
                    ticker.steady(),
                    ticker.period.ticks == TICK_SECS * TICK_HZ,
                    self.ticker is Some,
                    !self.has_button,
                    *button == *old(button),
                    fx.woken@ == old(fx).woken@,
                    self.world(*button, timers@, *fx).ticked(ticker, now, waker) == goal,
                    goal == old(self).world(*old(button), old(timers)@, *old(fx)).polled(
                        now,
                        waker,
                    ),
                decreases HALF_RANGE - now.offset_to(ticker.expires_at),
            {
                proof {
                    if now.reached(ticker.expires_at) {
                        lemma_offset_moves_on(now, ticker.expires_at, ticker.period);
                    }
                }
                match ticker.poll_next(now, timers, waker) {
                    Err(e) => {
                        self.ticker = Some(ticker);
                        return Err(e);
                    },
                    Ok(Poll::Pending) => {
                        self.ticker = Some(ticker);
                        return Ok(());
                    },
                    Ok(Poll::Ready(_)) => {
                        fx.note(Event::Prio0Task);
                    },
                }
            }
        }
    }
}

/// Where the task of higher priority stands.
#[derive(Clone, Copy, Debug, PartialEq, Eq, Structural)]
pub enum HigherState {
    /// It has yet to run.
    Start,
    /// It waits out its start delay.
    Delaying { timer: Timer },
    /// It publishes on every press or boundary.
    Running,
}

/// The task of higher priority: it paces itself by the button, where it
/// was given one, or by its ticker, and publishes its counter each time.
#[derive(Clone, Copy, Debug, PartialEq, Eq, Structural)]
pub struct HigherPrio {
    pub has_button: bool,
    pub num: u32,
    pub state: HigherState,
    /// The ticker, once the start delay is over.
    pub ticker: Option<Ticker>,
}

/// The task of higher priority together with what it touches.
pub struct HigherPrioWorld {
    pub task: HigherPrio,
    pub button: EdgeInput,
    pub channel: PubSubView<u32>,
    pub timers: TimerQueueView,
    pub woken: Seq<Waker>,
    pub log: Seq<Event>,
    /// The error on which the turn ended, if it ended on one.
    pub failed: Option<Error>,
}

/// The timer with which the start delay begins at `now`.
pub open spec fn start_delay(now: Instant) -> Timer {
    Timer {
        deadline: now.plus(Duration { ticks: (START_DELAY_MILLIS * TICKS_PER_MILLI) as u64 }),
        yielded: false,
    }
}

impl HigherPrioWorld {
    /// What the task reports before each wait.
    pub open spec fn label(self) -> Event {
        if self.task.has_button {
            Event::Prio1Button
        } else {
            Event::Prio1Task
        }
    }

    /// The world after a wait of the task has come to its end: the
    /// counter is published, then counted up and reported.
    pub open spec fn round(self) -> Self {
        HigherPrioWorld {
            task: HigherPrio { num: (self.task.num + 1) as u32, ..self.task },
            channel: self.channel.published(self.task.num),
            woken: self.woken + sub_waiters(self.channel.subs),
            log: self.log.push(self.label()),
            ..self
        }
    }

    /// The world after the task has served its ticker `t` at `now`: one
    /// round for each boundary that was reached.
    pub open spec fn ticked(self, t: Ticker, now: Instant, waker: Waker) -> Self
        decreases HALF_RANGE - now.offset_to(t.expires_at),
    {
        if t.steady() && now.reached(t.expires_at) {
            proof {
                lemma_offset_moves_on(now, t.expires_at, t.period);
            }
            HigherPrioWorld {
                timers: self.timers.cancelled(t.entry(waker)),
                ..self
            }.round().ticked(t.advanced(), now, waker)
        } else {
            HigherPrioWorld {
                task: HigherPrio { ticker: Some(t), ..self.task },
                timers: self.timers.scheduled(t.entry(waker)),
                failed: match self.timers.schedule_answer(t.entry(waker)) {
                    Ok(_) => None,
                    Err(e) => Some(e),
                },
                ..self
            }
        }
    }

    /// The world after the task has asked the button once more.
    pub open spec fn asked(self, waker: Waker) -> Self {
        HigherPrioWorld {
            button: self.button.waited(waker),
            failed: match self.button.wait_answer(waker) {
                Ok(_) => None,
                Err(e) => Some(e),
            },
            ..self
        }
    }

    /// The world after the task has asked the button: for a press that
    /// has come it makes its round, and then it asks for the next.
    pub open spec fn pressed(self, waker: Waker) -> Self {
        if self.button.wait_answer(waker) == Ok::<Poll<()>, Error>(Poll::Ready(())) {
            HigherPrioWorld { button: self.button.waited(waker), ..self }.round().asked(waker)
        } else {
            self.asked(waker)
        }
    }

    /// The world after the running task has taken its turn at `now`.
    pub open spec fn paced(self, now: Instant, waker: Waker) -> Self {
        if self.task.has_button {
            self.pressed(waker)
        } else {
            self.ticked(self.task.ticker.unwrap(), now, waker)
        }
    }

    /// The world after the task has waited on its start delay `timer`.
    pub open spec fn delayed(self, timer: Timer, now: Instant, waker: Waker) -> Self {
        if timer.done(now) {
            HigherPrioWorld {
                task: HigherPrio {
                    num: (self.task.num + 1) as u32,
                    state: HigherState::Running,
                    ticker: Some(ticker_from(now)),
                    ..self.task
                },
                timers: self.timers.cancelled(timer.entry(waker)),
                log: self.log.push(self.label()),
                ..self
            }.paced(now, waker)
        } else {
            match self.timers.schedule_answer(timer.entry(waker)) {
                Ok(_) => HigherPrioWorld {
                    task: HigherPrio {
                        state: HigherState::Delaying { timer: Timer { yielded: true, ..timer } },
                        ..self.task
                    },
                    timers: self.timers.scheduled(timer.entry(waker)),
                    ..self
                },
                Err(e) => HigherPrioWorld {
                    task: HigherPrio { state: HigherState::Delaying { timer }, ..self.task },
                    timers: self.timers.scheduled(timer.entry(waker)),
                    failed: Some(e),
                    ..self
                },
            }
        }
    }

    /// The world after one turn of the task at `now`.
    pub open spec fn polled(self, now: Instant, waker: Waker) -> Self {
        match self.task.state {
            HigherState::Start => self.delayed(start_delay(now), now, waker),
            HigherState::Delaying { timer } => self.delayed(timer, now, waker),
            HigherState::Running => self.paced(now, waker),
        }
    }
}

impl HigherPrio {
    /// The task, with or without the button to pace it.
    pub fn new(has_button: bool) -> (t: HigherPrio)
        ensures
            t == (HigherPrio { has_button, num: 0, state: HigherState::Start, ticker: None }),
    {
        HigherPrio { has_button, num: 0, state: HigherState::Start, ticker: None }
    }

    /// A running task has its ticker, and the ticker has the period that
    /// the task gave it.
    pub open spec fn valid(self) -> bool {
        &&& self.state == HigherState::Running ==> self.ticker is Some
        &&& self.ticker is Some ==> self.ticker.unwrap().period.ticks == TICK_SECS * TICK_HZ
    }

    /// How many presses or boundaries have come for a running task.
    pub open spec fn paces_ahead(self, now: Instant, button: EdgeInput, waker: Waker) -> nat {
        if self.has_button {
            if button.fired_for == Some(waker) {
                1
            } else {
                0
            }
        } else {
            match self.ticker {
                Some(t) => t.due_at(now),
                None => 0,
            }
        }
    }

    /// How many times a turn at `now` counts up: once when the start
    /// delay is over, and once for every press or boundary that has come.
    pub open spec fn rounds_ahead(self, now: Instant, button: EdgeInput, waker: Waker) -> nat {
        match self.state {
            HigherState::Start => 0,
            HigherState::Delaying { timer } => if !timer.done(now) {
                0
            } else if self.has_button && button.fired_for == Some(waker) {
                2
            } else {
                1
            },
            HigherState::Running => self.paces_ahead(now, button, waker),
        }
    }

    /// Whether the task can take a turn at `now` on behalf of `waker`: it
    /// is sound, and its counter can count all the rounds of the turn.
    pub fn can_poll(&self, now: Instant, button: &EdgeInput, waker: Waker) -> (b: bool)
        ensures
            b == (self.valid() && self.num + self.rounds_ahead(now, *button, waker) <= u32::MAX),
    {
        let pressed: bool = match button.fired_for {
            Some(w) => w.same(&waker),
            None => false,
        };
        let sound: bool = match self.ticker {
            Some(t) => t.period.as_ticks() == TICK_SECS * TICK_HZ,
            None => match self.state {
                HigherState::Running => false,
                _ => true,
            },
        };
        if !sound {
            return false;
        }
        match self.state {
            HigherState::Start => true,
            HigherState::Delaying { timer } => {
                if !(timer.yielded && now.has_reached(timer.deadline)) {
                    true
                } else if self.has_button && pressed {
                    self.num <= u32::MAX - 2
                } else {
                    self.num <= u32::MAX - 1
                }
            },
            HigherState::Running => {
                if self.has_button {
                    !pressed || self.num <= u32::MAX - 1
                } else {
                    let due: u64 = self.ticker.unwrap().due(now);
                    due <= 0xffff_ffff && self.num as u64 + due <= 0xffff_ffff
                }
            },
        }
    }

    /// The task and what it touches, as one value.
    pub open spec fn world(
        self,
        button: EdgeInput,
        channel: PubSubView<u32>,
        timers: TimerQueueView,
        fx: Effects<Event>,
    ) -> HigherPrioWorld {
        HigherPrioWorld {
            task: self,
            button,
            channel,
            timers,
            woken: fx.woken@,
            log: fx.log@,
            failed: None,
        }
    }

    fn label(&self) -> (e: Event)
        ensures
            e == (if self.has_button {
                Event::Prio1Button
            } else {
                Event::Prio1Task
            }),
    {
        if self.has_button {
            Event::Prio1Button
        } else {
            Event::Prio1Task
        }
    }

    fn round(&mut self, channel: &mut PubSubChannel<u32>, fx: &mut Effects<Event>)
        requires
            old(channel).wf(),
            old(self).num < u32::MAX,
        ensures
            final(channel).wf(),
            final(self).num == old(self).num + 1,
            final(self).has_button == old(self).has_button,
            final(self).state == old(self).state,
            final(self).ticker == old(self).ticker,
            final(channel)@ == old(channel)@.published(old(self).num),
            final(fx).woken@ == old(fx).woken@ + sub_waiters(old(channel)@.subs),
            final(fx).log@ == old(fx).log@.push(
                if old(self).has_button {
                    Event::Prio1Button
                } else {
                    Event::Prio1Task
                },
            ),
    {
        let woken = channel.publish_immediate(self.num);
        fx.wake_all(woken);
        self.num = self.num + 1;
        fx.note(self.label());
    }

    fn pace(
        &mut self,
        button: &mut EdgeInput,
        channel: &mut PubSubChannel<u32>,
        now: Instant,
        timers: &mut TimerQueue,
        waker: Waker,
        fx: &mut Effects<Event>,
    ) -> (r: Result<(), Error>)
        requires
            old(timers).wf(),
            old(channel).wf(),
            old(self).valid(),
            old(self).state == HigherState::Running,
            old(self).num + old(self).paces_ahead(now, *old(button), waker) <= u32::MAX,
        ensures
            final(timers).wf(),
            final(channel).wf(),
            final(self).valid(),
            final(self).has_button == old(self).has_button,
            final(self).world(*final(button), final(channel)@, final(timers)@, *final(fx)) == (
            HigherPrioWorld {
                failed: None,
                ..old(self).world(*old(button), old(channel)@, old(timers)@, *old(fx)).paced(
                    now,
                    waker,
                )
            }),
            r == answer_of(
                old(self).world(*old(button), old(channel)@, old(timers)@, *old(fx)).paced(
                    now,
                    waker,
                ).failed,
            ),
    {
        let ghost goal = old(self).world(*old(button), old(channel)@, old(timers)@, *old(fx)).paced(
            now,
            waker,
        );
        if self.has_button {
            match button.poll_rising_edge(waker) {
                Err(e) => Err(e),
                Ok(Poll::Pending) => Ok(()),
                Ok(Poll::Ready(_)) => {
                    self.round(channel, fx);
                    match button.poll_rising_edge(waker) {
                        Err(e) => Err(e),
                        Ok(_) => Ok(()),
                    }
                },
            }
        } else {
            let mut ticker: Ticker = self.ticker.unwrap();
            loop
                invariant
                    timers.wf(),
                    channel.wf(),
                    ticker.steady(),
                    ticker.period.ticks == TICK_SECS * TICK_HZ,
                    self.ticker is Some,
                    self.state == HigherState::Running,
                    !self.has_button,
                    self.num + ticker.due_at(now) <= u32::MAX,
                    *button == *old(button),
                    self.world(*button, channel@, timers@, *fx).ticked(ticker, now, waker) == goal,
                    goal == old(self).world(
                        *old(button),
                        old(channel)@,
                        old(timers)@,
                        *old(fx),
                    ).paced(now, waker),
                decreases HALF_RANGE - now.offset_to(ticker.expires_at),
            {
                proof {
                    if now.reached(ticker.expires_at) {
                        lemma_offset_moves_on(now, ticker.expires_at, ticker.period);
                    }
                }
                match ticker.poll_next(now, timers, waker) {
                    Err(e) => {
                        self.ticker = Some(ticker);
                        return Err(e);
                    },
                    Ok(Poll::Pending) => {
                        self.ticker = Some(ticker);
                        return Ok(());
                    },
                    Ok(Poll::Ready(_)) => {
                        self.round(channel, fx);
                    },
                }
            }
        }
    }

    /// One turn of the task at `now` on behalf of `waker`. The task
    /// first waits out its start delay. From then on it publishes its
    /// counter for every press or boundary that has come, counts up and
    /// reports, and its turn ends when it has to wait for the next, or on
    /// an error of the button or of the timer service.
    pub fn poll(
        &mut self,
        button: &mut EdgeInput,
        channel: &mut PubSubChannel<u32>,
        now: Instant,
        timers: &mut TimerQueue,
        waker: Waker,
        fx: &mut Effects<Event>,
    ) -> (r: Result<(), Error>)
        requires
            old(timers).wf(),
            old(channel).wf(),
            old(self).valid(),
            old(self).num + old(self).rounds_ahead(now, *old(button), waker) <= u32::MAX,
        ensures
            final(timers).wf(),
            final(channel).wf(),
            final(self).valid(),
            final(self).has_button == old(self).has_button,
            final(self).world(*final(button), final(channel)@, final(timers)@, *final(fx)) == (
            HigherPrioWorld {
                failed: None,
                ..old(self).world(*old(button), old(channel)@, old(timers)@, *old(fx)).polled(
                    now,
                    waker,
                )
            }),
            r == answer_of(
                old(self).world(*old(button), old(channel)@, old(timers)@, *old(fx)).polled(
                    now,
                    waker,
                ).failed,
            ),
    {
        let mut timer: Timer = match self.state {
            HigherState::Start => Timer::after(now, Duration::from_millis(START_DELAY_MILLIS)),
            HigherState::Delaying { timer } => timer,
            HigherState::Running => {
                return self.pace(button, channel, now, timers, waker, fx);
            },
        };
        match timer.poll(now, timers, waker) {
            Err(e) => {
                self.state = HigherState::Delaying { timer };
                Err(e)
            },
            Ok(Poll::Pending) => {
                self.state = HigherState::Delaying { timer };
                Ok(())
            },
            Ok(Poll::Ready(_)) => {
                let t = Ticker::every(now, Duration::from_secs(TICK_SECS));
                proof {
                    assert(!now.reached(t.expires_at));
                    assert(t.due_at(now) == 0);
                }
                self.ticker = Some(t);
                self.state = HigherState::Running;
                self.num = self.num + 1;
                fx.note(self.label());
                self.pace(button, channel, now, timers, waker, fx)
            },
        }
    }
}

/// The context of the main loop.
pub const MAIN_CONTEXT: usize = 0;

/// The context that an interrupt drives.
pub const INTERRUPT_CONTEXT: usize = 1;

/// The main task.
pub open spec fn main_waker() -> Waker {
    Waker { context: MAIN_CONTEXT, task: 0 }
}

/// The task that the main task starts in its own context.
pub open spec fn low_waker() -> Waker {
    Waker { context: MAIN_CONTEXT, task: 1 }
}

/// The task that the main task starts in the interrupt's context.
pub open spec fn high_waker() -> Waker {
    Waker { context: INTERRUPT_CONTEXT, task: 0 }
}

/// Where the main task stands.
#[derive(Clone, Copy, Debug, PartialEq, Eq, Structural)]
pub enum MainState {
    /// It has yet to run.
    Start,
    /// It waits for the first press of the button.
    AwaitEdge,
    /// It spins on the clock since `start`.
    Blocking { start: Instant },
    /// It waits for the channel, within its time limit.
    Async { timeout: Timeout },
}

/// How a turn of the main task ended.
#[derive(Clone, Copy, Debug, PartialEq, Eq, Structural)]
pub enum Flow {
    /// The task waits for a wake.
    Suspended,
    /// The task spins: it keeps its context and has to be resumed again.
    Spinning,
}

/// The main task: its subscriber's slot in the channel and where it
/// stands.
#[derive(Clone, Copy, Debug, PartialEq, Eq, Structural)]
pub struct MainLoop {
    pub rx: usize,
    pub state: MainState,
}

/// The main task together with what it touches.
pub struct MainWorld {
    pub task: MainLoop,
    pub button: EdgeInput,
    pub channel: PubSubView<u32>,
    pub contexts: Seq<ContextView>,
    pub timers: TimerQueueView,
    pub log: Seq<Event>,
    /// The error on which the turn ended, if it ended on one.
    pub failed: Option<Error>,
    pub flow: Flow,
}

/// What the main task reports of what it read.
pub open spec fn report(m: WaitResult<u32>) -> Event {
    match m {
        WaitResult::Lagged(lag) => Event::ChannelLagged { lag },
        WaitResult::Message(message) => Event::ChannelMessage { message },
    }
}

/// The time limit that begins at `now`.
pub open spec fn limit_from(now: Instant) -> Timeout {
    Timeout {
        timer: Timer {
            deadline: now.plus(Duration { ticks: (MAIN_WAIT_SECS * TICK_HZ) as u64 }),
            yielded: false,
        },
    }
}

impl MainWorld {
    /// The world after the task has begun to spin at `now`.
    pub open spec fn blocked(self, now: Instant) -> Self {
        MainWorld {
            task: MainLoop { state: MainState::Blocking { start: now }, ..self.task },
            log: self.log.push(Event::BlockingWait),
            flow: Flow::Spinning,
            ..self
        }
    }

    /// The world after the task has asked the channel within `timeout`:
    /// what it read it reports, and after that or once the limit has run
    /// out it spins again.
    pub open spec fn listened(self, timeout: Timeout, now: Instant, waker: Waker) -> Self {
        let entry = timeout.timer.entry(waker);
        match self.channel.next_answer(self.task.rx) {
            Poll::Ready(m) => MainWorld {
                channel: self.channel.after_next(self.task.rx, waker),
                timers: self.timers.cancelled(entry),
                log: self.log.push(report(m)),
                ..self
            }.blocked(now),
            Poll::Pending => if timeout.timer.done(now) {
                MainWorld {
                    channel: self.channel.cancelled(self.task.rx),
                    timers: self.timers.cancelled(entry),
                    ..self
                }.blocked(now)
            } else {
                let base = MainWorld {
                    channel: self.channel.after_next(self.task.rx, waker),
                    timers: self.timers.scheduled(entry),
                    flow: Flow::Suspended,
                    ..self
                };
                match self.timers.schedule_answer(entry) {
                    Ok(_) => MainWorld {
                        task: MainLoop {
                            state: MainState::Async {
                                timeout: Timeout { timer: Timer { yielded: true, ..timeout.timer } },
                            },
                            ..self.task
                        },
                        ..base
                    },
                    Err(e) => MainWorld {
                        task: MainLoop { state: MainState::Async { timeout }, ..self.task },
                        failed: Some(e),
                        ..base
                    },
                }
            },
        }
    }

    /// The world after the task has asked for the first press: once it
    /// has come the task starts the two others and begins to spin.
    pub open spec fn armed(self, now: Instant, waker: Waker) -> Self {
        let asked = MainWorld {
            task: MainLoop { state: MainState::AwaitEdge, ..self.task },
            button: self.button.waited(waker),
            flow: Flow::Suspended,
            ..self
        };
        match self.button.wait_answer(waker) {
            Err(e) => MainWorld { failed: Some(e), ..asked },
            Ok(Poll::Pending) => asked,
            Ok(Poll::Ready(_)) => MainWorld {
                contexts: spawned(spawned(self.contexts, low_waker()), high_waker()),
                log: self.log + seq![Event::Initialized, Event::StartingLowPriority],
                ..asked
            }.blocked(now),
        }
    }

    /// The world after one turn of the task at `now`.
    pub open spec fn polled(self, now: Instant, waker: Waker) -> Self {
        match self.task.state {
            MainState::Start => MainWorld {
                log: self.log.push(Event::WaitingRisingEdge),
                ..self
            }.armed(now, waker),
            MainState::AwaitEdge => self.armed(now, waker),
            MainState::Blocking { start } => if start.ticks_until(now) < MAIN_WAIT_SECS * TICK_HZ {
                MainWorld { flow: Flow::Spinning, ..self }
            } else {
                MainWorld {
                    log: self.log.push(Event::AsyncWait),
                    ..self
                }.listened(limit_from(now), now, waker)
            },
            MainState::Async { timeout } => self.listened(timeout, now, waker),
        }
    }
}

/// The answer of a turn of the main task.
pub open spec fn flow_answer(failed: Option<Error>, flow: Flow) -> Result<Flow, Error> {
    match failed {
        Some(e) => Err(e),
        None => Ok(flow),
    }
}

impl MainLoop {
    /// The main task that reads as subscriber `rx`.
    pub fn new(rx: usize) -> (m: MainLoop)
        ensures
            m == (MainLoop { rx, state: MainState::Start }),
    {
        MainLoop { rx, state: MainState::Start }
    }

    /// The task and what it touches, as one value.
    pub open spec fn world(
        self,
        button: EdgeInput,
        channel: PubSubView<u32>,
        contexts: Seq<ContextView>,
        timers: TimerQueueView,
        fx: Effects<Event>,
    ) -> MainWorld {
        MainWorld {
            task: self,
            button,
            channel,
            contexts,
            timers,
            log: fx.log@,
            failed: None,
            flow: Flow::Suspended,
        }
    }

    fn block(&mut self, now: Instant, fx: &mut Effects<Event>) -> (r: Result<Flow, Error>)
        ensures
            r == Ok::<Flow, Error>(Flow::Spinning),
            *final(self) == (MainLoop { state: MainState::Blocking { start: now }, ..*old(self) }),
            final(fx).woken@ == old(fx).woken@,
            final(fx).log@ == old(fx).log@.push(Event::BlockingWait),
    {
        fx.note(Event::BlockingWait);
        self.state = MainState::Blocking { start: now };
        Ok(Flow::Spinning)
    }

    fn listen(
        &mut self,
        timeout: Timeout,
        channel: &mut PubSubChannel<u32>,
        now: Instant,
        timers: &mut TimerQueue,
        waker: Waker,
        fx: &mut Effects<Event>,
        Ghost(button): Ghost<EdgeInput>,
        Ghost(contexts): Ghost<Seq<ContextView>>,
    ) -> (r: Result<Flow, Error>)
        requires
            old(timers).wf(),
            old(channel).wf(),
        ensures
            final(timers).wf(),
            final(channel).wf(),
            final(fx).woken@ == old(fx).woken@,
            ({
                let after = old(self).world(
                    button,
                    old(channel)@,
                    contexts,
                    old(timers)@,
                    *old(fx),
                ).listened(timeout, now, waker);
                &&& final(self).world(button, final(channel)@, contexts, final(timers)@, *final(fx))
                    == MainWorld { failed: None, flow: Flow::Suspended, ..after }
                &&& r == flow_answer(after.failed, after.flow)
            }),
    {
        let mut timeout = timeout;
        match timeout.poll_next_message(channel, self.rx, now, timers, waker) {
            Err(e) => {
                self.state = MainState::Async { timeout };
                Err(e)
            },
            Ok(Poll::Pending) => {
                self.state = MainState::Async { timeout };
                Ok(Flow::Suspended)
            },
            Ok(Poll::Ready(Ok(m))) => {
                match m {
                    WaitResult::Lagged(lag) => fx.note(Event::ChannelLagged { lag }),
                    WaitResult::Message(message) => fx.note(Event::ChannelMessage { message }),
                }
                self.block(now, fx)
            },
            Ok(Poll::Ready(Err(_))) => self.block(now, fx),
        }
    }

    /// One turn of the task at `now` on behalf of `waker`. Before the
    /// first press the task waits for it; when it has come the task
    /// spawns the two others and begins to spin. While it spins it
    /// answers `Spinning` until its time is up; then it waits for the
    /// channel within its time limit, reports what it read, and spins
    /// again.
    pub fn poll(
        &mut self,
        button: &mut EdgeInput,
        channel: &mut PubSubChannel<u32>,
        contexts: &mut ContextSet,
        now: Instant,
        timers: &mut TimerQueue,
        waker: Waker,
        fx: &mut Effects<Event>,
    ) -> (r: Result<Flow, Error>)
        requires
            old(timers).wf(),
            old(channel).wf(),
            old(contexts).wf(),
        ensures
            final(timers).wf(),
            final(channel).wf(),
            final(contexts).wf(),
            final(fx).woken@ == old(fx).woken@,
            ({
                let after = old(self).world(
                    *old(button),
                    old(channel)@,
                    old(contexts)@,
                    old(timers)@,
                    *old(fx),
                ).polled(now, waker);
                &&& final(self).world(
                    *final(button),
                    final(channel)@,
                    final(contexts)@,
                    final(timers)@,
                    *final(fx),
                ) == MainWorld { failed: None, flow: Flow::Suspended, ..after }
                &&& r == flow_answer(after.failed, after.flow)
            }),
    {
        match self.state {
            MainState::Blocking { start } => {
                if now.since(start).as_ticks() < MAIN_WAIT_SECS * TICK_HZ {
                    Ok(Flow::Spinning)
                } else {
                    fx.note(Event::AsyncWait);
                    let timeout = Timeout::new(now, Duration::from_secs(MAIN_WAIT_SECS));
                    self.listen(
                        timeout,
                        channel,
                        now,
                        timers,
                        waker,
                        fx,
                        Ghost(*button),
                        Ghost(contexts@),
                    )
                }
            },
            MainState::Async { timeout } => self.listen(
                timeout,
                channel,
                now,
                timers,
                waker,
                fx,
                Ghost(*button),
                Ghost(contexts@),
            ),
            _ => {
                if self.state == MainState::Start {
                    fx.note(Event::WaitingRisingEdge);
                }
                self.state = MainState::AwaitEdge;
                let ghost before = fx.log@;
                match button.poll_rising_edge(waker) {
                    Err(e) => Err(e),
                    Ok(Poll::Pending) => Ok(Flow::Suspended),
                    Ok(Poll::Ready(_)) => {
                        let _ = contexts.spawn(Waker { context: MAIN_CONTEXT, task: 1 });
                        let _ = contexts.spawn(Waker { context: INTERRUPT_CONTEXT, task: 0 });
                        fx.note(Event::Initialized);
                        fx.note(Event::StartingLowPriority);
                        assert(fx.log@ =~= before + seq![
                            Event::Initialized,
                            Event::StartingLowPriority,
                        ]);
                        self.block(now, fx)
                    },
                }
            },
        }
    }
}

/// How many messages the channel keeps.
pub const CHANNEL_DEPTH: usize = 5;

/// The largest counter from which the task of higher priority can still
/// take a turn.
pub const MAX_NUM: u32 = 0xffff_fffd;

/// The program: the main task and the task that it starts in the main
/// context, the task that it starts in the interrupt's context, the
/// button and the channel.
pub struct Preempt {
    rt: Runtime,
    channel: PubSubChannel<u32>,
    button: EdgeInput,
    main: MainLoop,
    low: LowPrio,
    high: HigherPrio,
}

/// The state of the program.
pub struct PreemptView {
    pub rt: RuntimeView,
    pub channel: PubSubView<u32>,
    pub button: EdgeInput,
    pub main: MainLoop,
    pub low: LowPrio,
    pub high: HigherPrio,
}

/// What a turn of the program comes to: the state after it and what it
/// hands out.
pub struct PreemptTurn {
    pub state: PreemptView,
    pub ran: Option<Waker>,
    pub log: Seq<Event>,
    pub failed: Option<Error>,
    pub sleep_until: Option<Instant>,
}

impl PreemptView {
    pub open spec fn wf(self) -> bool {
        &&& self.rt.contexts.len() == 2
        &&& self.rt.contexts[0].core == 0
        &&& self.rt.contexts[1].core == 0
        &&& self.rt.contexts[0].priority < self.rt.contexts[1].priority
        &&& self.low.valid()
        &&& self.high.valid()
        &&& self.high.has_button
        &&& !self.low.has_button
    }

    /// Whether the main task spins and so keeps its context.
    pub open spec fn spinning(self) -> bool {
        self.main.state is Blocking
    }

    /// Whether the interrupt's context has a task to run, which goes
    /// before whatever the main context does.
    pub open spec fn preempted(self) -> bool {
        next_on(self.rt.contexts, 0) is Some && next_on(self.rt.contexts, 0).unwrap().context
            == INTERRUPT_CONTEXT
    }

    /// The task that runs next, the deadlines that were due having fired:
    /// one of the interrupt's context if there is one, else the main task
    /// if it spins, else the next of the main context.
    pub open spec fn runs(self) -> Option<Waker> {
        if !self.preempted() && self.spinning() {
            Some(main_waker())
        } else {
            next_on(self.rt.contexts, 0)
        }
    }

    /// The state once the task that runs next is taken off its queue. A
    /// main task that spins was on none.
    pub open spec fn taken(self) -> Self {
        if !self.preempted() && self.spinning() {
            self
        } else {
            PreemptView {
                rt: RuntimeView { contexts: picked(self.rt.contexts, 0), ..self.rt },
                ..self
            }
        }
    }

    /// The turn in which the main task is resumed.
    pub open spec fn main_turn(self, w: Waker, now: Instant) -> PreemptTurn {
        let after = MainWorld {
            task: self.main,
            button: self.button,
            channel: self.channel,
            contexts: self.rt.contexts,
            timers: self.rt.timers,
            log: Seq::empty(),
            failed: None,
            flow: Flow::Suspended,
        }.polled(now, w);
        PreemptTurn {
            state: PreemptView {
                rt: RuntimeView { contexts: after.contexts, timers: after.timers },
                channel: after.channel,
                button: after.button,
                main: after.task,
                ..self
            },
            ran: Some(w),
            log: after.log,
            failed: after.failed,
            sleep_until: None,
        }
    }

    /// The turn in which the task of the main context is resumed.
    pub open spec fn low_turn(self, w: Waker, now: Instant) -> PreemptTurn {
        let after = LowPrioWorld {
            task: self.low,
            button: self.button,
            timers: self.rt.timers,
            log: Seq::empty(),
            failed: None,
        }.polled(now, w);
        PreemptTurn {
            state: PreemptView {
                rt: RuntimeView { timers: after.timers, ..self.rt },
                button: after.button,
                low: after.task,
                ..self
            },
            ran: Some(w),
            log: after.log,
            failed: after.failed,
            sleep_until: None,
        }
    }

    /// The turn in which the task of the interrupt's context is resumed.
    pub open spec fn high_turn(self, w: Waker, now: Instant) -> PreemptTurn {
        let after = HigherPrioWorld {
            task: self.high,
            button: self.button,
            channel: self.channel,
            timers: self.rt.timers,
            woken: Seq::empty(),
            log: Seq::empty(),
            failed: None,
        }.polled(now, w);
        PreemptTurn {
            state: PreemptView {
                rt: RuntimeView { timers: after.timers, ..self.rt }.finished(after.woken),
                channel: after.channel,
                button: after.button,
                high: after.task,
                ..self
            },
            ran: Some(w),
            log: after.log,
            failed: after.failed,
            sleep_until: None,
        }
    }

    /// The state once the deadlines due at `now` have fired.
    pub open spec fn expired(self, now: Instant) -> Self {
        PreemptView {
            rt: RuntimeView {
                contexts: self.rt.fired_contexts(now),
                timers: TimerQueueView {
                    entries: crate::timer::after_expiry(self.rt.timers.entries, now),
                    capacity: self.rt.timers.capacity,
                },
            },
            ..self
        }
    }

    /// One pass of the run loop at `now`.
    pub open spec fn stepped(self, now: Instant) -> PreemptTurn {
        let ready = self.expired(now);
        let begun = ready.taken();
        match ready.runs() {
            None => PreemptTurn {
                state: begun,
                ran: None,
                log: Seq::empty(),
                failed: None,
                sleep_until: begun.rt.timers.next_deadline(now),
            },
            Some(w) => if w.context == INTERRUPT_CONTEXT {
                begun.high_turn(w, now)
            } else if w.task == 0 {
                begun.main_turn(w, now)
            } else {
                begun.low_turn(w, now)
            },
        }
    }

    /// The state after a press of the button: whoever waited for it is
    /// runnable.
    pub open spec fn pressed(self) -> Self {
        PreemptView {
            rt: RuntimeView {
                contexts: match self.button.waiter {
                    Some(w) => crate::context::woken(self.rt.contexts, w),
                    None => self.rt.contexts,
                },
                ..self.rt
            },
            button: self.button.risen(),
            ..self
        }
    }
}

impl View for Preempt {
    type V = PreemptView;

    closed spec fn view(&self) -> PreemptView {
        PreemptView {
            rt: self.rt@,
            channel: self.channel@,
            button: self.button,
            main: self.main,
            low: self.low,
            high: self.high,
        }
    }
}

impl Preempt {
    /// The state is well formed and the representation sound.
    pub open spec fn wf(&self) -> bool {
        &&& self.inv()
        &&& self@.wf()
    }

    /// The invariant of the representation.
    pub closed spec fn inv(&self) -> bool {
        &&& self.rt.wf()
        &&& self.channel.wf()
    }

    /// The program at its start: the main task runnable in the main
    /// context, the two others yet to be spawned, the channel empty with
    /// the main task subscribed, and nobody waiting for the button.
    pub fn new() -> (p: Self)
        ensures
            p.wf(),
            p@.main == (MainLoop { rx: 0, state: MainState::Start }),
            p@.low == (LowPrio { has_button: false, ticker: None }),
            p@.high == (HigherPrio {
                has_button: true,
                num: 0,
                state: HigherState::Start,
                ticker: None,
            }),
            p@.button == EdgeInput::idle(),
            p@.channel.queue.len() == 0,
            p@.channel.capacity == CHANNEL_DEPTH,
            p@.channel.caught_up(0),
            p@.rt.timers.entries.len() == 0,
            p@.rt.contexts.len() == 2,
            p@.rt.contexts[0].core == 0,
            p@.rt.contexts[1].core == 0,
            p@.rt.contexts[0].priority < p@.rt.contexts[1].priority,
            p@.rt.contexts[0].executor.queue == seq![0usize],
            p@.rt.contexts[1].executor.queue.len() == 0,
    {
        let mut channel: PubSubChannel<u32> = PubSubChannel::new(CHANNEL_DEPTH, 1, 1);
        proof {
            crate::pubsub::lemma_first_free_sub(channel@.subs);
        }
        let rx = channel.subscriber();
        let tx = channel.publisher();
        assert(rx == Ok::<usize, Error>(0) && tx is Ok);
        let mut rt = Runtime::new(4);
        let main_ctx = rt.contexts.add(0, 0, 2);
        let irq_ctx = rt.contexts.add(0, 1, 1);
        let main = rt.contexts.spawn(Waker { context: main_ctx, task: 0 });
        assert(main is Ok);
        let p = Preempt {
            rt,
            channel,
            button: EdgeInput::new(),
            main: MainLoop::new(0),
            low: LowPrio::new(false),
            high: HigherPrio::new(true),
        };
        assert(p@.rt.contexts[0].executor.queue =~= seq![0usize]);
        p
    }

    /// The guard that the channel needs: the one that its reach asks
    /// for. The channel is read in the main context and published to in
    /// the interrupt's context. The two differ in priority, so the guard
    /// has to shut out preemption.
    pub fn channel_guard(&self) -> (g: Guard)
        requires
            self.wf(),
        ensures
            g == guard_needed(self@.rt.contexts, seq![MAIN_CONTEXT, INTERRUPT_CONTEXT]),
            g == Guard::PreemptionSafe,
    {
        let mut users: Vec<usize> = Vec::new();
        users.push(MAIN_CONTEXT);
        users.push(INTERRUPT_CONTEXT);
        proof {
            assert(users@ =~= seq![MAIN_CONTEXT, INTERRUPT_CONTEXT]);
            assert(users@[0] < self@.rt.contexts.len());
            assert(users@[1] < self@.rt.contexts.len());
            assert(reached_across(self@.rt.contexts, users@));
        }
        self.rt.contexts.guard_for(&users)
    }

    /// Whether the main task spins: the core has work whatever its queues
    /// hold, and must not sleep.
    pub fn is_spinning(&self) -> (b: bool)
        ensures
            b == self@.spinning(),
    {
        match self.main.state {
            MainState::Blocking { .. } => true,
            _ => false,
        }
    }

    /// The counter that the task of higher priority publishes next.
    pub fn published(&self) -> (n: u32)
        ensures
            n == self@.high.num,
    {
        self.high.num
    }

    /// Whether the program can take another turn: the counter can still
    /// count up.
    pub fn can_step(&self) -> (b: bool)
        ensures
            b == (self@.high.num <= MAX_NUM),
    {
        self.high.num <= MAX_NUM
    }

    /// Reports a press of the button: whoever waited for it becomes
    /// runnable.
    pub fn rising_edge(&mut self)
        requires
            old(self).wf(),
        ensures
            final(self).wf(),
            final(self)@ == old(self)@.pressed(),
    {
        match self.button.on_rising_edge() {
            Some(w) => {
                let _ = self.rt.contexts.wake(w);
            },
            None => {},
        }
    }

    /// One pass of the run loop at `now`: the deadlines that are due
    /// fire; then a task of the interrupt's context runs if one is
    /// runnable, else the main task if it spins, else the next task of
    /// the main context. The task is resumed until it suspends or spins,
    /// and the tasks that it woke are runnable afterwards.
    pub fn step(&mut self, now: Instant) -> (turn: Turn<Event>)
        requires
            old(self).wf(),
            old(self)@.high.num <= MAX_NUM,
        ensures
            final(self).wf(),
            final(self)@ == old(self)@.stepped(now).state,
            turn.ran == old(self)@.stepped(now).ran,
            turn.log@ == old(self)@.stepped(now).log,
            turn.failed == old(self)@.stepped(now).failed,
            turn.sleep_until == old(self)@.stepped(now).sleep_until,
    {
        let due = self.rt.timers.expire(now);
        self.rt.contexts.wake_all(&due);
        let next = self.rt.contexts.peek(0);
        let preempted: bool = match next {
            Some(w) => w.context == INTERRUPT_CONTEXT,
            None => false,
        };
        let runs: Option<Waker> = if !preempted && self.is_spinning() {
            Some(Waker { context: MAIN_CONTEXT, task: 0 })
        } else {
            self.rt.contexts.pick(0)
        };
        match runs {
            None => {
                let until = self.rt.sleep_until(now);
                Turn { ran: None, log: Vec::new(), failed: None, sleep_until: until }
            },
            Some(w) => {
                let mut fx: Effects<Event> = Effects::new();
                let failed: Option<Error> = if w.context == INTERRUPT_CONTEXT {
                    let r = self.high.poll(
                        &mut self.button,
                        &mut self.channel,
                        now,
                        &mut self.rt.timers,
                        w,
                        &mut fx,
                    );
                    self.rt.finish_turn(&fx.woken);
                    match r {
                        Ok(_) => None,
                        Err(e) => Some(e),
                    }
                } else if w.task == 0 {
                    let r = self.main.poll(
                        &mut self.button,
                        &mut self.channel,
                        &mut self.rt.contexts,
                        now,
                        &mut self.rt.timers,
                        w,
                        &mut fx,
                    );
                    match r {
                        Ok(_) => None,
                        Err(e) => Some(e),
                    }
                } else {
                    let r = self.low.poll(&mut self.button, now, &mut self.rt.timers, w, &mut fx);
                    match r {
                        Ok(_) => None,
                        Err(e) => Some(e),
                    }
                };
                Turn { ran: Some(w), log: fx.log, failed, sleep_until: None }
            },
        }
    }
}

} // verus!
