//! One sender and two receivers of a watch, on two cores.
//!
//! The main task on core 0 sends a counter once a second. One task on
//! core 1 runs two receivers side by side: each reports every value that
//! it sees, the second a fifth of a second after it saw it. A receiver
//! that is busy when values are sent sees the latest of them only.

use vstd::prelude::*;
use crate::context::{guard_needed, reached_across, Guard};
use crate::delay::Timer;
use crate::error::Error;
use crate::runtime::{Runtime, RuntimeView, Turn};
use crate::task::{answer_of, Effects, Poll, Waker};
use crate::time::{Duration, Instant, TICKS_PER_MILLI, TICK_HZ};
use crate::timer::{TimerQueue, TimerQueueView};
use crate::watch::{waiters, Watch, WatchView};

verus! {

/// What the tasks report.
#[derive(Clone, Copy, Debug, PartialEq, Eq, Structural)]
pub enum Event {
    InSecondCore,
    Sending { value: u64 },
    AfterDelay { seconds: u64 },
    Received { receiver: usize, value: u64 },
}

/// Seconds between two sends.
pub const SEND_PERIOD_SECS: u64 = 1;

/// Milliseconds by which the second receiver reports late.
pub const REPORT_DELAY_MILLIS: u64 = 200;

/// The number of the receiver that reports late.
pub const SLOW_RECEIVER: usize = 2;

/// Where a receiver stands.
#[derive(Clone, Copy, Debug, PartialEq, Eq, Structural)]
pub enum ReceiveState {
    /// It waits for the next value.
    Waiting,
    /// It has seen `value` and waits before it reports it.
    Delaying { value: u64, timer: Timer },
}

/// One receiver: its slot in the watch, the number under which it
/// reports, and where it stands.
#[derive(Clone, Copy, Debug, PartialEq, Eq, Structural)]
pub struct Receive {
    pub id: usize,
    pub num_task: usize,
    pub state: ReceiveState,
}

/// A receiver together with what it touches.
pub struct ReceiveWorld {
    pub task: Receive,
    pub watch: WatchView<u64>,
    pub timers: TimerQueueView,
    pub log: Seq<Event>,
    /// The error on which the turn ended, if it ended on one.
    pub failed: Option<Error>,
}

/// The timer that a wait of `millis` milliseconds from `now` starts with.
pub open spec fn timer_millis(now: Instant, millis: u64) -> Timer {
    Timer { deadline: now.plus(Duration { ticks: (millis * TICKS_PER_MILLI) as u64 }), yielded: false }
}

/// The timer that a wait of `secs` seconds from `now` starts with.
pub open spec fn timer_secs(now: Instant, secs: u64) -> Timer {
    Timer { deadline: now.plus(Duration { ticks: (secs * TICK_HZ) as u64 }), yielded: false }
}

impl ReceiveWorld {
    /// The world after the receiver has asked for a change. A value that
    /// it gets it reports at once, or not before the delay where it is
    /// the slow receiver.
    pub open spec fn waited(self, now: Instant, waker: Waker) -> Self {
        match self.watch.changed_answer(self.task.id) {
            Poll::Pending => ReceiveWorld {
                watch: self.watch.changed(self.task.id, waker),
                ..self
            },
            Poll::Ready(value) => if self.task.num_task == SLOW_RECEIVER {
                let timer = timer_millis(now, REPORT_DELAY_MILLIS);
                match self.timers.schedule_answer(timer.entry(waker)) {
                    Ok(_) => ReceiveWorld {
                        task: Receive {
                            state: ReceiveState::Delaying {
                                value,
                                timer: Timer { yielded: true, ..timer },
                            },
                            ..self.task
                        },
                        watch: self.watch.changed(self.task.id, waker),
                        timers: self.timers.scheduled(timer.entry(waker)),
                        ..self
                    },
                    Err(e) => ReceiveWorld {
                        task: Receive { state: ReceiveState::Delaying { value, timer }, ..self.task },
                        watch: self.watch.changed(self.task.id, waker),
                        timers: self.timers.scheduled(timer.entry(waker)),
                        failed: Some(e),
                        ..self
                    },
                }
            } else {
                ReceiveWorld {
                    watch: self.watch.changed(self.task.id, waker).changed(self.task.id, waker),
                    log: self.log.push(Event::Received { receiver: self.task.num_task, value }),
                    ..self
                }
            },
        }
    }

    /// The world after the delaying receiver has asked the clock, has
    /// reported where its delay was over, and has then asked for the next
    /// change.
    pub open spec fn delayed(self, value: u64, timer: Timer, now: Instant, waker: Waker) -> Self {
        if timer.done(now) {
            ReceiveWorld {
                task: Receive { state: ReceiveState::Waiting, ..self.task },
                timers: self.timers.cancelled(timer.entry(waker)),
                log: self.log.push(Event::Received { receiver: self.task.num_task, value }),
                ..self
            }.waited(now, waker)
        } else {
            match self.timers.schedule_answer(timer.entry(waker)) {
                Ok(_) => ReceiveWorld {
                    task: Receive {
                        state: ReceiveState::Delaying {
                            value,
                            timer: Timer { yielded: true, ..timer },
                        },
                        ..self.task
                    },
                    timers: self.timers.scheduled(timer.entry(waker)),
                    ..self
                },
                Err(e) => ReceiveWorld {
                    timers: self.timers.scheduled(timer.entry(waker)),
                    failed: Some(e),
                    ..self
                },
            }
        }
    }

    /// The world after one turn of the receiver at `now`.
    pub open spec fn polled(self, now: Instant, waker: Waker) -> Self {
        match self.task.state {
            ReceiveState::Waiting => self.waited(now, waker),
            ReceiveState::Delaying { value, timer } => self.delayed(value, timer, now, waker),
        }
    }
}

impl Receive {
    /// The receiver in slot `id` of the watch that reports as `num_task`.
    pub fn new(id: usize, num_task: usize) -> (r: Receive)
        ensures
            r == (Receive { id, num_task, state: ReceiveState::Waiting }),
    {
        Receive { id, num_task, state: ReceiveState::Waiting }
    }

    /// The receiver and what it touches, as one value.
    pub open spec fn world(
        self,
        watch: WatchView<u64>,
        timers: TimerQueueView,
        fx: Effects<Event>,
    ) -> ReceiveWorld {
        ReceiveWorld { task: self, watch, timers, log: fx.log@, failed: None }
    }

    fn wait(
        &mut self,
        watch: &mut Watch<u64>,
        now: Instant,
        timers: &mut TimerQueue,
        waker: Waker,
        fx: &mut Effects<Event>,
    ) -> (r: Result<(), Error>)
        requires
            old(watch).wf(),
            old(timers).wf(),
        ensures
            final(watch).wf(),
            final(timers).wf(),
            final(fx).woken@ == old(fx).woken@,
            final(self).world(final(watch)@, final(timers)@, *final(fx)) == (ReceiveWorld {
                failed: None,
                ..old(self).world(old(watch)@, old(timers)@, *old(fx)).waited(now, waker)
            }),
            r == answer_of(
                old(self).world(old(watch)@, old(timers)@, *old(fx)).waited(now, waker).failed,
            ),
    {
        match watch.poll_changed(self.id, waker) {
            Poll::Pending => Ok(()),
            Poll::Ready(value) => {
                if self.num_task == SLOW_RECEIVER {
                    let mut timer = Timer::after(now, Duration::from_millis(REPORT_DELAY_MILLIS));
                    let r = timer.poll(now, timers, waker);
                    self.state = ReceiveState::Delaying { value, timer };
                    match r {
                        Ok(_) => Ok(()),
                        Err(e) => Err(e),
                    }
                } else {
                    fx.note(Event::Received { receiver: self.num_task, value });
                    let again = watch.poll_changed(self.id, waker);
                    assert(again == Poll::<u64>::Pending);
                    Ok(())
                }
            },
        }
    }

    /// One turn of the receiver at `now` on behalf of `waker`. It reports
    /// each value that it sees, the slow receiver after its delay, and
    /// its turn ends when it has to wait for the watch or for the clock,
    /// or on an error of the timer service.
    pub fn poll(
        &mut self,
        watch: &mut Watch<u64>,
        now: Instant,
        timers: &mut TimerQueue,
        waker: Waker,
        fx: &mut Effects<Event>,
    ) -> (r: Result<(), Error>)
        requires
            old(watch).wf(),
            old(timers).wf(),
        ensures
            final(watch).wf(),
            final(timers).wf(),
            final(fx).woken@ == old(fx).woken@,
            final(self).world(final(watch)@, final(timers)@, *final(fx)) == (ReceiveWorld {
                failed: None,
                ..old(self).world(old(watch)@, old(timers)@, *old(fx)).polled(now, waker)
            }),
            r == answer_of(
                old(self).world(old(watch)@, old(timers)@, *old(fx)).polled(now, waker).failed,
            ),
    {
        match self.state {
            ReceiveState::Waiting => self.wait(watch, now, timers, waker, fx),
            ReceiveState::Delaying { value, timer } => {
                let mut timer = timer;
                match timer.poll(now, timers, waker) {
                    Err(e) => Err(e),
                    Ok(Poll::Pending) => {
                        self.state = ReceiveState::Delaying { value, timer };
                        Ok(())
                    },
                    Ok(Poll::Ready(_)) => {
                        fx.note(Event::Received { receiver: self.num_task, value });
                        self.state = ReceiveState::Waiting;
                        self.wait(watch, now, timers, waker, fx)
                    },
                }
            },
        }
    }
}

/// The task of the second core: both receivers, side by side.
#[derive(Clone, Copy, Debug, PartialEq, Eq, Structural)]
pub struct AppCoreTask {
    pub started: bool,
    pub first: Receive,
    pub second: Receive,
}

/// The task of the second core together with what it touches.
pub struct AppCoreWorld {
    pub task: AppCoreTask,
    pub watch: WatchView<u64>,
    pub timers: TimerQueueView,
    pub log: Seq<Event>,
    pub failed: Option<Error>,
}

impl AppCoreWorld {
    /// The world after one turn of the task at `now`: the first receiver
    /// takes its turn, then the second, unless the first failed.
    pub open spec fn polled(self, now: Instant, waker: Waker) -> Self {
        let log = if self.task.started {
            self.log
        } else {
            self.log.push(Event::InSecondCore)
        };
        let a = ReceiveWorld {
            task: self.task.first,
            watch: self.watch,
            timers: self.timers,
            log,
            failed: None,
        }.polled(now, waker);
        if a.failed is Some {
            AppCoreWorld {
                task: AppCoreTask { started: true, first: a.task, second: self.task.second },
                watch: a.watch,
                timers: a.timers,
                log: a.log,
                failed: a.failed,
            }
        } else {
            let b = ReceiveWorld { task: self.task.second, ..a }.polled(now, waker);
            AppCoreWorld {
                task: AppCoreTask { started: true, first: a.task, second: b.task },
                watch: b.watch,
                timers: b.timers,
                log: b.log,
                failed: b.failed,
            }
        }
    }
}

impl AppCoreTask {
    /// The task for the receivers in slots `first` and `second` of the
    /// watch.
    pub fn new(first: usize, second: usize) -> (t: AppCoreTask)
        ensures
            t == (AppCoreTask {
                started: false,
                first: Receive { id: first, num_task: 1, state: ReceiveState::Waiting },
                second: Receive { id: second, num_task: 2, state: ReceiveState::Waiting },
            }),
    {
        AppCoreTask { started: false, first: Receive::new(first, 1), second: Receive::new(second, 2) }
    }

    /// The task and what it touches, as one value.
    pub open spec fn world(
        self,
        watch: WatchView<u64>,
        timers: TimerQueueView,
        fx: Effects<Event>,
    ) -> AppCoreWorld {
        AppCoreWorld { task: self, watch, timers, log: fx.log@, failed: None }
    }

    /// One turn of the task at `now` on behalf of `waker`.
    pub fn poll(
        &mut self,
        watch: &mut Watch<u64>,
        now: Instant,
        timers: &mut TimerQueue,
        waker: Waker,
        fx: &mut Effects<Event>,
    ) -> (r: Result<(), Error>)
        requires
            old(watch).wf(),
            old(timers).wf(),
        ensures
            final(watch).wf(),
            final(timers).wf(),
            final(fx).woken@ == old(fx).woken@,
            final(self).world(final(watch)@, final(timers)@, *final(fx)) == (AppCoreWorld {
                failed: None,
                ..old(self).world(old(watch)@, old(timers)@, *old(fx)).polled(now, waker)
            }),
            r == answer_of(
                old(self).world(old(watch)@, old(timers)@, *old(fx)).polled(now, waker).failed,
            ),
    {
        if !self.started {
            fx.note(Event::InSecondCore);
            self.started = true;
        }
        match self.first.poll(watch, now, timers, waker, fx) {
            Err(e) => Err(e),
            Ok(_) => self.second.poll(watch, now, timers, waker, fx),
        }
    }
}

/// Where the sending task stands.
#[derive(Clone, Copy, Debug, PartialEq, Eq, Structural)]
pub enum SenderState {
    /// It has yet to run.
    Start,
    /// It has sent its counter and sleeps.
    Sleeping { timer: Timer },
}

/// The sending task: its counter and where it stands.
#[derive(Clone, Copy, Debug, PartialEq, Eq, Structural)]
pub struct Sender {
    pub n: u64,
    pub state: SenderState,
}

/// The sending task together with what it touches.
pub struct SenderWorld {
    pub task: Sender,
    pub watch: WatchView<u64>,
    pub timers: TimerQueueView,
    pub woken: Seq<Waker>,
    pub log: Seq<Event>,
    pub failed: Option<Error>,
}

impl SenderWorld {
    /// The world after the task has sent its counter and gone to sleep.
    pub open spec fn sent(self, now: Instant, waker: Waker) -> Self {
        let timer = timer_secs(now, SEND_PERIOD_SECS);
        let base = SenderWorld {
            watch: self.watch.sent(self.task.n),
            timers: self.timers.scheduled(timer.entry(waker)),
            woken: self.woken + waiters(self.watch.slots),
            log: self.log.push(Event::Sending { value: self.task.n }),
            ..self
        };
        match self.timers.schedule_answer(timer.entry(waker)) {
            Ok(_) => SenderWorld {
                task: Sender {
                    state: SenderState::Sleeping { timer: Timer { yielded: true, ..timer } },
                    ..self.task
                },
                ..base
            },
            Err(e) => SenderWorld {
                task: Sender { state: SenderState::Sleeping { timer }, ..self.task },
                failed: Some(e),
                ..base
            },
        }
    }

    /// The world after one turn of the task at `now`.
    pub open spec fn polled(self, now: Instant, waker: Waker) -> Self {
        match self.task.state {
            SenderState::Start => self.sent(now, waker),
            SenderState::Sleeping { timer } => if timer.done(now) {
                SenderWorld {
                    task: Sender { n: (self.task.n + 1) as u64, ..self.task },
                    timers: self.timers.cancelled(timer.entry(waker)),
                    log: self.log.push(Event::AfterDelay { seconds: SEND_PERIOD_SECS }),
                    ..self
                }.sent(now, waker)
            } else {
                match self.timers.schedule_answer(timer.entry(waker)) {
                    Ok(_) => SenderWorld {
                        task: Sender {
                            state: SenderState::Sleeping { timer: Timer { yielded: true, ..timer } },
                            ..self.task
                        },
                        timers: self.timers.scheduled(timer.entry(waker)),
                        ..self
                    },
                    Err(e) => SenderWorld {
                        timers: self.timers.scheduled(timer.entry(waker)),
                        failed: Some(e),
                        ..self
                    },
                }
            },
        }
    }
}

impl Sender {
    pub fn new() -> (s: Sender)
        ensures
            s == (Sender { n: 0, state: SenderState::Start }),
    {
        Sender { n: 0, state: SenderState::Start }
    }

    /// The task and what it touches, as one value.
    pub open spec fn world(
        self,
        watch: WatchView<u64>,
        timers: TimerQueueView,
        fx: Effects<Event>,
    ) -> SenderWorld {
        SenderWorld { task: self, watch, timers, woken: fx.woken@, log: fx.log@, failed: None }
    }

    fn send(
        &mut self,
        watch: &mut Watch<u64>,
        now: Instant,
        timers: &mut TimerQueue,
        waker: Waker,
        fx: &mut Effects<Event>,
    ) -> (r: Result<(), Error>)
        requires
            old(watch).wf(),
            old(timers).wf(),
        ensures
            final(watch).wf(),
            final(timers).wf(),
            final(self).world(final(watch)@, final(timers)@, *final(fx)) == (SenderWorld {
                failed: None,
                ..old(self).world(old(watch)@, old(timers)@, *old(fx)).sent(now, waker)
            }),
            r == answer_of(
                old(self).world(old(watch)@, old(timers)@, *old(fx)).sent(now, waker).failed,
            ),
    {
        fx.note(Event::Sending { value: self.n });
        let woken = watch.send(self.n);
        fx.wake_all(woken);
        let mut timer = Timer::after(now, Duration::from_secs(SEND_PERIOD_SECS));
        let r = timer.poll(now, timers, waker);
        self.state = SenderState::Sleeping { timer };
        match r {
            Ok(_) => Ok(()),
            Err(e) => Err(e),
        }
    }

    /// One turn of the task at `now` on behalf of `waker`: it sends its
    /// counter when it starts and then each time its sleep is over, one
    /// higher each time. The turn ends when the task has to sleep, or on
    /// an error of the timer service.
    pub fn poll(
        &mut self,
        watch: &mut Watch<u64>,
        now: Instant,
        timers: &mut TimerQueue,
        waker: Waker,
        fx: &mut Effects<Event>,
    ) -> (r: Result<(), Error>)
        requires
            old(watch).wf(),
            old(timers).wf(),
            old(self).n < u64::MAX,
        ensures
            final(watch).wf(),
            final(timers).wf(),
            final(self).world(final(watch)@, final(timers)@, *final(fx)) == (SenderWorld {
                failed: None,
                ..old(self).world(old(watch)@, old(timers)@, *old(fx)).polled(now, waker)
            }),
            r == answer_of(
                old(self).world(old(watch)@, old(timers)@, *old(fx)).polled(now, waker).failed,
            ),
    {
        match self.state {
            SenderState::Start => self.send(watch, now, timers, waker, fx),
            SenderState::Sleeping { timer } => {
                let mut timer = timer;
                match timer.poll(now, timers, waker) {
                    Err(e) => Err(e),
                    Ok(Poll::Pending) => {
                        self.state = SenderState::Sleeping { timer };
                        Ok(())
                    },
                    Ok(Poll::Ready(_)) => {
                        fx.note(Event::AfterDelay { seconds: SEND_PERIOD_SECS });
                        self.n = self.n + 1;
                        self.send(watch, now, timers, waker, fx)
                    },
                }
            },
        }
    }
}

/// The program: the sending task on core 0, the receiving task on core
/// 1, and the watch between them.
pub struct Broadcast {
    rt: Runtime,
    watch: Watch<u64>,
    main: Sender,
    app: AppCoreTask,
}

/// The state of the program.
pub struct BroadcastView {
    pub rt: RuntimeView,
    pub watch: WatchView<u64>,
    pub main: Sender,
    pub app: AppCoreTask,
}

/// What a turn of the program comes to: the state after it and what it
/// hands out.
pub struct BroadcastTurn {
    pub state: BroadcastView,
    pub ran: Option<Waker>,
    pub log: Seq<Event>,
    pub failed: Option<Error>,
    pub sleep_until: Option<Instant>,
}

/// The context of the sending task.
pub const MAIN_CONTEXT: usize = 0;

/// The context of the receiving task.
pub const APP_CONTEXT: usize = 1;

impl BroadcastView {
    /// The two contexts are there, each on a core of its own.
    pub open spec fn wf(self) -> bool {
        &&& self.rt.contexts.len() == 2
        &&& self.rt.contexts[0].core != self.rt.contexts[1].core
    }

    /// The turn in which the sending task is resumed.
    pub open spec fn main_turn(self, w: Waker, now: Instant) -> BroadcastTurn {
        let after = SenderWorld {
            task: self.main,
            watch: self.watch,
            timers: self.rt.timers,
            woken: Seq::empty(),
            log: Seq::empty(),
            failed: None,
        }.polled(now, w);
        BroadcastTurn {
            state: BroadcastView {
                rt: RuntimeView { timers: after.timers, ..self.rt }.finished(after.woken),
                watch: after.watch,
                main: after.task,
                app: self.app,
            },
            ran: Some(w),
            log: after.log,
            failed: after.failed,
            sleep_until: None,
        }
    }

    /// The turn in which the receiving task is resumed.
    pub open spec fn app_turn(self, w: Waker, now: Instant) -> BroadcastTurn {
        let after = AppCoreWorld {
            task: self.app,
            watch: self.watch,
            timers: self.rt.timers,
            log: Seq::empty(),
            failed: None,
        }.polled(now, w);
        BroadcastTurn {
            state: BroadcastView {
                rt: RuntimeView { timers: after.timers, ..self.rt }.finished(Seq::empty()),
                watch: after.watch,
                main: self.main,
                app: after.task,
            },
            ran: Some(w),
            log: after.log,
            failed: after.failed,
            sleep_until: None,
        }
    }

    /// One pass of the run loop of `core` at `now`.
    pub open spec fn stepped(self, core: usize, now: Instant) -> BroadcastTurn {
        let begun = BroadcastView { rt: self.rt.begun(core, now), ..self };
        match self.rt.turn_of(core, now) {
            None => BroadcastTurn {
                state: begun,
                ran: None,
                log: Seq::empty(),
                failed: None,
                sleep_until: begun.rt.timers.next_deadline(now),
            },
            Some(w) => if w.context == MAIN_CONTEXT {
                begun.main_turn(w, now)
            } else {
                begun.app_turn(w, now)
            },
        }
    }
}

impl View for Broadcast {
    type V = BroadcastView;

    closed spec fn view(&self) -> BroadcastView {
        BroadcastView { rt: self.rt@, watch: self.watch@, main: self.main, app: self.app }
    }
}

impl Broadcast {
    /// The state is well formed and the representation sound.
    pub open spec fn wf(&self) -> bool {
        &&& self.inv()
        &&& self@.wf()
    }

    /// The invariant of the representation.
    pub closed spec fn inv(&self) -> bool {
        &&& self.rt.wf()
        &&& self.watch.wf()
    }

    /// The guard that the watch needs: the one that its reach asks for.
    /// The watch is sent to from the main context and received from in
    /// the context of the second core. The two run on different cores, so
    /// the guard has to shut out preemption and the other core.
    pub fn watch_guard(&self) -> (g: Guard)
        requires
            self.wf(),
        ensures
            g == guard_needed(self@.rt.contexts, seq![MAIN_CONTEXT, APP_CONTEXT]),
            g == Guard::PreemptionSafe,
    {
        let mut users: Vec<usize> = Vec::new();
        users.push(MAIN_CONTEXT);
        users.push(APP_CONTEXT);
        proof {
            assert(users@ =~= seq![MAIN_CONTEXT, APP_CONTEXT]);
            assert(users@[0] < self@.rt.contexts.len());
            assert(users@[1] < self@.rt.contexts.len());
            assert(reached_across(self@.rt.contexts, users@));
        }
        self.rt.contexts.guard_for(&users)
    }

    /// The program at its start: a watch without a value whose two
    /// receivers are connected, the sending task runnable on core 0 and
    /// the receiving task on core 1.
    pub fn new() -> (p: Self)
        ensures
            p.wf(),
            p@.main == (Sender { n: 0, state: SenderState::Start }),
            p@.app == (AppCoreTask {
                started: false,
                first: Receive { id: 0, num_task: 1, state: ReceiveState::Waiting },
                second: Receive { id: 1, num_task: 2, state: ReceiveState::Waiting },
            }),
            p@.watch.value is None,
            p@.watch.slots.len() == 2,
            p@.watch.connected(0),
            p@.watch.connected(1),
            p@.rt.timers.entries.len() == 0,
            p@.rt.contexts.len() == 2,
            p@.rt.contexts[0].core == 0,
            p@.rt.contexts[1].core == 1,
            p@.rt.contexts[0].executor.queue == seq![0usize],
            p@.rt.contexts[1].executor.queue == seq![0usize],
    {
        let mut watch: Watch<u64> = Watch::new(2);
        proof {
            crate::watch::lemma_first_free(watch@.slots);
        }
        let rx1 = watch.receiver();
        assert(rx1 == Ok::<usize, Error>(0));
        proof {
            crate::watch::lemma_first_free(watch@.slots);
            assert(watch@.slots[0].connected);
        }
        let rx2 = watch.receiver();
        assert(rx2 == Ok::<usize, Error>(1));
        let mut rt = Runtime::new(3);
        let main_ctx = rt.contexts.add(0, 0, 1);
        let app_ctx = rt.contexts.add(1, 0, 1);
        let main = rt.contexts.spawn(Waker { context: main_ctx, task: 0 });
        let app = rt.contexts.spawn(Waker { context: app_ctx, task: 0 });
        assert(main is Ok && app is Ok);
        let p = Broadcast { rt, watch, main: Sender::new(), app: AppCoreTask::new(0, 1) };
        assert(p@.rt.contexts[0].executor.queue =~= seq![0usize]);
        assert(p@.rt.contexts[1].executor.queue =~= seq![0usize]);
        p
    }

    /// The counter that the sending task sent last or sends next.
    pub fn sent(&self) -> (n: u64)
        ensures
            n == self@.main.n,
    {
        self.main.n
    }

    /// Whether the program can take another turn: the counter can still
    /// count up.
    pub fn can_step(&self) -> (b: bool)
        ensures
            b == (self@.main.n < u64::MAX),
    {
        self.main.n < u64::MAX
    }

    /// One pass of the run loop of `core` at `now`: the deadlines that
    /// are due fire, and the core's next runnable task, if there is one,
    /// is resumed until it suspends. The tasks that it woke are runnable
    /// afterwards, on whichever core they live.
    pub fn step(&mut self, core: usize, now: Instant) -> (turn: Turn<Event>)
        requires
            old(self).wf(),
            old(self)@.main.n < u64::MAX,
        ensures
            final(self).wf(),
            final(self)@ == old(self)@.stepped(core, now).state,
            turn.ran == old(self)@.stepped(core, now).ran,
            turn.log@ == old(self)@.stepped(core, now).log,
            turn.failed == old(self)@.stepped(core, now).failed,
            turn.sleep_until == old(self)@.stepped(core, now).sleep_until,
    {
        match self.rt.begin_turn(core, now) {
            None => {
                let until = self.rt.sleep_until(now);
                Turn { ran: None, log: Vec::new(), failed: None, sleep_until: until }
            },
            Some(w) => {
                let mut fx: Effects<Event> = Effects::new();
                let r = if w.context == MAIN_CONTEXT {
                    self.main.poll(&mut self.watch, now, &mut self.rt.timers, w, &mut fx)
                } else {
                    self.app.poll(&mut self.watch, now, &mut self.rt.timers, w, &mut fx)
                };
                self.rt.finish_turn(&fx.woken);
                let failed: Option<Error> = match r {
                    Ok(_) => None,
                    Err(e) => Some(e),
                };
                Turn { ran: Some(w), log: fx.log, failed, sleep_until: None }
            },
        }
    }
}

} // verus!
