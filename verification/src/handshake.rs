//! Two tasks that take turns over a pair of signals.
//!
//! The counting task signals its counter to the main task and waits for
//! the return signal. The main task takes the counter, sleeps that many
//! seconds and signals back, whereupon the counting task counts one up
//! and signals again. Each task is a state machine that is resumed until
//! it suspends.

use vstd::prelude::*;
use crate::context::{guard_needed, Guard};
use crate::delay::Timer;
use crate::error::Error;
use crate::runtime::{Runtime, RuntimeView, Turn};
use crate::signal::{Signal, SignalView};
use crate::task::{wake_seq, Effects, Poll, Waker};
use crate::time::{Duration, Instant, TICK_HZ};
use crate::timer::{TimerQueue, TimerQueueView};

verus! {

/// What the two tasks report.
#[derive(Clone, Copy, Debug, PartialEq, Eq, Structural)]
pub enum Event {
    MainWaitingForSignal,
    MainGotSignal,
    MainWaitingForTimer,
    MainWaited { seconds: u64 },
    TaskSending,
    TaskSent,
    TaskWaitingForReturn,
    TaskReturned,
}

/// The counting task: it has sent `seconds` and waits for the return
/// signal, or has yet to start.
#[derive(Clone, Copy, Debug, PartialEq, Eq, Structural)]
pub struct Task1 {
    pub seconds: u64,
    pub started: bool,
}

/// The counting task together with what it touches.
pub struct Task1World {
    pub task: Task1,
    /// The signal on which the counter is sent.
    pub tx: SignalView<u64>,
    /// The return signal.
    pub rx: SignalView<()>,
    pub woken: Seq<Waker>,
    pub log: Seq<Event>,
}

impl Task1World {
    /// The world after the task has sent its counter.
    pub open spec fn sent(self) -> Self {
        Task1World {
            tx: self.tx.signalled(self.task.seconds),
            woken: self.woken + wake_seq(self.tx.waiter),
            log: self.log + seq![Event::TaskSending, Event::TaskSent, Event::TaskWaitingForReturn],
            ..self
        }
    }

    /// The world once the task has started.
    pub open spec fn started(self) -> Self {
        if self.task.started {
            self
        } else {
            Task1World { task: Task1 { started: true, ..self.task }, ..self.sent() }
        }
    }

    /// The world after the return signal was taken: the counter is one
    /// higher and was sent again.
    pub open spec fn returned(self, waker: Waker) -> Self {
        Task1World {
            task: Task1 { seconds: (self.task.seconds + 1) as u64, ..self.task },
            rx: self.rx.waited(waker),
            log: self.log.push(Event::TaskReturned),
            ..self
        }.sent()
    }

    /// The world after one turn of the task: it runs until it has to wait
    /// for the return signal.
    pub open spec fn polled(self, waker: Waker) -> Self {
        let a = self.started();
        let b = if a.rx.value is Some {
            a.returned(waker)
        } else {
            a
        };
        Task1World { rx: b.rx.waited(waker), ..b }
    }

    /// What one turn of the task answers: it fails only where another
    /// task waits on the return signal.
    pub open spec fn answer(self, waker: Waker) -> Result<(), Error> {
        if self.rx.value is None && !self.rx.admits(waker) {
            Err(Error::DoubleWait)
        } else {
            Ok(())
        }
    }
}

impl Task1 {
    pub fn new() -> (t: Task1)
        ensures
            t == (Task1 { seconds: 0, started: false }),
    {
        Task1 { seconds: 0, started: false }
    }

    /// The task and what it touches, as one value.
    pub open spec fn world(
        self,
        tx: SignalView<u64>,
        rx: SignalView<()>,
        fx: Effects<Event>,
    ) -> Task1World {
        Task1World { task: self, tx, rx, woken: fx.woken@, log: fx.log@ }
    }

    fn send(&self, task_tx: &mut Signal<u64>, fx: &mut Effects<Event>)
        ensures
            self.world(final(task_tx)@, SignalView::empty(), *final(fx)) == self.world(
                old(task_tx)@,
                SignalView::empty(),
                *old(fx),
            ).sent(),
    {
        fx.note(Event::TaskSending);
        let w = task_tx.signal(self.seconds);
        fx.wake(w);
        fx.note(Event::TaskSent);
        fx.note(Event::TaskWaitingForReturn);
        assert(fx.log@ =~= old(fx).log@ + seq![
            Event::TaskSending,
            Event::TaskSent,
            Event::TaskWaitingForReturn,
        ]);
    }

    /// One turn of the task on behalf of `waker`: it sends its counter
    /// when it starts, and each time the return signal has come it counts
    /// one up and sends again. The turn ends when the task has to wait for
    /// the return signal.
    pub fn poll(
        &mut self,
        task_tx: &mut Signal<u64>,
        task_rx: &mut Signal<()>,
        waker: Waker,
        fx: &mut Effects<Event>,
    ) -> (r: Result<(), Error>)
        requires
            old(self).seconds < u64::MAX,
        ensures
            r == old(self).world(old(task_tx)@, old(task_rx)@, *old(fx)).answer(waker),
            final(self).world(final(task_tx)@, final(task_rx)@, *final(fx)) == old(self).world(
                old(task_tx)@,
                old(task_rx)@,
                *old(fx),
            ).polled(waker),
    {
        if !self.started {
            self.send(task_tx, fx);
            self.started = true;
        }
        match task_rx.poll_wait(waker) {
            Err(e) => Err(e),
            Ok(Poll::Pending) => Ok(()),
            Ok(Poll::Ready(_)) => {
                fx.note(Event::TaskReturned);
                self.seconds = self.seconds + 1;
                self.send(task_tx, fx);
                let again = task_rx.poll_wait(waker);
                assert(again == Ok::<Poll<()>, Error>(Poll::Pending));
                Ok(())
            },
        }
    }
}

/// Each turn of the counting task counts exactly the return signals that
/// it took, one at most, and what it sends is its counter: no value is
/// sent that was not counted, and none is counted twice.
pub proof fn lemma_counts_each_return_once(w: Task1World, waker: Waker)
    requires
        w.task.seconds < u64::MAX,
    ensures
        w.polled(waker).task.seconds == w.task.seconds + (if w.rx.value is Some {
            1int
        } else {
            0int
        }),
        !w.task.started || w.rx.value is Some ==> w.polled(waker).tx.value == Some(
            w.polled(waker).task.seconds,
        ),
        w.task.started && w.rx.value is None ==> w.polled(waker).tx == w.tx,
        w.polled(waker).rx.value is None,
{
}

/// Where the main task stands.
#[derive(Clone, Copy, Debug, PartialEq, Eq, Structural)]
pub enum MainState {
    /// It has yet to run.
    Start,
    /// It waits for the counter.
    Waiting,
    /// It sleeps for the seconds that it was sent.
    Sleeping { seconds: u64, timer: Timer },
}

/// The main task.
#[derive(Clone, Copy, Debug, PartialEq, Eq, Structural)]
pub struct MainLoop {
    pub state: MainState,
}

/// The main task together with what it touches.
pub struct MainWorld {
    pub task: MainLoop,
    /// The signal on which the counter comes.
    pub rx: SignalView<u64>,
    /// The return signal.
    pub tx: SignalView<()>,
    pub timers: TimerQueueView,
    pub woken: Seq<Waker>,
    pub log: Seq<Event>,
    /// The error on which the turn ended, if it ended on one.
    pub failed: Option<Error>,
}

impl MainWorld {
    /// The world after the task has asked for the counter, and has gone
    /// to sleep where it got it.
    pub open spec fn waited(self, now: Instant, waker: Waker) -> Self {
        match self.rx.wait_answer(waker) {
            Err(e) => MainWorld { failed: Some(e), ..self },
            Ok(Poll::Pending) => MainWorld { rx: self.rx.waited(waker), ..self },
            Ok(Poll::Ready(seconds)) => {
                let timer = Timer {
                    deadline: now.plus(Duration { ticks: (seconds * TICK_HZ) as u64 }),
                    yielded: false,
                };
                let log = self.log + seq![Event::MainGotSignal, Event::MainWaitingForTimer];
                match self.timers.schedule_answer(timer.entry(waker)) {
                    Ok(_) => MainWorld {
                        task: MainLoop {
                            state: MainState::Sleeping {
                                seconds,
                                timer: Timer { yielded: true, ..timer },
                            },
                        },
                        rx: self.rx.waited(waker),
                        timers: self.timers.scheduled(timer.entry(waker)),
                        log,
                        ..self
                    },
                    Err(e) => MainWorld {
                        task: MainLoop { state: MainState::Sleeping { seconds, timer } },
                        rx: self.rx.waited(waker),
                        timers: self.timers.scheduled(timer.entry(waker)),
                        log,
                        failed: Some(e),
                        ..self
                    },
                }
            },
        }
    }

    /// The world after the sleeping task has asked the clock, has
    /// signalled back where its sleep was over, and has then asked for
    /// the next counter.
    pub open spec fn slept(self, seconds: u64, timer: Timer, now: Instant, waker: Waker) -> Self {
        if timer.done(now) {
            MainWorld {
                task: MainLoop { state: MainState::Waiting },
                tx: self.tx.signalled(()),
                timers: self.timers.cancelled(timer.entry(waker)),
                woken: self.woken + wake_seq(self.tx.waiter),
                log: self.log + seq![Event::MainWaited { seconds }, Event::MainWaitingForSignal],
                ..self
            }.waited(now, waker)
        } else {
            match self.timers.schedule_answer(timer.entry(waker)) {
                Ok(_) => MainWorld {
                    task: MainLoop {
                        state: MainState::Sleeping {
                            seconds,
                            timer: Timer { yielded: true, ..timer },
                        },
                    },
                    timers: self.timers.scheduled(timer.entry(waker)),
                    ..self
                },
                Err(e) => MainWorld {
                    timers: self.timers.scheduled(timer.entry(waker)),
                    failed: Some(e),
                    ..self
                },
            }
        }
    }

    /// The world after one turn of the task at `now`: it runs until it
    /// has to wait for the counter or for the clock.
    pub open spec fn polled(self, now: Instant, waker: Waker) -> Self {
        match self.task.state {
            MainState::Start => MainWorld {
                task: MainLoop { state: MainState::Waiting },
                log: self.log.push(Event::MainWaitingForSignal),
                ..self
            }.waited(now, waker),
            MainState::Waiting => self.waited(now, waker),
            MainState::Sleeping { seconds, timer } => self.slept(seconds, timer, now, waker),
        }
    }
}

impl MainLoop {
    pub fn new() -> (m: MainLoop)
        ensures
            m == (MainLoop { state: MainState::Start }),
    {
        MainLoop { state: MainState::Start }
    }

    /// The task and what it touches, as one value.
    pub open spec fn world(
        self,
        rx: SignalView<u64>,
        tx: SignalView<()>,
        timers: TimerQueueView,
        fx: Effects<Event>,
    ) -> MainWorld {
        MainWorld { task: self, rx, tx, timers, woken: fx.woken@, log: fx.log@, failed: None }
    }

    /// Whether a counter that waits to be taken is small enough to be
    /// slept for: its seconds, in ticks, fit in 64 bits.
    pub open spec fn can_sleep_for(rx: SignalView<u64>) -> bool {
        rx.value is Some ==> rx.value.unwrap() * TICK_HZ <= u64::MAX
    }

    /// Whether the task can take a turn: a counter that waits to be taken
    /// is small enough to be slept for.
    pub fn can_poll(task_tx: &Signal<u64>) -> (b: bool)
        ensures
            b == Self::can_sleep_for(task_tx@),
    {
        match task_tx.peek() {
            Some(seconds) => *seconds <= u64::MAX / TICK_HZ,
            None => true,
        }
    }

    fn wait(
        &mut self,
        task_tx: &mut Signal<u64>,
        now: Instant,
        timers: &mut TimerQueue,
        waker: Waker,
        fx: &mut Effects<Event>,
        Ghost(tx): Ghost<SignalView<()>>,
    ) -> (r: Result<(), Error>)
        requires
            old(timers).wf(),
            Self::can_sleep_for(old(task_tx)@),
        ensures
            final(timers).wf(),
            ({
                let after = old(self).world(old(task_tx)@, tx, old(timers)@, *old(fx)).waited(
                    now,
                    waker,
                );
                &&& final(self).world(final(task_tx)@, tx, final(timers)@, *final(fx))
                    == MainWorld { failed: None, ..after }
                &&& r == match after.failed {
                    Some(e) => Err::<(), Error>(e),
                    None => Ok::<(), Error>(()),
                }
            }),
    {
        match task_tx.poll_wait(waker) {
            Err(e) => Err(e),
            Ok(Poll::Pending) => Ok(()),
            Ok(Poll::Ready(seconds)) => {
                fx.note(Event::MainGotSignal);
                fx.note(Event::MainWaitingForTimer);
                assert(fx.log@ =~= old(fx).log@ + seq![
                    Event::MainGotSignal,
                    Event::MainWaitingForTimer,
                ]);
                let mut timer = Timer::after(now, Duration::from_secs(seconds));
                let r = timer.poll(now, timers, waker);
                self.state = MainState::Sleeping { seconds, timer };
                match r {
                    Ok(_) => Ok(()),
                    Err(e) => Err(e),
                }
            },
        }
    }

    /// One turn of the task at `now` on behalf of `waker`. A task that
    /// waits takes the counter once it is there and goes to sleep for as
    /// many seconds. A task whose sleep is over signals back and waits
    /// for the next counter. The turn ends when the task has to wait, or
    /// on the first error of a signal or of the timer service.
    pub fn poll(
        &mut self,
        task_tx: &mut Signal<u64>,
        main_tx: &mut Signal<()>,
        now: Instant,
        timers: &mut TimerQueue,
        waker: Waker,
        fx: &mut Effects<Event>,
    ) -> (r: Result<(), Error>)
        requires
            old(timers).wf(),
            Self::can_sleep_for(old(task_tx)@),
        ensures
            final(timers).wf(),
            ({
                let after = old(self).world(
                    old(task_tx)@,
                    old(main_tx)@,
                    old(timers)@,
                    *old(fx),
                ).polled(now, waker);
                &&& final(self).world(final(task_tx)@, final(main_tx)@, final(timers)@, *final(fx))
                    == MainWorld { failed: None, ..after }
                &&& r == match after.failed {
                    Some(e) => Err::<(), Error>(e),
                    None => Ok::<(), Error>(()),
                }
            }),
    {
        match self.state {
            MainState::Start => {
                fx.note(Event::MainWaitingForSignal);
                self.state = MainState::Waiting;
                self.wait(task_tx, now, timers, waker, fx, Ghost(main_tx@))
            },
            MainState::Waiting => self.wait(task_tx, now, timers, waker, fx, Ghost(main_tx@)),
            MainState::Sleeping { seconds, timer } => {
                let mut timer = timer;
                match timer.poll(now, timers, waker) {
                    Err(e) => Err(e),
                    Ok(Poll::Pending) => {
                        self.state = MainState::Sleeping { seconds, timer };
                        Ok(())
                    },
                    Ok(Poll::Ready(_)) => {
                        fx.note(Event::MainWaited { seconds });
                        let w = main_tx.signal(());
                        fx.wake(w);
                        fx.note(Event::MainWaitingForSignal);
                        assert(fx.log@ =~= old(fx).log@ + seq![
                            Event::MainWaited { seconds },
                            Event::MainWaitingForSignal,
                        ]);
                        self.state = MainState::Waiting;
                        self.wait(task_tx, now, timers, waker, fx, Ghost(main_tx@))
                    },
                }
            },
        }
    }
}

/// The slot of the main task.
pub const MAIN: usize = 0;

/// The slot of the counting task.
pub const TASK1: usize = 1;

/// The largest counter that the program can still sleep for and count on
/// from: its seconds, in ticks, fit in 64 bits.
pub const MAX_SECONDS: u64 = 18_446_744_073_709;

/// The program: both tasks in one context on core 0, the two signals and
/// the timer service.
pub struct Handshake {
    rt: Runtime,
    task_tx: Signal<u64>,
    main_tx: Signal<()>,
    main: MainLoop,
    task1: Task1,
}

/// The state of the program.
pub struct HandshakeView {
    pub rt: RuntimeView,
    pub task_tx: SignalView<u64>,
    pub main_tx: SignalView<()>,
    pub main: MainLoop,
    pub task1: Task1,
}

/// What a turn of the program comes to: the state after it and what it
/// hands out.
pub struct HandshakeTurn {
    pub state: HandshakeView,
    pub ran: Option<Waker>,
    pub log: Seq<Event>,
    pub failed: Option<Error>,
    pub sleep_until: Option<Instant>,
}

impl HandshakeView {
    /// The counter is small enough to be slept for and counted on from,
    /// and no larger counter waits to be taken.
    pub open spec fn wf(self) -> bool {
        &&& self.rt.contexts.len() == 1
        &&& self.task1.seconds <= MAX_SECONDS
        &&& self.task_tx.value is Some ==> self.task_tx.value.unwrap() <= self.task1.seconds
    }

    /// The turn in which the main task is resumed.
    pub open spec fn main_turn(self, w: Waker, now: Instant) -> HandshakeTurn {
        let after = MainWorld {
            task: self.main,
            rx: self.task_tx,
            tx: self.main_tx,
            timers: self.rt.timers,
            woken: Seq::empty(),
            log: Seq::empty(),
            failed: None,
        }.polled(now, w);
        HandshakeTurn {
            state: HandshakeView {
                rt: RuntimeView { timers: after.timers, ..self.rt }.finished(after.woken),
                task_tx: after.rx,
                main_tx: after.tx,
                main: after.task,
                task1: self.task1,
            },
            ran: Some(w),
            log: after.log,
            failed: after.failed,
            sleep_until: None,
        }
    }

    /// The turn in which the counting task is resumed.
    pub open spec fn task1_turn(self, w: Waker) -> HandshakeTurn {
        let before = Task1World {
            task: self.task1,
            tx: self.task_tx,
            rx: self.main_tx,
            woken: Seq::empty(),
            log: Seq::empty(),
        };
        let after = before.polled(w);
        HandshakeTurn {
            state: HandshakeView {
                rt: self.rt.finished(after.woken),
                task_tx: after.tx,
                main_tx: after.rx,
                main: self.main,
                task1: after.task,
            },
            ran: Some(w),
            log: after.log,
            failed: match before.answer(w) {
                Ok(_) => None,
                Err(e) => Some(e),
            },
            sleep_until: None,
        }
    }

    /// One pass of the run loop at `now`.
    pub open spec fn stepped(self, now: Instant) -> HandshakeTurn {
        let begun = HandshakeView { rt: self.rt.begun(0, now), ..self };
        match self.rt.turn_of(0, now) {
            None => HandshakeTurn {
                state: begun,
                ran: None,
                log: Seq::empty(),
                failed: None,
                sleep_until: begun.rt.timers.next_deadline(now),
            },
            Some(w) => if w.task == MAIN {
                begun.main_turn(w, now)
            } else if w.task == TASK1 {
                begun.task1_turn(w)
            } else {
                HandshakeTurn {
                    state: begun,
                    ran: Some(w),
                    log: Seq::empty(),
                    failed: None,
                    sleep_until: None,
                }
            },
        }
    }
}

impl View for Handshake {
    type V = HandshakeView;

    closed spec fn view(&self) -> HandshakeView {
        HandshakeView {
            rt: self.rt@,
            task_tx: self.task_tx@,
            main_tx: self.main_tx@,
            main: self.main,
            task1: self.task1,
        }
    }
}

impl Handshake {
    /// The state is well formed and the representation sound.
    pub open spec fn wf(&self) -> bool {
        &&& self.inv()
        &&& self@.wf()
    }

    /// The invariant of the representation.
    pub closed spec fn inv(&self) -> bool {
        self.rt.wf()
    }

    /// The program at its start: both tasks spawned and runnable, the
    /// main task first, the signals empty and no deadline pending.
    pub fn new() -> (p: Self)
        ensures
            p.wf(),
            p@.task_tx == SignalView::<u64>::empty(),
            p@.main_tx == SignalView::<()>::empty(),
            p@.main == (MainLoop { state: MainState::Start }),
            p@.task1 == (Task1 { seconds: 0, started: false }),
            p@.rt.timers.entries.len() == 0,
            p@.rt.contexts.len() == 1,
            p@.rt.contexts[0].core == 0,
            p@.rt.contexts[0].executor.queue == seq![MAIN, TASK1],
    {
        let mut rt = Runtime::new(2);
        let ctx = rt.contexts.add(0, 0, 2);
        let main = rt.contexts.spawn(Waker { context: ctx, task: MAIN });
        let task1 = rt.contexts.spawn(Waker { context: ctx, task: TASK1 });
        assert(main is Ok && task1 is Ok);
        let p = Handshake {
            rt,
            task_tx: Signal::new(),
            main_tx: Signal::new(),
            main: MainLoop::new(),
            task1: Task1::new(),
        };
        assert(p@.rt.contexts[0].executor.queue =~= seq![MAIN, TASK1]);
        p
    }

    /// The context in which both tasks run.
    pub const CONTEXT: usize = 0;

    /// The guard that the two signals need: the one that their reach
    /// asks for. Each signal is used by the main task and by the counting
    /// task. Both run in one context, so the cooperative guard suffices.
    pub fn signal_guard(&self) -> (g: Guard)
        requires
            self.wf(),
        ensures
            g == guard_needed(self@.rt.contexts, seq![Self::CONTEXT, Self::CONTEXT]),
            g == Guard::Cooperative,
    {
        let mut users: Vec<usize> = Vec::new();
        users.push(Self::CONTEXT);
        users.push(Self::CONTEXT);
        proof {
            assert(users@ =~= seq![Self::CONTEXT, Self::CONTEXT]);
        }
        self.rt.contexts.guard_for(&users)
    }

    /// How many return signals the counting task has taken.
    pub fn rounds(&self) -> (n: u64)
        ensures
            n == self@.task1.seconds,
    {
        self.task1.seconds
    }

    /// Whether the program can take another turn: the counter has not
    /// reached the largest that can be slept for.
    pub fn can_step(&self) -> (b: bool)
        ensures
            b == (self@.task1.seconds < MAX_SECONDS),
    {
        self.task1.seconds < MAX_SECONDS
    }

    /// One pass of the run loop at `now`: the deadlines that are due
    /// fire, and the next runnable task, if there is one, is resumed
    /// until it suspends. The tasks that it woke are runnable afterwards.
    pub fn step(&mut self, now: Instant) -> (turn: Turn<Event>)
        requires
            old(self).wf(),
            old(self)@.task1.seconds < MAX_SECONDS,
        ensures
            final(self).wf(),
            final(self)@ == old(self)@.stepped(now).state,
            turn.ran == old(self)@.stepped(now).ran,
            turn.log@ == old(self)@.stepped(now).log,
            turn.failed == old(self)@.stepped(now).failed,
            turn.sleep_until == old(self)@.stepped(now).sleep_until,
    {
        match self.rt.begin_turn(0, now) {
            None => {
                let until = self.rt.sleep_until(now);
                Turn { ran: None, log: Vec::new(), failed: None, sleep_until: until }
            },
            Some(w) => {
                let mut fx: Effects<Event> = Effects::new();
                let r = if w.task == MAIN {
                    self.main.poll(
                        &mut self.task_tx,
                        &mut self.main_tx,
                        now,
                        &mut self.rt.timers,
                        w,
                        &mut fx,
                    )
                } else if w.task == TASK1 {
                    self.task1.poll(&mut self.task_tx, &mut self.main_tx, w, &mut fx)
                } else {
                    Ok(())
                };
                self.rt.finish_turn(&fx.woken);
                let failed: Option<Error> = match r {
                    Ok(_) => None,
                    Err(e) => Some(e),
                };
                Turn { ran: Some(w), log: fx.log, failed, sleep_until: None }
            },
        }
    }
}

} // verus!
