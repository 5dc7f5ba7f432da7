use coop_rt::broadcast::{Broadcast, Event as WatchEvent};
use coop_rt::context::Guard;
use coop_rt::error::Error;
use coop_rt::handshake::{Event as SignalEvent, Handshake, MainLoop, Task1};
use coop_rt::periodic::{Event as TickEvent, Label, Periodic, PrintEvery};
use coop_rt::preempt::{Event as ChannelEvent, HigherPrio, LowPrio, Preempt};
use coop_rt::pubsub::{PubSubChannel, WaitResult};
use coop_rt::edge::EdgeInput;
use coop_rt::signal::Signal;
use coop_rt::task::{Effects, Poll, Waker};
use coop_rt::time::{Duration, Instant};
use coop_rt::timeout::{join, select, Either, Race, Timeout, TimeoutError};
use coop_rt::timer::TimerQueue;
use coop_rt::watch::Watch;

#[test]
fn round_trips_count_up_without_gap_or_repeat() {
    let rounds: u64 = 5;
    let mut program = Handshake::new();
    let mut now = Instant::from_ticks(0);
    let mut log: Vec<SignalEvent> = Vec::new();
    while program.rounds() < rounds {
        assert!(program.can_step());
        let turn = program.step(now);
        assert_eq!(turn.failed, None);
        log.extend(turn.log.iter().copied());
        if turn.ran.is_none() {
            now = turn.sleep_until.expect("a sleeping main task has a deadline");
        }
    }
    assert_eq!(program.rounds(), rounds);
    let waited: Vec<u64> = log
        .iter()
        .filter_map(|e| match e {
            SignalEvent::MainWaited { seconds } => Some(*seconds),
            _ => None,
        })
        .collect();
    assert_eq!(waited, vec![0, 1, 2, 3, 4]);
    let returned = log.iter().filter(|e| **e == SignalEvent::TaskReturned).count();
    let sent = log.iter().filter(|e| **e == SignalEvent::TaskSent).count();
    assert_eq!(returned as u64, rounds);
    assert_eq!(sent as u64, rounds + 1);
    // The main task slept 0 + 1 + 2 + 3 + 4 seconds.
    assert_eq!(now, Instant::from_ticks(10_000_000));
}

#[test]
fn handshake_starts_as_the_tasks_are_written() {
    let mut program = Handshake::new();
    assert_eq!(program.signal_guard(), Guard::Cooperative);
    let now = Instant::from_ticks(0);
    let first = program.step(now);
    assert_eq!(first.ran, Some(Waker::new(0, 0)));
    assert_eq!(first.log, vec![SignalEvent::MainWaitingForSignal]);
    let second = program.step(now);
    assert_eq!(second.ran, Some(Waker::new(0, 1)));
    assert_eq!(
        second.log,
        vec![SignalEvent::TaskSending, SignalEvent::TaskSent, SignalEvent::TaskWaitingForReturn]
    );
    let third = program.step(now);
    assert_eq!(third.ran, Some(Waker::new(0, 0)));
    assert_eq!(third.log, vec![SignalEvent::MainGotSignal, SignalEvent::MainWaitingForTimer]);
    // A sleep of no seconds still suspends the main task once.
    let fourth = program.step(now);
    assert_eq!(fourth.ran, Some(Waker::new(0, 0)));
    assert_eq!(
        fourth.log,
        vec![SignalEvent::MainWaited { seconds: 0 }, SignalEvent::MainWaitingForSignal]
    );
    let fifth = program.step(now);
    assert_eq!(
        fifth.log,
        vec![
            SignalEvent::TaskReturned,
            SignalEvent::TaskSending,
            SignalEvent::TaskSent,
            SignalEvent::TaskWaitingForReturn
        ]
    );
    let sixth = program.step(now);
    assert_eq!(sixth.log, vec![SignalEvent::MainGotSignal, SignalEvent::MainWaitingForTimer]);
    let idle = program.step(now);
    assert_eq!(idle.ran, None);
    assert_eq!(idle.sleep_until, Some(Instant::from_ticks(1_000_000)));
}

#[test]
fn counting_task_takes_one_return_per_turn() {
    let mut task = Task1::new();
    let mut tx: Signal<u64> = Signal::new();
    let mut rx: Signal<()> = Signal::new();
    let me = Waker::new(0, 1);
    let main = Waker::new(0, 0);
    let mut fx: Effects<SignalEvent> = Effects::new();
    assert_eq!(tx.poll_wait(main), Ok(Poll::Pending));
    assert_eq!(task.poll(&mut tx, &mut rx, me, &mut fx), Ok(()));
    assert_eq!(fx.woken, vec![main]);
    assert_eq!(task.seconds, 0);
    assert_eq!(tx.try_take(), Some(0));
    // Two return signals before the task runs again count as one.
    assert_eq!(rx.signal(()), Some(me));
    assert_eq!(rx.signal(()), None);
    assert_eq!(task.poll(&mut tx, &mut rx, me, &mut fx), Ok(()));
    assert_eq!(task.seconds, 1);
    assert_eq!(tx.try_take(), Some(1));
    assert_eq!(task.poll(&mut tx, &mut rx, me, &mut fx), Ok(()));
    assert_eq!(task.seconds, 1);
    assert_eq!(tx.try_take(), None);
}

#[test]
fn counting_task_fails_on_a_foreign_waiter() {
    let mut task = Task1::new();
    let mut tx: Signal<u64> = Signal::new();
    let mut rx: Signal<()> = Signal::new();
    let mut fx: Effects<SignalEvent> = Effects::new();
    assert_eq!(rx.poll_wait(Waker::new(3, 3)), Ok(Poll::Pending));
    assert_eq!(task.poll(&mut tx, &mut rx, Waker::new(0, 1), &mut fx), Err(Error::DoubleWait));
}

#[test]
fn main_task_sleeps_for_the_seconds_it_is_sent() {
    let mut main = MainLoop::new();
    let mut rx: Signal<u64> = Signal::new();
    let mut tx: Signal<()> = Signal::new();
    let mut timers = TimerQueue::new(1);
    let me = Waker::new(0, 0);
    let mut fx: Effects<SignalEvent> = Effects::new();
    let t0 = Instant::from_ticks(500);
    let _ = rx.signal(3);
    assert_eq!(main.poll(&mut rx, &mut tx, t0, &mut timers, me, &mut fx), Ok(()));
    assert_eq!(timers.next_deadline(t0), Some(Instant::from_ticks(3_000_500)));
    assert!(!tx.signaled());
    let early = Instant::from_ticks(3_000_499);
    assert_eq!(main.poll(&mut rx, &mut tx, early, &mut timers, me, &mut fx), Ok(()));
    assert!(!tx.signaled());
    let due = Instant::from_ticks(3_000_500);
    assert_eq!(main.poll(&mut rx, &mut tx, due, &mut timers, me, &mut fx), Ok(()));
    assert!(tx.signaled());
    assert_eq!(timers.len(), 0);
    assert_eq!(
        fx.log,
        vec![
            SignalEvent::MainWaitingForSignal,
            SignalEvent::MainGotSignal,
            SignalEvent::MainWaitingForTimer,
            SignalEvent::MainWaited { seconds: 3 },
            SignalEvent::MainWaitingForSignal
        ]
    );
}

#[test]
fn main_task_cannot_sleep_for_more_than_the_clock_counts() {
    let mut rx: Signal<u64> = Signal::new();
    assert!(MainLoop::can_poll(&rx));
    let _ = rx.signal(18_446_744_073_709);
    assert_eq!(rx.peek(), Some(&18_446_744_073_709));
    assert!(MainLoop::can_poll(&rx));
    let _ = rx.signal(18_446_744_073_710);
    assert!(!MainLoop::can_poll(&rx));
}

#[test]
fn paced_task_needs_room_for_its_rounds() {
    let t0 = Instant::from_ticks(0);
    let me = Waker::new(1, 0);
    let mut timers = TimerQueue::new(2);
    let mut button = EdgeInput::new();
    let mut channel: PubSubChannel<u32> = PubSubChannel::new(5, 1, 1);
    let mut fx: Effects<ChannelEvent> = Effects::new();
    let mut high = HigherPrio::new(false);
    assert!(high.can_poll(t0, &button, me));
    high.poll(&mut button, &mut channel, t0, &mut timers, me, &mut fx).unwrap();
    let t1 = Instant::from_ticks(200_000);
    assert!(high.can_poll(t1, &button, me));
    high.poll(&mut button, &mut channel, t1, &mut timers, me, &mut fx).unwrap();
    high.num = u32::MAX - 3;
    // Three boundaries are due at 3.2 s and take the counter to its end; a fourth is too many.
    assert!(high.can_poll(Instant::from_ticks(3_200_000), &button, me));
    assert!(!high.can_poll(Instant::from_ticks(4_200_000), &button, me));
    let mut pressed = HigherPrio::new(true);
    pressed.num = u32::MAX;
    assert!(pressed.can_poll(t0, &button, me));
    pressed.num = 0;
    pressed.poll(&mut button, &mut channel, t0, &mut timers, me, &mut fx).unwrap();
    pressed.num = u32::MAX;
    assert!(pressed.can_poll(Instant::from_ticks(199_999), &button, me));
    assert!(!pressed.can_poll(t1, &button, me));
    pressed.num = u32::MAX - 1;
    assert!(pressed.can_poll(t1, &button, me));
    pressed.poll(&mut button, &mut channel, t1, &mut timers, me, &mut fx).unwrap();
    assert_eq!(pressed.num, u32::MAX);
    // Without a press the task only asks the button again.
    assert!(pressed.can_poll(t1, &button, me));
    pressed.poll(&mut button, &mut channel, t1, &mut timers, me, &mut fx).unwrap();
    assert_eq!(button.on_rising_edge(), Some(me));
    assert!(!pressed.can_poll(t1, &button, me));
}

#[test]
fn reporters_fire_on_their_boundaries() {
    let mut program = Periodic::new();
    let mut seen: Vec<(u64, Label)> = Vec::new();
    let mut ms: u64 = 0;
    while ms <= 2500 {
        let now = Instant::from_ticks(ms * 1000);
        loop {
            let turn = program.step(now);
            assert_eq!(turn.failed, None);
            for e in turn.log.iter() {
                match e {
                    TickEvent::Waited { id } => seen.push((ms, *id)),
                }
            }
            if turn.ran.is_none() {
                break;
            }
        }
        ms += 100;
    }
    let task: Vec<u64> =
        seen.iter().filter(|(_, id)| *id == Label::Task).map(|(t, _)| *t).collect();
    assert_eq!(task, vec![500, 1000, 1500, 2000, 2500]);
    let pair: Vec<(u64, Label)> =
        seen.iter().filter(|(_, id)| *id != Label::Task).copied().collect();
    assert_eq!(
        pair,
        vec![
            (1000, Label::Select1),
            (1000, Label::Select2),
            (2000, Label::Select1),
            (2000, Label::Select2)
        ]
    );
}

#[test]
fn idle_program_names_its_next_deadline() {
    let mut program = Periodic::new();
    let now = Instant::from_ticks(0);
    assert!(program.step(now).ran.is_some());
    assert!(program.step(now).ran.is_some());
    let idle = program.step(now);
    assert_eq!(idle.ran, None);
    assert_eq!(idle.sleep_until, Some(Instant::from_ticks(500_000)));
}

#[test]
fn reporter_catches_up_after_late_service() {
    let mut reporter = PrintEvery::new(Label::Task, 500);
    let mut timers = TimerQueue::new(1);
    let me = Waker::new(0, 1);
    let mut fx: Effects<TickEvent> = Effects::new();
    assert_eq!(reporter.poll(Instant::from_ticks(0), &mut timers, me, &mut fx), Ok(()));
    assert_eq!(fx.log.len(), 0);
    assert_eq!(reporter.poll(Instant::from_ticks(1_250_000), &mut timers, me, &mut fx), Ok(()));
    assert_eq!(fx.log, vec![TickEvent::Waited { id: Label::Task }; 2]);
    assert_eq!(timers.next_deadline(Instant::from_ticks(1_250_000)), Some(Instant::from_ticks(1_500_000)));
}

#[test]
fn prompt_and_late_subscriber_on_one_channel() {
    let mut channel: PubSubChannel<u32> = PubSubChannel::new(5, 2, 1);
    let prompt = channel.subscriber().unwrap();
    let late = channel.subscriber().unwrap();
    channel.publisher().unwrap();
    let w = Waker::new(0, 0);
    let mut seen: Vec<u32> = Vec::new();
    for v in 1..=8u32 {
        let _ = channel.publish_immediate(v);
        match channel.poll_next(prompt, w) {
            Poll::Ready(WaitResult::Message(m)) => seen.push(m),
            other => panic!("the prompt subscriber got {:?}", other),
        }
        assert_eq!(channel.poll_next(prompt, w), Poll::Pending);
    }
    assert_eq!(seen, vec![1, 2, 3, 4, 5, 6, 7, 8]);
    assert_eq!(channel.poll_next(late, w), Poll::Ready(WaitResult::Lagged(3)));
    for v in 4..=8u32 {
        assert_eq!(channel.poll_next(late, w), Poll::Ready(WaitResult::Message(v)));
    }
    assert_eq!(channel.poll_next(late, w), Poll::Pending);
}

#[test]
fn value_in_time_wins_and_leaves_no_deadline() {
    let mut signal: Signal<u32> = Signal::new();
    let mut timers = TimerQueue::new(1);
    let me = Waker::new(0, 0);
    let t0 = Instant::from_ticks(0);
    let mut limit = Timeout::new(t0, Duration::from_secs(5));
    assert_eq!(limit.poll_wait(&mut signal, t0, &mut timers, me), Ok(Poll::Pending));
    assert_eq!(timers.len(), 1);
    assert_eq!(signal.signal(9), Some(me));
    let t1 = Instant::from_ticks(4_999_999);
    assert_eq!(limit.poll_wait(&mut signal, t1, &mut timers, me), Ok(Poll::Ready(Ok(9))));
    assert_eq!(timers.len(), 0);
    assert_eq!(timers.expire(Instant::from_ticks(60_000_000)), Vec::<Waker>::new());
}

#[test]
fn time_limit_wins_and_leaves_no_waiter() {
    let mut signal: Signal<u32> = Signal::new();
    let mut timers = TimerQueue::new(1);
    let me = Waker::new(0, 0);
    let t0 = Instant::from_ticks(0);
    let mut limit = Timeout::new(t0, Duration::from_secs(5));
    assert_eq!(limit.poll_wait(&mut signal, t0, &mut timers, me), Ok(Poll::Pending));
    let t1 = Instant::from_ticks(5_000_000);
    assert_eq!(timers.expire(t1), vec![me]);
    assert_eq!(limit.poll_wait(&mut signal, t1, &mut timers, me), Ok(Poll::Ready(Err(TimeoutError))));
    // A value that comes later wakes nobody.
    assert_eq!(signal.signal(9), None);
    assert_eq!(timers.len(), 0);
}

#[test]
fn value_and_limit_together_is_a_value() {
    let mut signal: Signal<u32> = Signal::new();
    let mut timers = TimerQueue::new(1);
    let me = Waker::new(0, 0);
    let t0 = Instant::from_ticks(0);
    let mut limit = Timeout::new(t0, Duration::from_secs(5));
    assert_eq!(limit.poll_wait(&mut signal, t0, &mut timers, me), Ok(Poll::Pending));
    let _ = signal.signal(1);
    let t1 = Instant::from_ticks(5_000_000);
    assert_eq!(limit.poll_wait(&mut signal, t1, &mut timers, me), Ok(Poll::Ready(Ok(1))));
    assert_eq!(timers.len(), 0);
}

#[test]
fn time_limit_on_a_subscriber_and_on_a_receiver() {
    let me = Waker::new(0, 0);
    let t0 = Instant::from_ticks(0);
    let t1 = Instant::from_ticks(1_000_000);
    let mut timers = TimerQueue::new(2);

    let mut channel: PubSubChannel<u32> = PubSubChannel::new(2, 1, 1);
    let sub = channel.subscriber().unwrap();
    let mut limit = Timeout::new(t0, Duration::from_secs(1));
    assert_eq!(limit.poll_next_message(&mut channel, sub, t0, &mut timers, me), Ok(Poll::Pending));
    assert_eq!(
        limit.poll_next_message(&mut channel, sub, t1, &mut timers, me),
        Ok(Poll::Ready(Err(TimeoutError)))
    );
    assert_eq!(channel.publish_immediate(4), Vec::<Waker>::new());
    let mut limit = Timeout::new(t1, Duration::from_secs(1));
    assert_eq!(
        limit.poll_next_message(&mut channel, sub, t1, &mut timers, me),
        Ok(Poll::Ready(Ok(WaitResult::Message(4))))
    );
    assert_eq!(timers.len(), 0);

    let mut watch: Watch<u8> = Watch::new(1);
    let rx = watch.receiver().unwrap();
    let mut limit = Timeout::new(t0, Duration::from_secs(1));
    assert_eq!(limit.poll_changed(&mut watch, rx, t0, &mut timers, me), Ok(Poll::Pending));
    assert_eq!(
        limit.poll_changed(&mut watch, rx, t1, &mut timers, me),
        Ok(Poll::Ready(Err(TimeoutError)))
    );
    assert_eq!(watch.send(3), Vec::<Waker>::new());
    let mut limit = Timeout::new(t1, Duration::from_secs(1));
    assert_eq!(limit.poll_changed(&mut watch, rx, t1, &mut timers, me), Ok(Poll::Ready(Ok(3))));
    assert_eq!(timers.len(), 0);
}

#[test]
fn races_are_decided_first_source_first() {
    assert_eq!(select(Poll::Ready(1u8), Poll::Ready('b')), Poll::Ready(Either::First(1)));
    assert_eq!(select(Poll::<u8>::Pending, Poll::Ready('b')), Poll::Ready(Either::Second('b')));
    assert_eq!(select(Poll::<u8>::Pending, Poll::<char>::Pending), Poll::Pending);
    assert_eq!(join(Some(1u8), Some('b')), Poll::Ready((1, 'b')));
    assert_eq!(join(Some(1u8), None::<char>), Poll::Pending);
    assert_eq!(join(None::<u8>, Some('b')), Poll::Pending);
    let mut timers = TimerQueue::new(1);
    let me = Waker::new(0, 0);
    let t0 = Instant::from_ticks(0);
    let mut limit = Timeout::new(t0, Duration::from_ticks(10));
    assert_eq!(limit.settle(Poll::<u8>::Pending, t0, &mut timers, me), Ok(Race::Running));
    assert_eq!(limit.settle(Poll::<u8>::Pending, Instant::from_ticks(9), &mut timers, me), Ok(Race::Running));
    assert_eq!(limit.settle(Poll::<u8>::Pending, Instant::from_ticks(10), &mut timers, me), Ok(Race::Lost));
    let mut limit = Timeout::new(t0, Duration::from_ticks(10));
    assert_eq!(limit.settle(Poll::Ready(5u8), t0, &mut timers, me), Ok(Race::Won(5)));
}

#[test]
fn slow_receiver_sees_the_latest_value_only() {
    let mut program = Broadcast::new();
    assert_eq!(program.watch_guard(), Guard::PreemptionSafe);
    let t0 = Instant::from_ticks(0);
    // The second core starts before anything was sent.
    let turn = program.step(1, t0);
    assert_eq!(turn.ran, Some(Waker::new(1, 0)));
    assert_eq!(turn.log, vec![WatchEvent::InSecondCore]);
    assert_eq!(program.step(1, t0).ran, None);
    let turn = program.step(0, t0);
    assert_eq!(turn.log, vec![WatchEvent::Sending { value: 0 }]);
    let idle = program.step(0, t0);
    assert_eq!(idle.ran, None);
    assert_eq!(idle.sleep_until, Some(Instant::from_ticks(1_000_000)));
    // The first receiver reports at once, the second starts its delay.
    let turn = program.step(1, t0);
    assert_eq!(turn.log, vec![WatchEvent::Received { receiver: 1, value: 0 }]);
    let idle = program.step(1, t0);
    assert_eq!(idle.ran, None);
    assert_eq!(idle.sleep_until, Some(Instant::from_ticks(200_000)));
    let t1 = Instant::from_ticks(200_000);
    let turn = program.step(1, t1);
    assert_eq!(turn.log, vec![WatchEvent::Received { receiver: 2, value: 0 }]);
    // Two sends while the second core does not run.
    let t2 = Instant::from_ticks(1_000_000);
    let turn = program.step(0, t2);
    assert_eq!(
        turn.log,
        vec![WatchEvent::AfterDelay { seconds: 1 }, WatchEvent::Sending { value: 1 }]
    );
    let t3 = Instant::from_ticks(2_000_000);
    let turn = program.step(0, t3);
    assert_eq!(
        turn.log,
        vec![WatchEvent::AfterDelay { seconds: 1 }, WatchEvent::Sending { value: 2 }]
    );
    assert_eq!(program.sent(), 2);
    assert!(program.can_step());
    let turn = program.step(1, t3);
    assert_eq!(turn.log, vec![WatchEvent::Received { receiver: 1, value: 2 }]);
    let t4 = Instant::from_ticks(2_200_000);
    let turn = program.step(1, t4);
    assert_eq!(turn.log, vec![WatchEvent::Received { receiver: 2, value: 2 }]);
    assert_eq!(program.step(1, t4).ran, None);
}

#[test]
fn spinning_main_task_starves_its_own_context_only() {
    let mut program = Preempt::new();
    assert_eq!(program.channel_guard(), Guard::PreemptionSafe);
    let t0 = Instant::from_ticks(0);
    let turn = program.step(t0);
    assert_eq!(turn.ran, Some(Waker::new(0, 0)));
    assert_eq!(turn.log, vec![ChannelEvent::WaitingRisingEdge]);
    let idle = program.step(t0);
    assert_eq!((idle.ran, idle.sleep_until), (None, None));
    program.rising_edge();
    let turn = program.step(t0);
    assert_eq!(
        turn.log,
        vec![
            ChannelEvent::Initialized,
            ChannelEvent::StartingLowPriority,
            ChannelEvent::BlockingWait
        ]
    );
    assert!(program.is_spinning());
    // The task under the interrupt runs at once, the one beside the main task does not.
    let turn = program.step(t0);
    assert_eq!(turn.ran, Some(Waker::new(1, 0)));
    assert_eq!(turn.log, Vec::<ChannelEvent>::new());
    let turn = program.step(t0);
    assert_eq!(turn.ran, Some(Waker::new(0, 0)));
    assert_eq!(turn.log, Vec::<ChannelEvent>::new());
    let t1 = Instant::from_ticks(200_000);
    let turn = program.step(t1);
    assert_eq!(turn.ran, Some(Waker::new(1, 0)));
    assert_eq!(turn.log, vec![ChannelEvent::Prio1Button]);
    assert_eq!(program.published(), 1);
    // Three presses while the main task spins: three messages.
    for _ in 0..3 {
        program.rising_edge();
        let turn = program.step(t1);
        assert_eq!(turn.ran, Some(Waker::new(1, 0)));
        assert_eq!(turn.log, vec![ChannelEvent::Prio1Button]);
        assert_eq!(program.step(t1).ran, Some(Waker::new(0, 0)));
    }
    assert_eq!(program.published(), 4);
    let mut now = Instant::from_ticks(5_000_000);
    let mut heard: Vec<ChannelEvent> = Vec::new();
    for _ in 0..3 {
        let turn = program.step(now);
        assert_eq!(turn.ran, Some(Waker::new(0, 0)));
        heard.extend(turn.log.iter().copied());
        assert!(program.is_spinning());
        now = now.after(Duration::from_secs(5));
    }
    assert_eq!(
        heard,
        vec![
            ChannelEvent::AsyncWait,
            ChannelEvent::ChannelMessage { message: 1 },
            ChannelEvent::BlockingWait,
            ChannelEvent::AsyncWait,
            ChannelEvent::ChannelMessage { message: 2 },
            ChannelEvent::BlockingWait,
            ChannelEvent::AsyncWait,
            ChannelEvent::ChannelMessage { message: 3 },
            ChannelEvent::BlockingWait
        ]
    );
    // Nothing left to read: the main task suspends, and only now its neighbour runs.
    let turn = program.step(now);
    assert_eq!(turn.log, vec![ChannelEvent::AsyncWait]);
    assert!(!program.is_spinning());
    let turn = program.step(now);
    assert_eq!(turn.ran, Some(Waker::new(0, 1)));
    assert_eq!(turn.log, vec![ChannelEvent::Prio0Task]);
    let idle = program.step(now);
    assert_eq!(idle.ran, None);
    assert_eq!(idle.sleep_until, Some(now.after(Duration::from_secs(1))));
    // The time limit runs out without a message.
    let later = now.after(Duration::from_secs(5));
    let mut after: Vec<ChannelEvent> = Vec::new();
    loop {
        let turn = program.step(later);
        after.extend(turn.log.iter().copied());
        if program.is_spinning() {
            break;
        }
    }
    assert_eq!(after.iter().filter(|e| **e == ChannelEvent::Prio0Task).count(), 5);
    assert_eq!(after.last(), Some(&ChannelEvent::BlockingWait));
    assert!(!after.iter().any(|e| matches!(e, ChannelEvent::ChannelMessage { .. })));
    assert!(program.can_step());
}

#[test]
fn main_task_reports_a_lag() {
    let mut program = Preempt::new();
    let t0 = Instant::from_ticks(0);
    let _ = program.step(t0);
    program.rising_edge();
    let _ = program.step(t0);
    let _ = program.step(t0);
    let t1 = Instant::from_ticks(200_000);
    let _ = program.step(t1);
    for _ in 0..7 {
        program.rising_edge();
        let _ = program.step(t1);
    }
    let turn = program.step(Instant::from_ticks(5_000_000));
    assert_eq!(
        turn.log,
        vec![
            ChannelEvent::AsyncWait,
            ChannelEvent::ChannelLagged { lag: 2 },
            ChannelEvent::BlockingWait
        ]
    );
    let turn = program.step(Instant::from_ticks(10_000_000));
    assert_eq!(
        turn.log,
        vec![
            ChannelEvent::AsyncWait,
            ChannelEvent::ChannelMessage { message: 3 },
            ChannelEvent::BlockingWait
        ]
    );
}

#[test]
fn tasks_pace_themselves_by_ticker_or_by_button() {
    let me = Waker::new(0, 1);
    let t0 = Instant::from_ticks(0);
    let mut timers = TimerQueue::new(2);
    let mut button = EdgeInput::new();

    let mut low = LowPrio::new(true);
    let mut fx: Effects<ChannelEvent> = Effects::new();
    assert_eq!(low.poll(&mut button, t0, &mut timers, me, &mut fx), Ok(()));
    assert_eq!(button.on_rising_edge(), Some(me));
    assert_eq!(low.poll(&mut button, t0, &mut timers, me, &mut fx), Ok(()));
    assert_eq!(fx.log, vec![ChannelEvent::Prio0Button, ChannelEvent::Prio0Button]);
    assert_eq!(timers.len(), 0);
    button.cancel_wait(me);

    let mut channel: PubSubChannel<u32> = PubSubChannel::new(5, 1, 1);
    let sub = channel.subscriber().unwrap();
    let mut high = HigherPrio::new(false);
    let mut fx: Effects<ChannelEvent> = Effects::new();
    assert_eq!(high.poll(&mut button, &mut channel, t0, &mut timers, me, &mut fx), Ok(()));
    assert_eq!(timers.next_deadline(t0), Some(Instant::from_ticks(200_000)));
    let t1 = Instant::from_ticks(200_000);
    assert_eq!(high.poll(&mut button, &mut channel, t1, &mut timers, me, &mut fx), Ok(()));
    assert_eq!(fx.log, vec![ChannelEvent::Prio1Task]);
    assert_eq!(timers.next_deadline(t1), Some(Instant::from_ticks(1_200_000)));
    // Served after two boundaries: two rounds.
    let t2 = Instant::from_ticks(2_300_000);
    assert_eq!(high.poll(&mut button, &mut channel, t2, &mut timers, me, &mut fx), Ok(()));
    assert_eq!(fx.log, vec![ChannelEvent::Prio1Task; 3]);
    assert_eq!(high.num, 3);
    assert_eq!(channel.poll_next(sub, me), Poll::Ready(WaitResult::Message(1)));
    assert_eq!(channel.poll_next(sub, me), Poll::Ready(WaitResult::Message(2)));
    assert_eq!(channel.poll_next(sub, me), Poll::Pending);
    assert_eq!(button, EdgeInput::new());
}
