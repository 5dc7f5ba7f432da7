// The library's primitives side by side with those of the embassy crates, on the same inputs.

use core::future::Future;
use core::task::Context;
use critical_section as _;

use coop_rt::delay::{Ticker, Timer};
use coop_rt::pubsub::{PubSubChannel, WaitResult};
use coop_rt::signal::Signal;
use coop_rt::task::{Poll, Waker};
use coop_rt::time::{Duration, Instant};
use coop_rt::timeout::{join, select, Either, Timeout, TimeoutError};
use coop_rt::timer::TimerQueue;
use coop_rt::watch::Watch;
use embassy_sync::blocking_mutex::raw::NoopRawMutex;

fn theirs(r: Option<embassy_sync::pubsub::WaitResult<u32>>) -> Poll<WaitResult<u32>> {
    match r {
        None => Poll::Pending,
        Some(embassy_sync::pubsub::WaitResult::Lagged(n)) => Poll::Ready(WaitResult::Lagged(n)),
        Some(embassy_sync::pubsub::WaitResult::Message(m)) => Poll::Ready(WaitResult::Message(m)),
    }
}

fn plain<T>(p: core::task::Poll<T>) -> Poll<T> {
    match p {
        core::task::Poll::Ready(v) => Poll::Ready(v),
        core::task::Poll::Pending => Poll::Pending,
    }
}

fn next_random(state: &mut u64) -> u64 {
    *state = state.wrapping_mul(6364136223846793005).wrapping_add(1442695040888963407);
    *state >> 33
}

#[test]
fn signal_agrees_with_embassy() {
    let reference: embassy_sync::signal::Signal<NoopRawMutex, u64> =
        embassy_sync::signal::Signal::new();
    let mut signal: Signal<u64> = Signal::new();
    let mut seed = 7;
    for step in 0..400u64 {
        if next_random(&mut seed) % 3 == 0 {
            assert_eq!(signal.try_take(), reference.try_take(), "step {}", step);
        } else {
            reference.signal(step);
            let _ = signal.signal(step);
        }
        assert_eq!(signal.signaled(), reference.signaled(), "step {}", step);
    }
}

#[test]
fn signal_wait_agrees_with_embassy() {
    let reference: embassy_sync::signal::Signal<NoopRawMutex, u64> =
        embassy_sync::signal::Signal::new();
    let mut signal: Signal<u64> = Signal::new();
    let me = Waker::new(0, 0);
    let mut cx = Context::from_waker(std::task::Waker::noop());
    let mut wait = Box::pin(reference.wait());
    assert_eq!(signal.poll_wait(me), Ok(plain(wait.as_mut().poll(&mut cx))));
    reference.signal(1);
    reference.signal(2);
    let _ = signal.signal(1);
    let _ = signal.signal(2);
    assert_eq!(signal.poll_wait(me), Ok(plain(wait.as_mut().poll(&mut cx))));
    let mut wait = Box::pin(reference.wait());
    assert_eq!(signal.poll_wait(me), Ok(plain(wait.as_mut().poll(&mut cx))));
}

#[test]
fn watch_agrees_with_embassy() {
    let reference: embassy_sync::watch::Watch<NoopRawMutex, u64, 2> =
        embassy_sync::watch::Watch::new();
    let mut watch: Watch<u64> = Watch::new(2);
    let sender = reference.sender();
    let mut first = reference.receiver().unwrap();
    let a = watch.receiver().unwrap();
    let mut seed = 11;
    for step in 0..100u64 {
        match next_random(&mut seed) % 3 {
            0 => {
                sender.send(step);
                let _ = watch.send(step);
            }
            _ => assert_eq!(watch.try_changed(a), first.try_changed(), "step {}", step),
        }
    }
    // A receiver that connects late.
    let mut second = reference.receiver().unwrap();
    let b = watch.receiver().unwrap();
    assert!(reference.receiver().is_none());
    assert!(watch.receiver().is_err());
    for step in 100..400u64 {
        match next_random(&mut seed) % 4 {
            0 => {
                sender.send(step);
                let _ = watch.send(step);
            }
            1 => assert_eq!(watch.try_changed(b), second.try_changed(), "step {}", step),
            _ => assert_eq!(watch.try_changed(a), first.try_changed(), "step {}", step),
        }
    }
}

#[test]
fn channel_agrees_with_embassy_on_the_two_subscriber_run() {
    let reference: embassy_sync::pubsub::PubSubChannel<NoopRawMutex, u32, 5, 2, 1> =
        embassy_sync::pubsub::PubSubChannel::new();
    let mut channel: PubSubChannel<u32> = PubSubChannel::new(5, 2, 1);
    let mut their_prompt = reference.subscriber().unwrap();
    let mut their_late = reference.subscriber().unwrap();
    let publisher = reference.publisher().unwrap();
    let prompt = channel.subscriber().unwrap();
    let late = channel.subscriber().unwrap();
    channel.publisher().unwrap();
    assert!(reference.subscriber().is_err());
    assert!(channel.subscriber().is_err());
    assert!(reference.publisher().is_err());
    assert!(channel.publisher().is_err());
    let me = Waker::new(0, 0);
    for v in 1..=8u32 {
        publisher.publish_immediate(v);
        let _ = channel.publish_immediate(v);
        assert_eq!(channel.poll_next(prompt, me), theirs(their_prompt.try_next_message()));
    }
    for _ in 0..7 {
        assert_eq!(channel.poll_next(late, me), theirs(their_late.try_next_message()));
    }
}

#[test]
fn channel_agrees_with_embassy_on_mixed_runs() {
    let reference: embassy_sync::pubsub::PubSubChannel<NoopRawMutex, u32, 4, 3, 1> =
        embassy_sync::pubsub::PubSubChannel::new();
    let mut channel: PubSubChannel<u32> = PubSubChannel::new(4, 3, 1);
    let mut their_a = reference.subscriber().unwrap();
    let mut their_b = reference.subscriber().unwrap();
    let publisher = reference.publisher().unwrap();
    let a = channel.subscriber().unwrap();
    let b = channel.subscriber().unwrap();
    let me = Waker::new(0, 0);
    let mut seed = 3;
    for step in 0..300u32 {
        match next_random(&mut seed) % 5 {
            0 | 1 => {
                publisher.publish_immediate(step);
                let _ = channel.publish_immediate(step);
            }
            2 => {
                let mine = channel.try_publish(step).map(|_| ());
                assert_eq!(mine, publisher.try_publish(step), "step {}", step);
            }
            3 => assert_eq!(channel.poll_next(a, me), theirs(their_a.try_next_message()), "step {}", step),
            _ => assert_eq!(channel.poll_next(b, me), theirs(their_b.try_next_message()), "step {}", step),
        }
    }
    // A subscriber that joins in the middle, and one that leaves.
    let mut their_c = reference.subscriber().unwrap();
    let c = channel.subscriber().unwrap();
    drop(their_b);
    channel.release_subscriber(b);
    for step in 300..900u32 {
        match next_random(&mut seed) % 5 {
            0 | 1 => {
                publisher.publish_immediate(step);
                let _ = channel.publish_immediate(step);
            }
            2 => {
                let mine = channel.try_publish(step).map(|_| ());
                assert_eq!(mine, publisher.try_publish(step), "step {}", step);
            }
            3 => assert_eq!(channel.poll_next(a, me), theirs(their_a.try_next_message()), "step {}", step),
            _ => assert_eq!(channel.poll_next(c, me), theirs(their_c.try_next_message()), "step {}", step),
        }
    }
}

#[test]
fn ticker_agrees_with_embassy_under_stepped_time() {
    let driver = embassy_time::MockDriver::get();
    driver.reset();
    let mut cx = Context::from_waker(std::task::Waker::noop());
    let mut reference = embassy_time::Ticker::every(embassy_time::Duration::from_millis(500));
    let mut timers = TimerQueue::new(1);
    let me = Waker::new(0, 0);
    let mut ticker = Ticker::every(Instant::from_ticks(0), Duration::from_millis(500));
    let mut theirs_fired: Vec<u64> = Vec::new();
    let mut mine_fired: Vec<u64> = Vec::new();
    for step in 1..=25u64 {
        driver.advance(embassy_time::Duration::from_millis(100));
        let now = Instant::from_ticks(embassy_time::Instant::now().as_ticks());
        assert_eq!(now, Instant::from_ticks(step * 100_000));
        loop {
            let r = Box::pin(reference.next()).as_mut().poll(&mut cx);
            if r.is_pending() {
                break;
            }
            theirs_fired.push(step * 100);
        }
        while ticker.poll_next(now, &mut timers, me) == Ok(Poll::Ready(())) {
            mine_fired.push(step * 100);
        }
    }
    assert_eq!(theirs_fired, vec![500, 1000, 1500, 2000, 2500]);
    assert_eq!(mine_fired, theirs_fired);
}

#[test]
fn late_ticker_agrees_with_embassy() {
    let driver = embassy_time::MockDriver::get();
    driver.reset();
    let mut cx = Context::from_waker(std::task::Waker::noop());
    let mut reference = embassy_time::Ticker::every(embassy_time::Duration::from_millis(300));
    let mut timers = TimerQueue::new(1);
    let me = Waker::new(0, 0);
    let mut ticker = Ticker::every(Instant::from_ticks(0), Duration::from_millis(300));
    let mut seed = 5;
    for _ in 0..60 {
        driver.advance(embassy_time::Duration::from_millis(next_random(&mut seed) % 1000));
        let now = Instant::from_ticks(embassy_time::Instant::now().as_ticks());
        loop {
            let theirs = plain(Box::pin(reference.next()).as_mut().poll(&mut cx));
            let mine = ticker.poll_next(now, &mut timers, me).unwrap();
            assert_eq!(mine, theirs);
            if mine == Poll::Pending {
                break;
            }
        }
    }
}

#[test]
fn timer_agrees_with_embassy() {
    let driver = embassy_time::MockDriver::get();
    driver.reset();
    let mut cx = Context::from_waker(std::task::Waker::noop());
    let mut timers = TimerQueue::new(1);
    let me = Waker::new(0, 0);
    for millis in [0u64, 250] {
        let start = Instant::from_ticks(embassy_time::Instant::now().as_ticks());
        let mut reference = Box::pin(embassy_time::Timer::after(embassy_time::Duration::from_millis(millis)));
        let mut timer = Timer::after(start, Duration::from_millis(millis));
        for _ in 0..4 {
            let now = Instant::from_ticks(embassy_time::Instant::now().as_ticks());
            let theirs = plain(reference.as_mut().poll(&mut cx));
            let finished = theirs == Poll::Ready(());
            assert_eq!(timer.poll(now, &mut timers, me), Ok(theirs));
            if finished {
                break;
            }
            driver.advance(embassy_time::Duration::from_millis(125));
        }
    }
}

#[test]
fn time_limit_agrees_with_embassy() {
    let driver = embassy_time::MockDriver::get();
    driver.reset();
    let mut cx = Context::from_waker(std::task::Waker::noop());
    let me = Waker::new(0, 0);
    let mut timers = TimerQueue::new(1);
    for signal_at in [Some(2u64), Some(5), None] {
        let reference: embassy_sync::signal::Signal<NoopRawMutex, u32> =
            embassy_sync::signal::Signal::new();
        let mut signal: Signal<u32> = Signal::new();
        let start = Instant::from_ticks(embassy_time::Instant::now().as_ticks());
        let mut theirs = Box::pin(embassy_time::with_timeout(
            embassy_time::Duration::from_secs(5),
            reference.wait(),
        ));
        let mut limit = Timeout::new(start, Duration::from_secs(5));
        let mut done = false;
        for second in 0..8u64 {
            if signal_at == Some(second) {
                reference.signal(77);
                let _ = signal.signal(77);
            }
            let now = Instant::from_ticks(embassy_time::Instant::now().as_ticks());
            let expected = match theirs.as_mut().poll(&mut cx) {
                core::task::Poll::Pending => Poll::Pending,
                core::task::Poll::Ready(Ok(v)) => Poll::Ready(Ok(v)),
                core::task::Poll::Ready(Err(_)) => Poll::Ready(Err(TimeoutError)),
            };
            let finished = expected != Poll::Pending;
            assert_eq!(limit.poll_wait(&mut signal, now, &mut timers, me), Ok(expected), "second {}", second);
            if finished {
                done = true;
                break;
            }
            driver.advance(embassy_time::Duration::from_secs(1));
        }
        assert!(done);
        assert_eq!(timers.len(), 0);
    }
}

#[test]
fn select_and_join_agree_with_embassy() {
    let mut cx = Context::from_waker(std::task::Waker::noop());
    let both = Box::pin(embassy_futures::select::select(
        core::future::ready(1u8),
        core::future::ready('b'),
    ))
    .as_mut()
    .poll(&mut cx);
    assert!(matches!(both, core::task::Poll::Ready(embassy_futures::select::Either::First(1))));
    assert_eq!(select(Poll::Ready(1u8), Poll::Ready('b')), Poll::Ready(Either::First(1)));
    let second = Box::pin(embassy_futures::select::select(
        core::future::pending::<u8>(),
        core::future::ready('b'),
    ))
    .as_mut()
    .poll(&mut cx);
    assert!(matches!(second, core::task::Poll::Ready(embassy_futures::select::Either::Second('b'))));
    assert_eq!(select(Poll::<u8>::Pending, Poll::Ready('b')), Poll::Ready(Either::Second('b')));
    let half = Box::pin(embassy_futures::join::join(
        core::future::ready(1u8),
        core::future::pending::<char>(),
    ))
    .as_mut()
    .poll(&mut cx);
    assert!(half.is_pending());
    assert_eq!(join(Some(1u8), None::<char>), Poll::Pending);
    let whole = Box::pin(embassy_futures::join::join(
        core::future::ready(1u8),
        core::future::ready('b'),
    ))
    .as_mut()
    .poll(&mut cx);
    assert_eq!(whole, core::task::Poll::Ready((1, 'b')));
    assert_eq!(join(Some(1u8), Some('b')), Poll::Ready((1, 'b')));
}

#[test]
fn durations_agree_with_embassy() {
    assert_eq!(coop_rt::time::TICK_HZ, embassy_time::TICK_HZ);
    for v in [0u64, 1, 200, 500, 1000, 86_400_000] {
        assert_eq!(Duration::from_millis(v).as_ticks(), embassy_time::Duration::from_millis(v).as_ticks());
        assert_eq!(Duration::from_secs(v).as_ticks(), embassy_time::Duration::from_secs(v).as_ticks());
        assert_eq!(
            Duration::from_ticks(v * 999).as_millis(),
            embassy_time::Duration::from_ticks(v * 999).as_millis()
        );
    }
}
