use coop_rt::delay::{Ticker, Timer};
use coop_rt::error::{Error, Resource};
use coop_rt::task::{Poll, Waker};
use coop_rt::time::{Duration, Instant, HALF_RANGE, TICKS_PER_MILLI, TICK_HZ};
use coop_rt::timer::TimerQueue;

#[test]
fn durations_convert_exactly() {
    assert_eq!(TICK_HZ, 1_000_000);
    assert_eq!(TICKS_PER_MILLI, 1_000);
    assert_eq!(Duration::from_millis(200).as_ticks(), 200_000);
    assert_eq!(Duration::from_secs(5).as_ticks(), 5_000_000);
    assert_eq!(Duration::from_ticks(1_999).as_millis(), 1);
    assert_eq!(Duration::from_millis(0).as_ticks(), 0);
    assert_eq!(Duration::from_secs(18_446_744_073_709).as_ticks(), 18_446_744_073_709_000_000);
}

#[test]
fn instants_wrap_at_the_horizon() {
    let near_end = Instant::from_ticks(u64::MAX - 4);
    let wrapped = near_end.after(Duration::from_ticks(10));
    assert_eq!(wrapped.as_ticks(), 5);
    assert_eq!(wrapped.since(near_end).as_ticks(), 10);
    assert!(wrapped.has_reached(near_end));
    assert!(!near_end.has_reached(wrapped));
}

#[test]
fn reached_is_a_modular_comparison() {
    let d = Instant::from_ticks(1_000);
    assert!(Instant::from_ticks(1_000).has_reached(d));
    assert!(Instant::from_ticks(1_001).has_reached(d));
    assert!(!Instant::from_ticks(999).has_reached(d));
    // Just under half the range past the deadline it still counts as reached,
    // at half the range it lies in the future again.
    assert!(Instant::from_ticks(1_000 + (HALF_RANGE - 1)).has_reached(d));
    assert!(!Instant::from_ticks(1_000 + HALF_RANGE).has_reached(d));
}

#[test]
fn comes_before_orders_deadlines_across_the_wrap() {
    let now = Instant::from_ticks(u64::MAX - 10);
    let soon = Instant::from_ticks(u64::MAX - 2);
    let later = Instant::from_ticks(7);
    let overdue = Instant::from_ticks(u64::MAX - 50);
    assert!(now.comes_before(soon, later));
    assert!(!now.comes_before(later, soon));
    assert!(now.comes_before(overdue, soon));
    assert!(!now.comes_before(soon, soon));
}

#[test]
fn timer_queue_fires_earliest_first_and_ties_in_order() {
    let mut q = TimerQueue::new(4);
    let a = Waker::new(0, 0);
    let b = Waker::new(0, 1);
    let c = Waker::new(0, 2);
    let d = Waker::new(1, 0);
    assert_eq!(q.schedule(Instant::from_ticks(300), a), Ok(()));
    assert_eq!(q.schedule(Instant::from_ticks(100), b), Ok(()));
    assert_eq!(q.schedule(Instant::from_ticks(300), c), Ok(()));
    assert_eq!(q.schedule(Instant::from_ticks(100), d), Ok(()));
    assert_eq!(q.next_deadline(Instant::from_ticks(0)), Some(Instant::from_ticks(100)));
    assert_eq!(q.pop_due(Instant::from_ticks(99)), None);
    let fired = q.expire(Instant::from_ticks(300));
    assert_eq!(fired, vec![b, d, a, c]);
    assert_eq!(q.len(), 0);
    assert_eq!(q.next_deadline(Instant::from_ticks(300)), None);
}

#[test]
fn timer_queue_keeps_what_is_not_due() {
    let mut q = TimerQueue::new(4);
    let a = Waker::new(0, 0);
    let b = Waker::new(0, 1);
    q.schedule(Instant::from_ticks(500), a).unwrap();
    q.schedule(Instant::from_ticks(200), b).unwrap();
    assert_eq!(q.expire(Instant::from_ticks(250)), vec![b]);
    assert_eq!(q.len(), 1);
    assert_eq!(q.pop_due(Instant::from_ticks(499)), None);
    assert_eq!(q.pop_due(Instant::from_ticks(500)), Some(a));
    assert_eq!(q.pop_due(Instant::from_ticks(500)), None);
}

#[test]
fn timer_queue_is_bounded_and_holds_nothing_twice() {
    let mut q = TimerQueue::new(2);
    let a = Waker::new(0, 0);
    q.schedule(Instant::from_ticks(10), a).unwrap();
    q.schedule(Instant::from_ticks(10), a).unwrap();
    assert_eq!(q.len(), 1);
    q.schedule(Instant::from_ticks(20), a).unwrap();
    assert_eq!(
        q.schedule(Instant::from_ticks(30), a),
        Err(Error::CapacityExceeded { resource: Resource::Timers, limit: 2 })
    );
    // A registration that is held already is accepted by a full service.
    assert_eq!(q.schedule(Instant::from_ticks(20), a), Ok(()));
    assert_eq!(q.len(), 2);
}

#[test]
fn cancelled_deadline_does_not_fire() {
    let mut q = TimerQueue::new(2);
    let a = Waker::new(0, 0);
    let b = Waker::new(0, 1);
    q.schedule(Instant::from_ticks(10), a).unwrap();
    q.schedule(Instant::from_ticks(10), b).unwrap();
    assert!(q.cancel(Instant::from_ticks(10), a));
    assert!(!q.cancel(Instant::from_ticks(10), a));
    assert_eq!(q.expire(Instant::from_ticks(1_000)), vec![b]);
}

#[test]
fn past_deadline_fires_on_the_next_opportunity() {
    let mut q = TimerQueue::new(1);
    let a = Waker::new(0, 0);
    q.schedule(Instant::from_ticks(5), a).unwrap();
    assert_eq!(q.pop_due(Instant::from_ticks(1_000_000)), Some(a));
}

#[test]
fn zero_duration_wait_yields_once() {
    let mut q = TimerQueue::new(1);
    let w = Waker::new(0, 0);
    let now = Instant::from_ticks(42);
    let mut t = Timer::after(now, Duration::from_ticks(0));
    assert_eq!(t.poll(now, &mut q, w), Ok(Poll::Pending));
    assert_eq!(q.len(), 1);
    // The registration is due at once: the service wakes the task on its next pass.
    assert_eq!(q.expire(now), vec![w]);
    assert_eq!(t.poll(now, &mut q, w), Ok(Poll::Ready(())));
    assert_eq!(q.len(), 0);
}

#[test]
fn timer_withdraws_its_registration_when_it_completes_unfired() {
    let mut q = TimerQueue::new(1);
    let w = Waker::new(0, 0);
    let mut t = Timer::at(Instant::from_ticks(100));
    assert_eq!(t.poll(Instant::from_ticks(0), &mut q, w), Ok(Poll::Pending));
    assert_eq!(q.len(), 1);
    // Woken by something else after the deadline, before the service ran.
    assert_eq!(t.poll(Instant::from_ticks(150), &mut q, w), Ok(Poll::Ready(())));
    assert_eq!(q.len(), 0);
    assert_eq!(q.expire(Instant::from_ticks(200)), Vec::<Waker>::new());
}

#[test]
fn timer_passes_on_a_full_service() {
    let mut q = TimerQueue::new(0);
    let w = Waker::new(0, 0);
    let mut t = Timer::at(Instant::from_ticks(100));
    assert_eq!(
        t.poll(Instant::from_ticks(0), &mut q, w),
        Err(Error::CapacityExceeded { resource: Resource::Timers, limit: 0 })
    );
}

#[test]
fn ticker_fires_on_its_boundaries_under_stepped_time() {
    let mut q = TimerQueue::new(1);
    let w = Waker::new(0, 0);
    let mut ticker = Ticker::every(Instant::from_ticks(0), Duration::from_millis(500));
    let mut fired_at: Vec<u64> = Vec::new();
    let mut ms: u64 = 0;
    while ms <= 2500 {
        let now = Instant::from_ticks(ms * 1000);
        while ticker.poll_next(now, &mut q, w) == Ok(Poll::Ready(())) {
            fired_at.push(ms);
        }
        ms += 100;
    }
    assert_eq!(fired_at, vec![500, 1000, 1500, 2000, 2500]);
}

#[test]
fn ticker_does_not_drift_when_served_late() {
    let mut q = TimerQueue::new(1);
    let w = Waker::new(0, 0);
    let mut ticker = Ticker::every(Instant::from_ticks(0), Duration::from_millis(500));
    // Served 130 ms late.
    assert_eq!(ticker.poll_next(Instant::from_ticks(630_000), &mut q, w), Ok(Poll::Ready(())));
    assert_eq!(ticker.expires_at, Instant::from_ticks(1_000_000));
    assert_eq!(ticker.poll_next(Instant::from_ticks(630_000), &mut q, w), Ok(Poll::Pending));
    assert_eq!(q.next_deadline(Instant::from_ticks(630_000)), Some(Instant::from_ticks(1_000_000)));
}

#[test]
fn ticker_that_missed_boundaries_fires_once_for_each() {
    let mut q = TimerQueue::new(1);
    let w = Waker::new(0, 0);
    let mut ticker = Ticker::every(Instant::from_ticks(0), Duration::from_millis(500));
    let now = Instant::from_ticks(1_700_000);
    let mut n = 0;
    while ticker.poll_next(now, &mut q, w) == Ok(Poll::Ready(())) {
        n += 1;
    }
    assert_eq!(n, 3);
    assert_eq!(ticker.expires_at, Instant::from_ticks(2_000_000));
}

#[test]
fn ticker_counts_what_is_due() {
    let ticker = Ticker::every(Instant::from_ticks(0), Duration::from_millis(500));
    assert_eq!(ticker.due(Instant::from_ticks(0)), 0);
    assert_eq!(ticker.due(Instant::from_ticks(499_999)), 0);
    assert_eq!(ticker.due(Instant::from_ticks(500_000)), 1);
    assert_eq!(ticker.due(Instant::from_ticks(999_999)), 1);
    assert_eq!(ticker.due(Instant::from_ticks(1_000_000)), 2);
    assert_eq!(ticker.due(Instant::from_ticks(1_700_000)), 3);
}

#[test]
fn ticker_reset_starts_from_now() {
    let mut ticker = Ticker::every(Instant::from_ticks(0), Duration::from_millis(500));
    ticker.reset(Instant::from_ticks(123_000));
    assert_eq!(ticker.expires_at, Instant::from_ticks(623_000));
    assert_eq!(ticker.period, Duration::from_millis(500));
}

#[test]
fn ticker_boundaries_wrap_with_the_clock() {
    let mut q = TimerQueue::new(1);
    let w = Waker::new(0, 0);
    let start = Instant::from_ticks(u64::MAX - 99);
    let mut ticker = Ticker::every(start, Duration::from_ticks(60));
    assert_eq!(ticker.expires_at, Instant::from_ticks(u64::MAX - 39));
    assert_eq!(ticker.poll_next(Instant::from_ticks(u64::MAX - 39), &mut q, w), Ok(Poll::Ready(())));
    assert_eq!(ticker.expires_at, Instant::from_ticks(20));
    assert_eq!(ticker.poll_next(Instant::from_ticks(u64::MAX), &mut q, w), Ok(Poll::Pending));
    assert_eq!(ticker.poll_next(Instant::from_ticks(20), &mut q, w), Ok(Poll::Ready(())));
    assert_eq!(ticker.expires_at, Instant::from_ticks(80));
}
