use coop_rt::context::{ContextSet, Guard};
use coop_rt::edge::EdgeInput;
use coop_rt::error::{Error, Resource};
use coop_rt::executor::Executor;
use coop_rt::pubsub::{PubSubChannel, WaitResult};
use coop_rt::ring::Ring;
use coop_rt::signal::Signal;
use coop_rt::task::{Effects, Poll, Waker};
use coop_rt::watch::Watch;

#[test]
fn ring_is_first_in_first_out() {
    let mut r: Ring<u32> = Ring::new(3);
    assert_eq!(r.capacity(), 3);
    assert!(r.is_empty());
    r.push_back(1);
    r.push_back(2);
    r.push_back(3);
    assert!(r.is_full());
    assert_eq!(r.pop_front(), Some(1));
    r.push_back(4);
    assert_eq!(r.len(), 3);
    assert_eq!((r.get(0), r.get(1), r.get(2)), (2, 3, 4));
    assert_eq!(r.pop_front(), Some(2));
    assert_eq!(r.pop_front(), Some(3));
    assert_eq!(r.pop_front(), Some(4));
    assert_eq!(r.pop_front(), None);
}

#[test]
fn ring_force_push_drops_the_oldest() {
    let mut r: Ring<u32> = Ring::new(2);
    assert_eq!(r.force_push(1), None);
    assert_eq!(r.force_push(2), None);
    assert_eq!(r.force_push(3), Some(1));
    assert_eq!((r.get(0), r.get(1)), (2, 3));
    let mut none: Ring<u32> = Ring::new(0);
    assert_eq!(none.force_push(9), Some(9));
    assert_eq!(none.len(), 0);
}

#[test]
fn ring_remove_at_keeps_the_order_of_the_rest() {
    let mut r: Ring<u32> = Ring::new(4);
    r.push_back(9);
    assert_eq!(r.pop_front(), Some(9));
    for v in [10, 20, 30, 40] {
        r.push_back(v);
    }
    assert_eq!(r.remove_at(1), 20);
    assert_eq!(r.len(), 3);
    assert_eq!((r.get(0), r.get(1), r.get(2)), (10, 30, 40));
    assert_eq!(r.remove_at(2), 40);
    assert_eq!(r.remove_at(0), 10);
    assert_eq!(r.pop_front(), Some(30));
}

#[test]
fn signal_keeps_only_the_latest_value() {
    let mut s: Signal<u64> = Signal::new();
    let w = Waker::new(0, 1);
    assert!(!s.signaled());
    assert_eq!(s.signal(1), None);
    assert_eq!(s.signal(2), None);
    assert_eq!(s.signal(3), None);
    assert!(s.signaled());
    assert_eq!(s.poll_wait(w), Ok(Poll::Ready(3)));
    assert_eq!(s.poll_wait(w), Ok(Poll::Pending));
    assert!(!s.signaled());
}

#[test]
fn signal_wakes_its_waiter_once() {
    let mut s: Signal<u64> = Signal::new();
    let w = Waker::new(0, 1);
    assert_eq!(s.poll_wait(w), Ok(Poll::Pending));
    // A spurious resume of the same task keeps its registration.
    assert_eq!(s.poll_wait(w), Ok(Poll::Pending));
    assert_eq!(s.signal(7), Some(w));
    assert_eq!(s.signal(8), None);
    assert_eq!(s.poll_wait(w), Ok(Poll::Ready(8)));
}

#[test]
fn signal_refuses_a_second_waiter() {
    let mut s: Signal<u64> = Signal::new();
    let first = Waker::new(0, 1);
    let second = Waker::new(0, 2);
    assert_eq!(s.poll_wait(first), Ok(Poll::Pending));
    assert_eq!(s.poll_wait(second), Err(Error::DoubleWait));
    // The first waiter is still the one that is woken.
    assert_eq!(s.signal(5), Some(first));
}

#[test]
fn signal_wait_can_be_withdrawn() {
    let mut s: Signal<u64> = Signal::new();
    let w = Waker::new(0, 1);
    let other = Waker::new(0, 2);
    assert_eq!(s.poll_wait(w), Ok(Poll::Pending));
    s.cancel_wait(other);
    s.cancel_wait(w);
    assert_eq!(s.signal(5), None);
    assert_eq!(s.try_take(), Some(5));
    assert_eq!(s.try_take(), None);
}

#[test]
fn executor_runs_tasks_in_wake_order() {
    let mut e = Executor::new(3);
    assert_eq!(e.capacity(), 3);
    assert!(e.is_idle());
    assert_eq!(e.spawn(2), Ok(()));
    assert_eq!(e.spawn(0), Ok(()));
    assert_eq!(e.spawn(1), Ok(()));
    assert_eq!(e.front_task(), Some(2));
    assert_eq!(e.next(), Some(2));
    assert_eq!(e.next(), Some(0));
    assert!(e.wake(2));
    assert!(e.is_runnable(2));
    assert_eq!(e.next(), Some(1));
    assert_eq!(e.next(), Some(2));
    assert_eq!(e.next(), None);
    assert!(e.is_idle());
}

#[test]
fn executor_does_not_requeue_a_suspended_task() {
    let mut e = Executor::new(1);
    e.spawn(0).unwrap();
    assert_eq!(e.next(), Some(0));
    assert_eq!(e.next(), None);
    assert!(!e.is_runnable(0));
}

#[test]
fn executor_queues_a_task_once() {
    let mut e = Executor::new(2);
    e.spawn(0).unwrap();
    assert!(!e.wake(0));
    assert!(!e.wake(1));
    assert!(!e.wake(7));
    assert_eq!(e.next(), Some(0));
    assert_eq!(e.next(), None);
}

#[test]
fn executor_spawn_errors() {
    let mut e = Executor::new(2);
    assert_eq!(e.spawn(0), Ok(()));
    assert_eq!(e.spawn(0), Err(Error::AlreadySpawned { slot: 0 }));
    assert_eq!(
        e.spawn(2),
        Err(Error::CapacityExceeded { resource: Resource::TaskSlots, limit: 2 })
    );
}

#[test]
fn executor_frees_the_slot_of_a_completed_task() {
    let mut e = Executor::new(3);
    e.spawn(0).unwrap();
    e.spawn(1).unwrap();
    e.spawn(2).unwrap();
    e.complete(1);
    assert!(!e.is_runnable(1));
    assert_eq!(e.next(), Some(0));
    assert_eq!(e.next(), Some(2));
    assert!(!e.wake(1));
    assert_eq!(e.spawn(1), Ok(()));
    assert_eq!(e.next(), Some(1));
}

#[test]
fn higher_priority_context_goes_first_on_its_core() {
    let mut set = ContextSet::new();
    let thread = set.add(0, 0, 2);
    let irq = set.add(0, 3, 1);
    let other_core = set.add(1, 9, 1);
    assert_eq!(set.len(), 3);
    set.spawn(Waker::new(thread, 0)).unwrap();
    set.spawn(Waker::new(thread, 1)).unwrap();
    set.spawn(Waker::new(irq, 0)).unwrap();
    set.spawn(Waker::new(other_core, 0)).unwrap();
    assert!(set.has_work(0));
    assert_eq!(set.peek(0), Some(Waker::new(irq, 0)));
    assert_eq!(set.pick(0), Some(Waker::new(irq, 0)));
    assert_eq!(set.pick(0), Some(Waker::new(thread, 0)));
    assert!(set.wake(Waker::new(irq, 0)));
    assert_eq!(set.pick(0), Some(Waker::new(irq, 0)));
    assert_eq!(set.pick(0), Some(Waker::new(thread, 1)));
    assert_eq!(set.pick(0), None);
    assert!(!set.has_work(0));
    assert_eq!(set.pick(1), Some(Waker::new(other_core, 0)));
    assert_eq!(set.pick(2), None);
}

#[test]
fn context_set_spawn_and_wake_of_unknown_contexts() {
    let mut set = ContextSet::new();
    let ctx = set.add(0, 0, 1);
    assert_eq!(
        set.spawn(Waker::new(5, 0)),
        Err(Error::CapacityExceeded { resource: Resource::TaskSlots, limit: 0 })
    );
    assert_eq!(
        set.spawn(Waker::new(ctx, 1)),
        Err(Error::CapacityExceeded { resource: Resource::TaskSlots, limit: 1 })
    );
    assert!(!set.wake(Waker::new(5, 0)));
    set.spawn(Waker::new(ctx, 0)).unwrap();
    assert_eq!(set.spawn(Waker::new(ctx, 0)), Err(Error::AlreadySpawned { slot: 0 }));
    set.complete(Waker::new(ctx, 0));
    assert_eq!(set.pick(0), None);
    set.wake_all(&vec![Waker::new(ctx, 0), Waker::new(9, 9)]);
    assert_eq!(set.pick(0), None);
}

#[test]
fn guard_follows_who_reaches_the_primitive() {
    let mut set = ContextSet::new();
    let thread = set.add(0, 0, 1);
    let irq = set.add(0, 1, 1);
    let second_core = set.add(1, 0, 1);
    assert_eq!(set.guard_for(&vec![]), Guard::Cooperative);
    assert_eq!(set.guard_for(&vec![thread, thread]), Guard::Cooperative);
    assert_eq!(set.guard_for(&vec![thread, irq]), Guard::PreemptionSafe);
    assert_eq!(set.guard_for(&vec![thread, second_core]), Guard::PreemptionSafe);
    assert_eq!(set.guard_for(&vec![irq, 17]), Guard::Cooperative);
}

#[test]
fn watch_hands_out_the_latest_value_once() {
    let mut w: Watch<u64> = Watch::new(2);
    let a = w.receiver().unwrap();
    let b = w.receiver().unwrap();
    assert_eq!((a, b), (0, 1));
    let task = Waker::new(1, 0);
    assert_eq!(w.poll_changed(a, task), Poll::Pending);
    assert_eq!(w.send(1), vec![task]);
    assert_eq!(w.send(2), Vec::<Waker>::new());
    assert_eq!(w.send(3), Vec::<Waker>::new());
    assert_eq!(w.poll_changed(a, task), Poll::Ready(3));
    assert_eq!(w.poll_changed(a, task), Poll::Pending);
    assert_eq!(w.try_changed(b), Some(3));
    assert_eq!(w.try_changed(b), None);
    assert_eq!(w.latest(), Some(3));
}

#[test]
fn watch_wakes_every_waiting_receiver() {
    let mut w: Watch<u64> = Watch::new(3);
    let a = w.receiver().unwrap();
    let b = w.receiver().unwrap();
    let c = w.receiver().unwrap();
    let ta = Waker::new(0, 0);
    let tb = Waker::new(0, 1);
    assert_eq!(w.poll_changed(b, tb), Poll::Pending);
    assert_eq!(w.poll_changed(a, ta), Poll::Pending);
    assert_eq!(w.send(10), vec![ta, tb]);
    assert_eq!(w.try_changed(c), Some(10));
    w.cancel_wait(a);
    assert_eq!(w.poll_changed(a, ta), Poll::Ready(10));
    assert_eq!(w.poll_changed(a, ta), Poll::Pending);
    w.cancel_wait(a);
    assert_eq!(w.send(11), Vec::<Waker>::new());
}

#[test]
fn watch_receiver_limit() {
    let mut w: Watch<u64> = Watch::new(2);
    assert_eq!(w.receiver(), Ok(0));
    assert_eq!(w.receiver(), Ok(1));
    assert_eq!(
        w.receiver(),
        Err(Error::CapacityExceeded { resource: Resource::Receivers, limit: 2 })
    );
    w.release(0);
    assert_eq!(w.receiver(), Ok(0));
}

#[test]
fn late_receiver_sees_only_the_latest_value() {
    let mut w: Watch<u64> = Watch::new(2);
    let _ = w.send(1);
    let _ = w.send(2);
    let late = w.receiver().unwrap();
    assert_eq!(w.try_changed(late), Some(2));
    assert_eq!(w.try_changed(late), None);
}

#[test]
fn watch_without_a_value_has_nothing_to_see() {
    let mut w: Watch<u64> = Watch::new(1);
    let r = w.receiver().unwrap();
    assert_eq!(w.latest(), None);
    assert_eq!(w.try_changed(r), None);
    assert_eq!(w.poll_changed(5, Waker::new(0, 0)), Poll::Pending);
    assert_eq!(w.try_changed(5), None);
}

#[test]
fn subscriber_that_falls_behind_is_told_how_far() {
    let mut c: PubSubChannel<u32> = PubSubChannel::new(4, 1, 1);
    let s = c.subscriber().unwrap();
    c.publisher().unwrap();
    for v in 1..=10 {
        let _ = c.publish_immediate(v);
    }
    let w = Waker::new(0, 0);
    assert_eq!(c.poll_next(s, w), Poll::Ready(WaitResult::Lagged(6)));
    assert_eq!(c.poll_next(s, w), Poll::Ready(WaitResult::Message(7)));
    assert_eq!(c.poll_next(s, w), Poll::Ready(WaitResult::Message(8)));
    assert_eq!(c.poll_next(s, w), Poll::Ready(WaitResult::Message(9)));
    assert_eq!(c.poll_next(s, w), Poll::Ready(WaitResult::Message(10)));
    assert_eq!(c.poll_next(s, w), Poll::Pending);
    assert_eq!(c.publish_immediate(11), vec![w]);
    assert_eq!(c.poll_next(s, w), Poll::Ready(WaitResult::Message(11)));
}

#[test]
fn exactly_capacity_many_unread_messages_is_no_lag() {
    let mut c: PubSubChannel<u32> = PubSubChannel::new(3, 1, 1);
    let s = c.subscriber().unwrap();
    let w = Waker::new(0, 0);
    for v in 1..=3 {
        let _ = c.publish_immediate(v);
    }
    assert_eq!(c.poll_next(s, w), Poll::Ready(WaitResult::Message(1)));
    let _ = c.publish_immediate(4);
    assert_eq!(c.poll_next(s, w), Poll::Ready(WaitResult::Message(2)));
    let _ = c.publish_immediate(5);
    let _ = c.publish_immediate(6);
    assert_eq!(c.poll_next(s, w), Poll::Ready(WaitResult::Lagged(1)));
    assert_eq!(c.poll_next(s, w), Poll::Ready(WaitResult::Message(4)));
}

#[test]
fn subscriber_and_publisher_limits() {
    let mut c: PubSubChannel<u32> = PubSubChannel::new(5, 1, 1);
    assert_eq!(c.subscriber(), Ok(0));
    assert_eq!(
        c.subscriber(),
        Err(Error::CapacityExceeded { resource: Resource::Subscribers, limit: 1 })
    );
    assert_eq!(c.publisher(), Ok(()));
    assert_eq!(
        c.publisher(),
        Err(Error::CapacityExceeded { resource: Resource::Publishers, limit: 1 })
    );
    c.release_publisher();
    assert_eq!(c.publisher(), Ok(()));
    c.release_subscriber(0);
    assert_eq!(c.subscriber(), Ok(0));
}

#[test]
fn new_subscriber_sees_only_what_comes_after() {
    let mut c: PubSubChannel<u32> = PubSubChannel::new(5, 2, 1);
    let _ = c.publish_immediate(1);
    let _ = c.publish_immediate(2);
    let s = c.subscriber().unwrap();
    let w = Waker::new(0, 0);
    assert_eq!(c.poll_next(s, w), Poll::Pending);
    let _ = c.publish_immediate(3);
    assert_eq!(c.poll_next(s, w), Poll::Ready(WaitResult::Message(3)));
}

#[test]
fn try_publish_never_overwrites_an_unread_message() {
    let mut c: PubSubChannel<u32> = PubSubChannel::new(2, 2, 1);
    let a = c.subscriber().unwrap();
    let b = c.subscriber().unwrap();
    let w = Waker::new(0, 0);
    assert!(c.try_publish(1).is_ok());
    assert!(c.try_publish(2).is_ok());
    assert_eq!(c.try_publish(3), Err(3));
    assert_eq!(c.poll_next(a, w), Poll::Ready(WaitResult::Message(1)));
    // The other subscriber has yet to read the oldest message.
    assert_eq!(c.try_publish(3), Err(3));
    assert_eq!(c.poll_next(b, w), Poll::Ready(WaitResult::Message(1)));
    assert_eq!(c.try_publish(3), Ok(Vec::<Waker>::new()));
    assert_eq!(c.poll_next(a, w), Poll::Ready(WaitResult::Message(2)));
    assert_eq!(c.poll_next(a, w), Poll::Ready(WaitResult::Message(3)));
    assert_eq!(c.poll_next(b, w), Poll::Ready(WaitResult::Message(2)));
    let mut none: PubSubChannel<u32> = PubSubChannel::new(0, 1, 1);
    assert_eq!(none.try_publish(1), Err(1));
}

#[test]
fn subscriber_wait_can_be_withdrawn() {
    let mut c: PubSubChannel<u32> = PubSubChannel::new(2, 1, 1);
    let s = c.subscriber().unwrap();
    let w = Waker::new(0, 0);
    assert_eq!(c.poll_next(s, w), Poll::Pending);
    c.cancel_wait(s);
    assert_eq!(c.publish_immediate(1), Vec::<Waker>::new());
    assert_eq!(c.poll_next(9, w), Poll::Pending);
}

#[test]
fn edge_input_waits_for_the_next_edge() {
    let mut button = EdgeInput::new();
    let w = Waker::new(1, 0);
    let other = Waker::new(0, 0);
    // An edge that nobody waits for is not remembered.
    assert_eq!(button.on_rising_edge(), None);
    assert_eq!(button.poll_rising_edge(w), Ok(Poll::Pending));
    assert_eq!(button.poll_rising_edge(other), Err(Error::DoubleWait));
    assert_eq!(button.on_rising_edge(), Some(w));
    assert_eq!(button.on_rising_edge(), None);
    assert_eq!(button.poll_rising_edge(w), Ok(Poll::Ready(())));
    assert_eq!(button.poll_rising_edge(w), Ok(Poll::Pending));
    button.cancel_wait(w);
    assert_eq!(button.on_rising_edge(), None);
    assert_eq!(button, EdgeInput::new());
}

#[test]
fn effects_collect_in_order() {
    let mut fx: Effects<u8> = Effects::new();
    fx.wake(None);
    fx.wake(Some(Waker::new(0, 1)));
    fx.note(7);
    fx.wake_all(vec![Waker::new(0, 2), Waker::new(1, 0)]);
    fx.note(8);
    assert_eq!(fx.woken, vec![Waker::new(0, 1), Waker::new(0, 2), Waker::new(1, 0)]);
    assert_eq!(fx.log, vec![7, 8]);
}
