//! A bounded publish/subscribe channel.
//!
//! The channel keeps the newest messages, up to its capacity, for a fixed
//! number of subscribers, each of which reads at its own pace. A message
//! published without waiting replaces the oldest one once the channel is
//! full. A subscriber that had not read the replaced message has missed
//! it: its next read reports how many messages it missed, and the read
//! after that hands it the oldest message still kept. A subscriber sees
//! only messages published after it subscribed.
//!
//! Publishing never suspends. A publisher that must not make a subscriber
//! miss a message uses `try_publish`, which refuses while the channel is
//! full of messages that somebody has yet to read, and tries again when
//! it sees fit.

use vstd::prelude::*;
use crate::error::{Error, Resource};
use crate::ring::{push_bounded, Ring};
use crate::task::{Poll, Waker};

verus! {

/// What a subscriber reads.
#[derive(Debug, PartialEq, Eq)]
pub enum WaitResult<T> {
    /// The subscriber fell behind and missed this many messages.
    Lagged(u64),
    /// The next message.
    Message(T),
}

/// One subscriber slot of a channel.
#[derive(Clone, Copy, Debug, PartialEq, Eq, Structural)]
pub struct SubscriberSlot {
    /// Whether a subscriber holds the slot.
    pub connected: bool,
    /// How many of the kept messages the subscriber has read.
    pub read: usize,
    /// How many messages were replaced before the subscriber read them,
    /// as far as 64 bits count.
    pub missed: u64,
    /// The task that waits for the next message.
    pub waiter: Option<Waker>,
}

impl SubscriberSlot {
    pub open spec fn free() -> SubscriberSlot {
        SubscriberSlot { connected: false, read: 0, missed: 0, waiter: None }
    }

    /// The slot after one message is published: where the channel drops
    /// its oldest message, a subscriber that has read it keeps its place
    /// among the others, and one that has not has missed it. Whoever
    /// waited is woken.
    pub open spec fn after_publish(self, drops_oldest: bool) -> SubscriberSlot {
        if !self.connected {
            self
        } else if !drops_oldest {
            SubscriberSlot { connected: true, read: self.read, missed: self.missed, waiter: None }
        } else if self.read > 0 {
            SubscriberSlot {
                connected: true,
                read: (self.read - 1) as usize,
                missed: self.missed,
                waiter: None,
            }
        } else {
            SubscriberSlot {
                connected: true,
                read: 0,
                missed: if self.missed < u64::MAX { (self.missed + 1) as u64 } else { self.missed },
                waiter: None,
            }
        }
    }
}

/// The wakers registered in the connected slots, in the order of the
/// slots.
pub open spec fn sub_waiters(slots: Seq<SubscriberSlot>) -> Seq<Waker>
    decreases slots.len(),
{
    if slots.len() == 0 {
        Seq::empty()
    } else if slots.last().connected && slots.last().waiter is Some {
        sub_waiters(slots.drop_last()).push(slots.last().waiter.unwrap())
    } else {
        sub_waiters(slots.drop_last())
    }
}

/// The index of the first free slot, or the number of slots where all are
/// taken.
pub open spec fn first_free_sub(slots: Seq<SubscriberSlot>) -> int
    decreases slots.len(),
{
    if slots.len() == 0 {
        0
    } else if first_free_sub(slots.drop_last()) < slots.len() - 1 {
        first_free_sub(slots.drop_last())
    } else if !slots.last().connected {
        slots.len() - 1
    } else {
        slots.len() as int
    }
}

/// `first_free_sub` names a free slot before which all slots are taken,
/// or the number of slots where none is free.
pub proof fn lemma_first_free_sub(slots: Seq<SubscriberSlot>)
    ensures
        0 <= first_free_sub(slots) <= slots.len(),
        first_free_sub(slots) < slots.len() ==> !slots[first_free_sub(slots)].connected,
        forall|j: int| 0 <= j < first_free_sub(slots) ==> (#[trigger] slots[j]).connected,
    decreases slots.len(),
{
    if slots.len() > 0 {
        let front = slots.drop_last();
        lemma_first_free_sub(front);
        assert forall|j: int| 0 <= j < first_free_sub(slots) implies (#[trigger] slots[j]).connected by {
            if j < front.len() {
                assert(front[j] == slots[j]);
            }
        }
        if first_free_sub(front) < front.len() {
            assert(front[first_free_sub(front)] == slots[first_free_sub(front)]);
        }
    }
}

/// Whether every connected subscriber has read the oldest kept message.
pub open spec fn oldest_read_by_all(slots: Seq<SubscriberSlot>) -> bool {
    forall|i: int| 0 <= i < slots.len() && (#[trigger] slots[i]).connected ==> slots[i].read > 0
}

/// The state of a channel.
pub struct PubSubView<T> {
    /// The kept messages, oldest first.
    pub queue: Seq<T>,
    pub capacity: nat,
    pub subs: Seq<SubscriberSlot>,
    /// The number of publishers and its limit.
    pub publishers: nat,
    pub max_publishers: nat,
}

impl<T> PubSubView<T> {
    pub open spec fn wf(self) -> bool {
        &&& self.queue.len() <= self.capacity
        &&& self.capacity <= usize::MAX
        &&& self.publishers <= self.max_publishers
        &&& forall|i: int|
            0 <= i < self.subs.len() && (#[trigger] self.subs[i]).connected ==> self.subs[i].read
                <= self.queue.len() && (self.subs[i].missed > 0 ==> self.subs[i].read == 0)
    }

    pub open spec fn empty(capacity: nat, subscribers: nat, publishers: nat) -> Self {
        PubSubView {
            queue: Seq::empty(),
            capacity,
            subs: Seq::new(subscribers, |i: int| SubscriberSlot::free()),
            publishers: 0,
            max_publishers: publishers,
        }
    }

    /// Whether `id` names a connected subscriber.
    pub open spec fn connected(self, id: usize) -> bool {
        id < self.subs.len() && self.subs[id as int].connected
    }

    /// Whether subscriber `id` is connected and has read all there is.
    pub open spec fn caught_up(self, id: usize) -> bool {
        self.connected(id) && self.subs[id as int].missed == 0 && self.subs[id as int].read
            == self.queue.len()
    }

    /// The kept messages that subscriber `id` has yet to read, oldest
    /// first.
    pub open spec fn unread(self, id: usize) -> Seq<T> {
        self.queue.subrange(self.subs[id as int].read as int, self.queue.len() as int)
    }

    /// What a request for a new subscriber answers: the first free slot,
    /// or `CapacityExceeded` where every slot is taken.
    pub open spec fn subscriber_answer(self) -> Result<usize, Error> {
        if first_free_sub(self.subs) < self.subs.len() {
            Ok(first_free_sub(self.subs) as usize)
        } else {
            Err(
                Error::CapacityExceeded {
                    resource: Resource::Subscribers,
                    limit: self.subs.len() as usize,
                },
            )
        }
    }

    /// The state after a request for a new subscriber. The newcomer has
    /// nothing to read yet.
    pub open spec fn with_subscriber(self) -> Self {
        if first_free_sub(self.subs) < self.subs.len() {
            PubSubView {
                subs: self.subs.update(
                    first_free_sub(self.subs),
                    SubscriberSlot {
                        connected: true,
                        read: self.queue.len() as usize,
                        missed: 0,
                        waiter: None,
                    },
                ),
                ..self
            }
        } else {
            self
        }
    }

    /// The state after subscriber `id` has let go of its slot.
    pub open spec fn without_subscriber(self, id: usize) -> Self {
        if id < self.subs.len() {
            PubSubView { subs: self.subs.update(id as int, SubscriberSlot::free()), ..self }
        } else {
            self
        }
    }

    /// What a request for a new publisher answers.
    pub open spec fn publisher_answer(self) -> Result<(), Error> {
        if self.publishers < self.max_publishers {
            Ok(())
        } else {
            Err(
                Error::CapacityExceeded {
                    resource: Resource::Publishers,
                    limit: self.max_publishers as usize,
                },
            )
        }
    }

    /// The state after a request for a new publisher.
    pub open spec fn with_publisher(self) -> Self {
        if self.publishers < self.max_publishers {
            PubSubView { publishers: self.publishers + 1, ..self }
        } else {
            self
        }
    }

    /// The state after a publisher has let go.
    pub open spec fn without_publisher(self) -> Self {
        if self.publishers > 0 {
            PubSubView { publishers: (self.publishers - 1) as nat, ..self }
        } else {
            self
        }
    }

    /// Whether the next message replaces the oldest one.
    pub open spec fn full(self) -> bool {
        self.queue.len() >= self.capacity
    }

    /// The state after `value` is published without waiting.
    pub open spec fn published(self, value: T) -> Self {
        PubSubView {
            queue: push_bounded(self.queue, self.capacity, value),
            subs: Seq::new(self.subs.len(), |i: int| self.subs[i].after_publish(self.full())),
            ..self
        }
    }

    /// The state after each value of `values` is published in turn.
    pub open spec fn published_all(self, values: Seq<T>) -> Self
        decreases values.len(),
    {
        if values.len() == 0 {
            self
        } else {
            self.published_all(values.drop_last()).published(values.last())
        }
    }

    /// Whether a message can be published without a subscriber missing
    /// one: there is room, or the oldest message was read by all.
    pub open spec fn has_room(self) -> bool {
        self.capacity > 0 && (!self.full() || oldest_read_by_all(self.subs))
    }

    /// What subscriber `id` is answered when it asks for its next message.
    pub open spec fn next_answer(self, id: usize) -> Poll<WaitResult<T>> {
        if !self.connected(id) {
            Poll::Pending
        } else if self.subs[id as int].missed > 0 {
            Poll::Ready(WaitResult::Lagged(self.subs[id as int].missed))
        } else if self.subs[id as int].read < self.queue.len() {
            Poll::Ready(WaitResult::Message(self.queue[self.subs[id as int].read as int]))
        } else {
            Poll::Pending
        }
    }

    /// The state after subscriber `id` was handed what it asked for: a
    /// lag report clears the count of what it missed, a message moves it
    /// on by one, and either way it waits no longer.
    pub open spec fn after_read(self, id: usize) -> Self {
        let s = self.subs[id as int];
        PubSubView {
            subs: self.subs.update(
                id as int,
                SubscriberSlot {
                    connected: true,
                    read: if s.missed > 0 { s.read } else { (s.read + 1) as usize },
                    missed: 0,
                    waiter: None,
                },
            ),
            ..self
        }
    }

    /// The state after subscriber `id` has asked for its next message on
    /// behalf of `waker`: it was handed something, or it is registered.
    pub open spec fn after_next(self, id: usize, waker: Waker) -> Self {
        if !self.connected(id) {
            self
        } else if self.next_answer(id) != Poll::<WaitResult<T>>::Pending {
            self.after_read(id)
        } else {
            PubSubView {
                subs: self.subs.update(
                    id as int,
                    SubscriberSlot { waiter: Some(waker), ..self.subs[id as int] },
                ),
                ..self
            }
        }
    }

    /// The state after subscriber `id` has withdrawn its wait.
    pub open spec fn cancelled(self, id: usize) -> Self {
        if self.connected(id) {
            PubSubView {
                subs: self.subs.update(
                    id as int,
                    SubscriberSlot { waiter: None, ..self.subs[id as int] },
                ),
                ..self
            }
        } else {
            self
        }
    }
}

/// The smaller of two numbers.
pub open spec fn least(a: nat, b: nat) -> nat {
    if a <= b {
        a
    } else {
        b
    }
}

/// What a subscriber that had read everything finds after `values` were
/// published and it read none of them: the newest of them, as many as the
/// channel keeps, are there for it in order, and the others it has
/// missed.
pub proof fn lemma_backlog<T>(s: PubSubView<T>, values: Seq<T>, id: usize)
    requires
        s.wf(),
        s.caught_up(id),
        values.len() <= u64::MAX,
    ensures
        s.published_all(values).wf(),
        s.published_all(values).connected(id),
        s.published_all(values).capacity == s.capacity,
        s.published_all(values).subs.len() == s.subs.len(),
        s.published_all(values).subs[id as int].missed == values.len() - least(
            values.len(),
            s.capacity,
        ),
        s.published_all(values).unread(id) == values.subrange(
            values.len() - least(values.len(), s.capacity),
            values.len() as int,
        ),
    decreases values.len(),
{
    let t = s.published_all(values);
    let kept = least(values.len(), s.capacity);
    if values.len() == 0 {
        assert(t.unread(id) =~= values.subrange(0, 0));
    } else {
        let front = values.drop_last();
        lemma_backlog(s, front, id);
        let p = s.published_all(front);
        let kept_p = least(front.len(), s.capacity);
        let was = p.subs[id as int];
        let now = t.subs[id as int];
        assert(now == was.after_publish(p.full()));
        assert(p.unread(id).len() == kept_p);
        assert forall|i: int| 0 <= i < t.subs.len() && (#[trigger] t.subs[i]).connected implies
            t.subs[i].read <= t.queue.len() && (t.subs[i].missed > 0 ==> t.subs[i].read == 0) by {
            assert(t.subs[i] == p.subs[i].after_publish(p.full()));
            assert(p.subs[i].connected);
        }
        let want = values.subrange(values.len() - kept, values.len() as int);
        assert(t.unread(id).len() == kept);
        assert forall|j: int| 0 <= j < kept implies t.unread(id)[j] == want[j] by {
            if j < kept - 1 {
                if p.full() && was.read == 0 {
                    assert(t.unread(id)[j] == p.queue[j + 1]);
                    assert(p.unread(id)[j + 1] == p.queue[j + 1]);
                    assert(p.unread(id)[j + 1] == front[front.len() - kept_p + (j + 1)]);
                } else {
                    assert(t.unread(id)[j] == p.unread(id)[j]);
                    assert(p.unread(id)[j] == front[front.len() - kept_p + j]);
                }
            }
        }
        assert(t.unread(id) =~= want);
    }
}

/// A subscriber that had read everything and then sat out more publishes
/// than the channel keeps messages is told, when it reads next, how many
/// it missed: all but as many as the channel keeps. Its read after that
/// hands it the oldest message still kept.
pub proof fn lemma_lagged_then_oldest<T>(s: PubSubView<T>, values: Seq<T>, id: usize, waker: Waker)
    requires
        s.wf(),
        s.caught_up(id),
        values.len() > s.capacity,
        values.len() <= u64::MAX,
    ensures
        s.published_all(values).next_answer(id) == Poll::Ready(
            WaitResult::<T>::Lagged((values.len() - s.capacity) as u64),
        ),
        s.capacity > 0 ==> s.published_all(values).after_next(id, waker).next_answer(id)
            == Poll::Ready(WaitResult::Message(values[values.len() - s.capacity])),
        s.capacity > 0 ==> s.published_all(values).queue[0] == values[values.len() - s.capacity],
{
    lemma_backlog(s, values, id);
    let t = s.published_all(values);
    assert(t.subs[id as int].read == 0);
    if s.capacity > 0 {
        assert(t.unread(id)[0] == values[values.len() - s.capacity]);
    }
}

/// A subscriber that reads after every publish is handed every message:
/// the one just published, whatever the others do.
pub proof fn lemma_prompt_reader_sees_all<T>(s: PubSubView<T>, value: T, id: usize, waker: Waker)
    requires
        s.wf(),
        s.caught_up(id),
        s.capacity > 0,
    ensures
        s.published(value).next_answer(id) == Poll::Ready(WaitResult::Message(value)),
        s.published(value).after_next(id, waker).caught_up(id),
{
    let values = seq![value];
    assert(values.drop_last() =~= Seq::<T>::empty());
    assert(s.published_all(values.drop_last()) == s);
    assert(s.published_all(values) == s.published(value));
    lemma_backlog(s, values, id);
    let t = s.published(value);
    assert(t.unread(id)[0] == values[0]);
    assert(t.unread(id).len() == 1);
}

pub struct PubSubChannel<T> {
    queue: Ring<T>,
    subs: Vec<SubscriberSlot>,
    publishers: usize,
    max_publishers: usize,
}

impl<T: Copy> View for PubSubChannel<T> {
    type V = PubSubView<T>;

    closed spec fn view(&self) -> PubSubView<T> {
        PubSubView {
            queue: self.queue@,
            capacity: self.queue.cap(),
            subs: self.subs@,
            publishers: self.publishers as nat,
            max_publishers: self.max_publishers as nat,
        }
    }
}

impl<T: Copy> PubSubChannel<T> {
    /// The state is well formed and the representation sound.
    pub open spec fn wf(&self) -> bool {
        &&& self.inv()
        &&& self@.wf()
        &&& self@.subs.len() <= usize::MAX
        &&& self@.max_publishers <= usize::MAX
    }

    /// The invariant of the representation.
    pub closed spec fn inv(&self) -> bool {
        self.queue.wf()
    }

    /// A channel that keeps up to `capacity` messages for up to
    /// `subscribers` subscribers and `publishers` publishers.
    pub fn new(capacity: usize, subscribers: usize, publishers: usize) -> (c: Self)
        ensures
            c.wf(),
            c@ == PubSubView::<T>::empty(capacity as nat, subscribers as nat, publishers as nat),
    {
        let mut subs: Vec<SubscriberSlot> = Vec::new();
        let mut i: usize = 0;
        while i < subscribers
            invariant
                i <= subscribers,
                subs.len() == i,
                forall|j: int| 0 <= j < i ==> subs[j] == SubscriberSlot::free(),
            decreases subscribers - i,
        {
            subs.push(SubscriberSlot { connected: false, read: 0, missed: 0, waiter: None });
            i = i + 1;
        }
        let c = PubSubChannel {
            queue: Ring::new(capacity),
            subs,
            publishers: 0,
            max_publishers: publishers,
        };
        assert(c@.subs =~= PubSubView::<T>::empty(
            capacity as nat,
            subscribers as nat,
            publishers as nat,
        ).subs);
        c
    }

    /// Connects a subscriber and returns its id. Fails with
    /// `CapacityExceeded` where every slot is taken.
    pub fn subscriber(&mut self) -> (r: Result<usize, Error>)
        requires
            old(self).wf(),
        ensures
            final(self).wf(),
            r == old(self)@.subscriber_answer(),
            final(self)@ == old(self)@.with_subscriber(),
    {
        let n: usize = self.subs.len();
        let mut k: usize = 0;
        while k < n && self.subs[k].connected
            invariant
                *self == *old(self),
                n == self.subs.len(),
                k <= n,
                forall|j: int| 0 <= j < k ==> (#[trigger] self.subs[j]).connected,
            decreases n - k,
        {
            k = k + 1;
        }
        proof {
            lemma_first_free_sub(self@.subs);
            let f = first_free_sub(self@.subs);
            if f < k {
                assert(self.subs[f].connected);
            }
            if k < f {
                assert(self@.subs[k as int].connected);
            }
        }
        if k == n {
            Err(Error::CapacityExceeded { resource: Resource::Subscribers, limit: n })
        } else {
            let len: usize = self.queue.len();
            self.subs.set(k, SubscriberSlot { connected: true, read: len, missed: 0, waiter: None });
            Ok(k)
        }
    }

    /// Gives the slot of subscriber `id` back.
    pub fn release_subscriber(&mut self, id: usize)
        requires
            old(self).wf(),
        ensures
            final(self).wf(),
            final(self)@ == old(self)@.without_subscriber(id),
    {
        if id < self.subs.len() {
            self.subs.set(id, SubscriberSlot { connected: false, read: 0, missed: 0, waiter: None });
        }
    }

    /// Registers a publisher. Fails with `CapacityExceeded` where the
    /// channel has as many as it admits.
    pub fn publisher(&mut self) -> (r: Result<(), Error>)
        requires
            old(self).wf(),
        ensures
            final(self).wf(),
            r == old(self)@.publisher_answer(),
            final(self)@ == old(self)@.with_publisher(),
    {
        if self.publishers < self.max_publishers {
            self.publishers = self.publishers + 1;
            Ok(())
        } else {
            Err(
                Error::CapacityExceeded {
                    resource: Resource::Publishers,
                    limit: self.max_publishers,
                },
            )
        }
    }

    /// Takes one publisher off the count.
    pub fn release_publisher(&mut self)
        requires
            old(self).wf(),
        ensures
            final(self).wf(),
            final(self)@ == old(self)@.without_publisher(),
    {
        if self.publishers > 0 {
            self.publishers = self.publishers - 1;
        }
    }

    /// Publishes `value` at once: where the channel is full the oldest
    /// message gives way, read or not. Returns the subscribers to wake.
    /// Never suspends and never fails.
    pub fn publish_immediate(&mut self, value: T) -> (woken: Vec<Waker>)
        requires
            old(self).wf(),
        ensures
            final(self).wf(),
            final(self)@ == old(self)@.published(value),
            woken@ == sub_waiters(old(self)@.subs),
    {
        let drops: bool = self.queue.is_full();
        let _ = self.queue.force_push(value);
        let ghost pushed = self.queue;
        let n: usize = self.subs.len();
        let mut woken: Vec<Waker> = Vec::new();
        let mut k: usize = 0;
        while k < n
            invariant
                n == self.subs.len(),
                n == old(self).subs.len(),
                k <= n,
                self.queue == pushed,
                self.publishers == old(self).publishers,
                self.max_publishers == old(self).max_publishers,
                woken@ == sub_waiters(old(self)@.subs.subrange(0, k as int)),
                forall|j: int|
                    0 <= j < k ==> (#[trigger] self.subs[j]) == old(self).subs[j].after_publish(
                        drops,
                    ),
                forall|j: int| k <= j < n ==> (#[trigger] self.subs[j]) == old(self).subs[j],
            decreases n - k,
        {
            let slot: SubscriberSlot = self.subs[k];
            proof {
                let next = old(self)@.subs.subrange(0, k as int + 1);
                assert(next.drop_last() =~= old(self)@.subs.subrange(0, k as int));
                assert(next.last() == slot);
            }
            if slot.connected {
                match slot.waiter {
                    Some(w) => {
                        woken.push(w);
                    },
                    None => {},
                }
                let updated: SubscriberSlot = if !drops {
                    SubscriberSlot {
                        connected: true,
                        read: slot.read,
                        missed: slot.missed,
                        waiter: None,
                    }
                } else if slot.read > 0 {
                    SubscriberSlot {
                        connected: true,
                        read: slot.read - 1,
                        missed: slot.missed,
                        waiter: None,
                    }
                } else {
                    SubscriberSlot {
                        connected: true,
                        read: 0,
                        missed: if slot.missed < u64::MAX { slot.missed + 1 } else { slot.missed },
                        waiter: None,
                    }
                };
                self.subs.set(k, updated);
            }
            k = k + 1;
        }
        proof {
            assert(old(self)@.subs.subrange(0, n as int) =~= old(self)@.subs);
            assert(self@.subs =~= old(self)@.published(value).subs);
            assert forall|i: int| 0 <= i < self@.subs.len() && (#[trigger] self@.subs[i]).connected implies
                self@.subs[i].read <= self@.queue.len() && (self@.subs[i].missed > 0
                ==> self@.subs[i].read == 0) by {
                assert(self.subs[i] == old(self).subs[i].after_publish(drops));
                assert(old(self)@.subs[i].connected);
            }
        }
        woken
    }

    /// Publishes `value` only if no subscriber misses a message by it.
    /// Where the channel is full and some subscriber has yet to read the
    /// oldest message, the value is handed back and nothing changes.
    pub fn try_publish(&mut self, value: T) -> (r: Result<Vec<Waker>, T>)
        requires
            old(self).wf(),
        ensures
            final(self).wf(),
            match r {
                Ok(woken) => {
                    &&& old(self)@.has_room()
                    &&& woken@ == sub_waiters(old(self)@.subs)
                    &&& final(self)@ == old(self)@.published(value)
                },
                Err(back) => {
                    &&& !old(self)@.has_room()
                    &&& back == value
                    &&& final(self)@ == old(self)@
                },
            },
    {
        if self.queue.capacity() == 0 {
            return Err(value);
        }
        if self.queue.is_full() {
            let n: usize = self.subs.len();
            let mut k: usize = 0;
            while k < n
                invariant
                    *self == *old(self),
                    self.wf(),
                    self@.full(),
                    self@.capacity > 0,
                    n == self.subs.len(),
                    k <= n,
                    forall|j: int|
                        0 <= j < k && (#[trigger] self.subs[j]).connected ==> self.subs[j].read > 0,
                decreases n - k,
            {
                let slot: SubscriberSlot = self.subs[k];
                if slot.connected && slot.read == 0 {
                    proof {
                        assert(self@.subs[k as int].connected);
                        assert(!oldest_read_by_all(self@.subs));
                    }
                    return Err(value);
                }
                k = k + 1;
            }
            assert(oldest_read_by_all(self@.subs));
        }
        Ok(self.publish_immediate(value))
    }

    /// One attempt of subscriber `id` to read. A subscriber that missed
    /// messages is told how many, once. Otherwise it is handed its next
    /// message, or, where it has read them all, registered with `waker` to
    /// suspend. An id that names no connected subscriber is answered
    /// `Pending` and changes nothing.
    pub fn poll_next(&mut self, id: usize, waker: Waker) -> (r: Poll<WaitResult<T>>)
        requires
            old(self).wf(),
        ensures
            final(self).wf(),
            r == old(self)@.next_answer(id),
            final(self)@ == old(self)@.after_next(id, waker),
    {
        if id >= self.subs.len() {
            return Poll::Pending;
        }
        let slot: SubscriberSlot = self.subs[id];
        if !slot.connected {
            return Poll::Pending;
        }
        if slot.missed > 0 {
            self.subs.set(
                id,
                SubscriberSlot { connected: true, read: slot.read, missed: 0, waiter: None },
            );
            Poll::Ready(WaitResult::Lagged(slot.missed))
        } else if slot.read < self.queue.len() {
            let m: T = self.queue.get(slot.read);
            self.subs.set(
                id,
                SubscriberSlot { connected: true, read: slot.read + 1, missed: 0, waiter: None },
            );
            Poll::Ready(WaitResult::Message(m))
        } else {
            self.subs.set(
                id,
                SubscriberSlot { connected: true, read: slot.read, missed: 0, waiter: Some(waker) },
            );
            Poll::Pending
        }
    }

    /// Hands subscriber `id` what it would be handed by `poll_next`, if
    /// that is anything, without registering anybody.
    pub fn try_next(&mut self, id: usize) -> (r: Option<WaitResult<T>>)
        requires
            old(self).wf(),
        ensures
            final(self).wf(),
            old(self)@.next_answer(id) == (match r {
                Some(m) => Poll::Ready(m),
                None => Poll::Pending,
            }),
            final(self)@ == (if r is Some {
                old(self)@.after_read(id)
            } else {
                old(self)@
            }),
    {
        if id >= self.subs.len() {
            return None;
        }
        let slot: SubscriberSlot = self.subs[id];
        if !slot.connected {
            None
        } else if slot.missed > 0 {
            self.subs.set(
                id,
                SubscriberSlot { connected: true, read: slot.read, missed: 0, waiter: None },
            );
            Some(WaitResult::Lagged(slot.missed))
        } else if slot.read < self.queue.len() {
            let m: T = self.queue.get(slot.read);
            self.subs.set(
                id,
                SubscriberSlot { connected: true, read: slot.read + 1, missed: 0, waiter: None },
            );
            Some(WaitResult::Message(m))
        } else {
            None
        }
    }

    /// Withdraws the wait of subscriber `id`.
    pub fn cancel_wait(&mut self, id: usize)
        requires
            old(self).wf(),
        ensures
            final(self).wf(),
            final(self)@ == old(self)@.cancelled(id),
    {
        if id < self.subs.len() {
            let slot: SubscriberSlot = self.subs[id];
            if slot.connected {
                self.subs.set(
                    id,
                    SubscriberSlot {
                        connected: true,
                        read: slot.read,
                        missed: slot.missed,
                        waiter: None,
                    },
                );
            }
        }
    }
}

} // verus!
