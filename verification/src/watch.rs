//! A watch: the latest value, broadcast to a fixed number of receivers.
//!
//! The watch holds one value and counts its generations. Each receiver
//! remembers the generation it saw last. A receiver that lags is handed
//! the latest value, once; values that were replaced before it looked are
//! not kept for it. A receiver that connects late lags whenever a value
//! was ever sent, so it sees the latest value and none before it.

use vstd::prelude::*;
use crate::error::{Error, Resource};
use crate::task::{Poll, Waker};

verus! {

/// One receiver slot of a watch.
#[derive(Clone, Copy, Debug, PartialEq, Eq, Structural)]
pub struct ReceiverSlot {
    /// Whether a receiver holds the slot.
    pub connected: bool,
    /// The generation that the receiver saw last.
    pub seen: u64,
    /// The task that waits for the next generation.
    pub waiter: Option<Waker>,
}

impl ReceiverSlot {
    pub open spec fn free() -> ReceiverSlot {
        ReceiverSlot { connected: false, seen: 0, waiter: None }
    }

    pub open spec fn fresh() -> ReceiverSlot {
        ReceiverSlot { connected: true, seen: 0, waiter: None }
    }

    /// The slot after a send: nobody waits any more, and where the
    /// generation count starts over the slot's generation does too.
    pub open spec fn after_send(self, restart: bool) -> ReceiverSlot {
        ReceiverSlot {
            connected: self.connected,
            seen: if restart { 0 } else { self.seen },
            waiter: None,
        }
    }
}

/// The wakers registered in the connected slots, in the order of the
/// slots.
pub open spec fn waiters(slots: Seq<ReceiverSlot>) -> Seq<Waker>
    decreases slots.len(),
{
    if slots.len() == 0 {
        Seq::empty()
    } else if slots.last().connected && slots.last().waiter is Some {
        waiters(slots.drop_last()).push(slots.last().waiter.unwrap())
    } else {
        waiters(slots.drop_last())
    }
}

/// The index of the first free slot, or the number of slots where all are
/// taken.
pub open spec fn first_free(slots: Seq<ReceiverSlot>) -> int
    decreases slots.len(),
{
    if slots.len() == 0 {
        0
    } else if first_free(slots.drop_last()) < slots.len() - 1 {
        first_free(slots.drop_last())
    } else if !slots.last().connected {
        slots.len() - 1
    } else {
        slots.len() as int
    }
}

/// `first_free` names a free slot before which all slots are taken, or
/// the number of slots where none is free.
pub proof fn lemma_first_free(slots: Seq<ReceiverSlot>)
    ensures
        0 <= first_free(slots) <= slots.len(),
        first_free(slots) < slots.len() ==> !slots[first_free(slots)].connected,
        forall|j: int| 0 <= j < first_free(slots) ==> (#[trigger] slots[j]).connected,
    decreases slots.len(),
{
    if slots.len() > 0 {
        let front = slots.drop_last();
        lemma_first_free(front);
        assert forall|j: int| 0 <= j < first_free(slots) implies (#[trigger] slots[j]).connected by {
            if j < front.len() {
                assert(front[j] == slots[j]);
            }
        }
        if first_free(front) < front.len() {
            assert(front[first_free(front)] == slots[first_free(front)]);
        }
    }
}

/// The state of a watch.
pub struct WatchView<T> {
    pub value: Option<T>,
    pub generation: u64,
    pub slots: Seq<ReceiverSlot>,
}

impl<T> WatchView<T> {
    /// No receiver has seen a generation that is yet to come.
    pub open spec fn wf(self) -> bool {
        &&& forall|i: int| 0 <= i < self.slots.len() ==> (#[trigger] self.slots[i]).seen <= self.generation
        &&& (self.value is None <==> self.generation == 0)
    }

    pub open spec fn empty(capacity: nat) -> Self {
        WatchView {
            value: None,
            generation: 0,
            slots: Seq::new(capacity, |i: int| ReceiverSlot::free()),
        }
    }

    /// Whether `id` names a connected receiver.
    pub open spec fn connected(self, id: usize) -> bool {
        id < self.slots.len() && self.slots[id as int].connected
    }

    /// Whether receiver `id` has yet to see the latest value.
    pub open spec fn lagging(self, id: usize) -> bool {
        self.connected(id) && self.slots[id as int].seen < self.generation
    }

    /// What a request for a new receiver answers: the first free slot, or
    /// `CapacityExceeded` where every slot is taken.
    pub open spec fn receiver_answer(self) -> Result<usize, Error> {
        if first_free(self.slots) < self.slots.len() {
            Ok(first_free(self.slots) as usize)
        } else {
            Err(
                Error::CapacityExceeded {
                    resource: Resource::Receivers,
                    limit: self.slots.len() as usize,
                },
            )
        }
    }

    /// The state after a request for a new receiver.
    pub open spec fn with_receiver(self) -> Self {
        if first_free(self.slots) < self.slots.len() {
            WatchView {
                value: self.value,
                generation: self.generation,
                slots: self.slots.update(first_free(self.slots), ReceiverSlot::fresh()),
            }
        } else {
            self
        }
    }

    /// The state after receiver `id` has let go of its slot.
    pub open spec fn released(self, id: usize) -> Self {
        if id < self.slots.len() {
            WatchView {
                value: self.value,
                generation: self.generation,
                slots: self.slots.update(id as int, ReceiverSlot::free()),
            }
        } else {
            self
        }
    }

    /// Whether the next send starts the generation count over.
    pub open spec fn restarts(self) -> bool {
        self.generation == u64::MAX
    }

    /// The state after `value` is sent: a new generation, which every
    /// connected receiver has yet to see, and nobody left waiting.
    pub open spec fn sent(self, value: T) -> Self {
        WatchView {
            value: Some(value),
            generation: if self.restarts() { 1 } else { (self.generation + 1) as u64 },
            slots: Seq::new(self.slots.len(), |i: int| self.slots[i].after_send(self.restarts())),
        }
    }

    /// The state after each value of `values` is sent in turn.
    pub open spec fn sent_all(self, values: Seq<T>) -> Self
        decreases values.len(),
    {
        if values.len() == 0 {
            self
        } else {
            self.sent_all(values.drop_last()).sent(values.last())
        }
    }

    /// What receiver `id` is answered when it asks for a change.
    pub open spec fn changed_answer(self, id: usize) -> Poll<T> {
        if self.lagging(id) && self.value is Some {
            Poll::Ready(self.value.unwrap())
        } else {
            Poll::Pending
        }
    }

    /// The state after receiver `id` was handed the latest value: it has
    /// caught up and waits no longer.
    pub open spec fn caught_up(self, id: usize) -> Self {
        WatchView {
            value: self.value,
            generation: self.generation,
            slots: self.slots.update(
                id as int,
                ReceiverSlot { connected: true, seen: self.generation, waiter: None },
            ),
        }
    }

    /// The state after receiver `id` has asked for a change on behalf of
    /// `waker`: a lagging receiver has caught up, another is registered.
    pub open spec fn changed(self, id: usize, waker: Waker) -> Self {
        if !self.connected(id) {
            self
        } else if self.lagging(id) && self.value is Some {
            self.caught_up(id)
        } else {
            WatchView {
                value: self.value,
                generation: self.generation,
                slots: self.slots.update(
                    id as int,
                    ReceiverSlot {
                        connected: true,
                        seen: self.slots[id as int].seen,
                        waiter: Some(waker),
                    },
                ),
            }
        }
    }

    /// The state after receiver `id` has withdrawn its wait.
    pub open spec fn cancelled(self, id: usize) -> Self {
        if self.connected(id) {
            WatchView {
                value: self.value,
                generation: self.generation,
                slots: self.slots.update(
                    id as int,
                    ReceiverSlot {
                        connected: true,
                        seen: self.slots[id as int].seen,
                        waiter: None,
                    },
                ),
            }
        } else {
            self
        }
    }
}

/// Sends keep a watch well formed and its receivers connected, and after
/// at least one send every connected receiver lags behind the value sent
/// last.
pub proof fn lemma_sent_all<T>(w: WatchView<T>, values: Seq<T>, id: usize)
    requires
        w.wf(),
        w.connected(id),
    ensures
        w.sent_all(values).wf(),
        w.sent_all(values).connected(id),
        w.sent_all(values).slots.len() == w.slots.len(),
        values.len() > 0 ==> w.sent_all(values).lagging(id) && w.sent_all(values).value == Some(
            values.last(),
        ),
    decreases values.len(),
{
    if values.len() > 0 {
        lemma_sent_all(w, values.drop_last(), id);
    }
}

/// After any run of sends, a connected receiver that asks for a change is
/// handed the value sent last, and asking again it is handed nothing: it
/// sees the latest generation once, however many it skipped.
pub proof fn lemma_latest_seen_once<T>(w: WatchView<T>, values: Seq<T>, id: usize, waker: Waker)
    requires
        w.wf(),
        w.connected(id),
        values.len() > 0,
    ensures
        w.sent_all(values).changed_answer(id) == Poll::Ready(values.last()),
        w.sent_all(values).changed(id, waker).changed_answer(id) == Poll::<T>::Pending,
        w.sent_all(values).changed(id, waker).wf(),
{
    lemma_sent_all(w, values, id);
}

pub struct Watch<T> {
    value: Option<T>,
    generation: u64,
    slots: Vec<ReceiverSlot>,
}

impl<T: Copy> View for Watch<T> {
    type V = WatchView<T>;

    closed spec fn view(&self) -> WatchView<T> {
        WatchView { value: self.value, generation: self.generation, slots: self.slots@ }
    }
}

impl<T: Copy> Watch<T> {
    /// The invariant of the representation: that of the view.
    pub open spec fn wf(&self) -> bool {
        self@.wf()
    }

    /// A watch without a value, for up to `capacity` receivers.
    pub fn new(capacity: usize) -> (w: Self)
        ensures
            w.wf(),
            w@ == WatchView::<T>::empty(capacity as nat),
    {
        let mut slots: Vec<ReceiverSlot> = Vec::new();
        let mut i: usize = 0;
        while i < capacity
            invariant
                i <= capacity,
                slots.len() == i,
                forall|j: int| 0 <= j < i ==> slots[j] == ReceiverSlot::free(),
            decreases capacity - i,
        {
            slots.push(ReceiverSlot { connected: false, seen: 0, waiter: None });
            i = i + 1;
        }
        let w = Watch { value: None, generation: 0, slots };
        assert(w@.slots =~= WatchView::<T>::empty(capacity as nat).slots);
        w
    }

    /// Connects a receiver and returns its id. Fails with
    /// `CapacityExceeded` where every slot is taken.
    pub fn receiver(&mut self) -> (r: Result<usize, Error>)
        requires
            old(self).wf(),
        ensures
            final(self).wf(),
            r == old(self)@.receiver_answer(),
            final(self)@ == old(self)@.with_receiver(),
    {
        let n: usize = self.slots.len();
        let mut k: usize = 0;
        while k < n && self.slots[k].connected
            invariant
                self.wf(),
                *self == *old(self),
                n == self.slots.len(),
                k <= n,
                forall|j: int| 0 <= j < k ==> (#[trigger] self.slots[j]).connected,
            decreases n - k,
        {
            k = k + 1;
        }
        proof {
            lemma_first_free(self@.slots);
            let f = first_free(self@.slots);
            if f < k {
                assert(self.slots[f].connected);
            }
            if k < f {
                assert(self@.slots[k as int].connected);
            }
        }
        if k == n {
            Err(Error::CapacityExceeded { resource: Resource::Receivers, limit: n })
        } else {
            self.slots.set(k, ReceiverSlot { connected: true, seen: 0, waiter: None });
            Ok(k)
        }
    }

    /// Gives the slot of receiver `id` back.
    pub fn release(&mut self, id: usize)
        requires
            old(self).wf(),
        ensures
            final(self).wf(),
            final(self)@ == old(self)@.released(id),
    {
        if id < self.slots.len() {
            self.slots.set(id, ReceiverSlot { connected: false, seen: 0, waiter: None });
        }
    }

    /// Stores `value` as the next generation and returns the receivers to
    /// wake: every connected receiver that waited. Never suspends.
    pub fn send(&mut self, value: T) -> (woken: Vec<Waker>)
        requires
            old(self).wf(),
        ensures
            final(self).wf(),
            final(self)@ == old(self)@.sent(value),
            woken@ == waiters(old(self)@.slots),
    {
        let restart: bool = self.generation == u64::MAX;
        let n: usize = self.slots.len();
        let mut woken: Vec<Waker> = Vec::new();
        let mut k: usize = 0;
        while k < n
            invariant
                n == self.slots.len(),
                n == old(self).slots.len(),
                k <= n,
                self.generation == old(self).generation,
                restart == old(self)@.restarts(),
                woken@ == waiters(old(self)@.slots.subrange(0, k as int)),
                forall|j: int|
                    0 <= j < k ==> (#[trigger] self.slots[j]) == old(self).slots[j].after_send(
                        restart,
                    ),
                forall|j: int| k <= j < n ==> (#[trigger] self.slots[j]) == old(self).slots[j],
            decreases n - k,
        {
            let slot: ReceiverSlot = self.slots[k];
            proof {
                let next = old(self)@.slots.subrange(0, k as int + 1);
                assert(next.drop_last() =~= old(self)@.slots.subrange(0, k as int));
                assert(next.last() == slot);
            }
            if slot.connected {
                match slot.waiter {
                    Some(w) => {
                        woken.push(w);
                    },
                    None => {},
                }
            }
            self.slots.set(
                k,
                ReceiverSlot {
                    connected: slot.connected,
                    seen: if restart { 0 } else { slot.seen },
                    waiter: None,
                },
            );
            k = k + 1;
        }
        self.value = Some(value);
        self.generation = if restart { 1 } else { self.generation + 1 };
        proof {
            assert(old(self)@.slots.subrange(0, n as int) =~= old(self)@.slots);
            assert(self@.slots =~= old(self)@.sent(value).slots);
        }
        woken
    }

    /// One attempt of receiver `id` to see a change. A receiver that lags
    /// is handed the latest value and has then caught up. One that does
    /// not lag is registered with `waker` and has to suspend. An id that
    /// names no connected receiver is answered `Pending` and changes
    /// nothing.
    pub fn poll_changed(&mut self, id: usize, waker: Waker) -> (r: Poll<T>)
        requires
            old(self).wf(),
        ensures
            final(self).wf(),
            r == old(self)@.changed_answer(id),
            final(self)@ == old(self)@.changed(id, waker),
    {
        if id >= self.slots.len() {
            return Poll::Pending;
        }
        let slot: ReceiverSlot = self.slots[id];
        if !slot.connected {
            return Poll::Pending;
        }
        if slot.seen < self.generation {
            match self.value {
                Some(v) => {
                    self.slots.set(
                        id,
                        ReceiverSlot { connected: true, seen: self.generation, waiter: None },
                    );
                    return Poll::Ready(v);
                },
                None => {},
            }
        }
        self.slots.set(id, ReceiverSlot { connected: true, seen: slot.seen, waiter: Some(waker) });
        Poll::Pending
    }

    /// Hands receiver `id` the latest value if it lags, without
    /// registering anybody.
    pub fn try_changed(&mut self, id: usize) -> (r: Option<T>)
        requires
            old(self).wf(),
        ensures
            final(self).wf(),
            r == match old(self)@.changed_answer(id) {
                Poll::Ready(v) => Some(v),
                Poll::Pending => None,
            },
            final(self)@ == (if r is Some {
                old(self)@.caught_up(id)
            } else {
                old(self)@
            }),
    {
        if id >= self.slots.len() {
            return None;
        }
        let slot: ReceiverSlot = self.slots[id];
        if slot.connected && slot.seen < self.generation {
            match self.value {
                Some(v) => {
                    self.slots.set(
                        id,
                        ReceiverSlot { connected: true, seen: self.generation, waiter: None },
                    );
                    Some(v)
                },
                None => None,
            }
        } else {
            None
        }
    }

    /// The latest value, whoever has seen it.
    pub fn latest(&self) -> (v: Option<T>)
        ensures
            v == self@.value,
    {
        self.value
    }

    /// Withdraws the wait of receiver `id`.
    pub fn cancel_wait(&mut self, id: usize)
        requires
            old(self).wf(),
        ensures
            final(self).wf(),
            final(self)@ == old(self)@.cancelled(id),
    {
        if id < self.slots.len() {
            let slot: ReceiverSlot = self.slots[id];
            if slot.connected {
                self.slots.set(
                    id,
                    ReceiverSlot { connected: true, seen: slot.seen, waiter: None },
                );
            }
        }
    }
}

} // verus!
