//! The scheduler of one execution context.
//!
//! A context owns a fixed number of task slots and one run queue. A task
//! is spawned into a slot once and is then either suspended or runnable;
//! a runnable task stands in the run queue exactly once. Tasks are resumed
//! in the order in which they became runnable: there is no priority
//! within a context. A task that suspends is not put back by the
//! scheduler; only a wake does that.

use vstd::prelude::*;
use crate::error::{Error, Resource};
use crate::ring::Ring;
use crate::seqs::{
    lemma_drop_first_contains, lemma_index_of_unique, lemma_push_contains, lemma_remove_contains,
    lemma_remove_no_duplicates, lemma_room_left,
};

verus! {

/// The state of a scheduler: which slots hold a task, and the runnable
/// tasks, the next to run first.
pub struct ExecutorView {
    pub slots: Seq<bool>,
    pub queue: Seq<usize>,
}

impl ExecutorView {
    /// No task stands in the queue twice, and every queued task has been
    /// spawned.
    pub open spec fn wf(self) -> bool {
        &&& self.queue.no_duplicates()
        &&& forall|i: int|
            0 <= i < self.queue.len() ==> (#[trigger] self.queue[i]) < self.slots.len()
                && self.slots[self.queue[i] as int]
    }

    pub open spec fn idle(capacity: nat) -> Self {
        ExecutorView { slots: Seq::new(capacity, |i: int| false), queue: Seq::empty() }
    }

    /// Whether `slot` holds a task.
    pub open spec fn occupied(self, slot: usize) -> bool {
        slot < self.slots.len() && self.slots[slot as int]
    }

    /// What a spawn into `slot` answers.
    pub open spec fn spawn_answer(self, slot: usize) -> Result<(), Error> {
        if slot >= self.slots.len() {
            Err(
                Error::CapacityExceeded {
                    resource: Resource::TaskSlots,
                    limit: self.slots.len() as usize,
                },
            )
        } else if self.slots[slot as int] {
            Err(Error::AlreadySpawned { slot })
        } else {
            Ok(())
        }
    }

    /// The state after a spawn into `slot`: where the spawn is accepted the
    /// slot is taken and its task runnable, behind those already queued.
    pub open spec fn spawned(self, slot: usize) -> Self {
        if self.spawn_answer(slot) is Ok {
            ExecutorView { slots: self.slots.update(slot as int, true), queue: self.queue.push(slot) }
        } else {
            self
        }
    }

    /// Whether a wake of `task` changes anything: the task exists and is
    /// not runnable yet.
    pub open spec fn wake_enqueues(self, task: usize) -> bool {
        self.occupied(task) && !self.queue.contains(task)
    }

    /// The state after `task` is woken.
    pub open spec fn woken(self, task: usize) -> Self {
        if self.wake_enqueues(task) {
            ExecutorView { slots: self.slots, queue: self.queue.push(task) }
        } else {
            self
        }
    }

    /// The task to resume next.
    pub open spec fn front(self) -> Option<usize> {
        if self.queue.len() > 0 {
            Some(self.queue[0])
        } else {
            None
        }
    }

    /// The state after the next task was taken off the queue.
    pub open spec fn popped(self) -> Self {
        if self.queue.len() > 0 {
            ExecutorView { slots: self.slots, queue: self.queue.drop_first() }
        } else {
            self
        }
    }

    /// The queue without `task`.
    pub open spec fn queue_without(self, task: usize) -> Seq<usize> {
        if self.queue.contains(task) {
            self.queue.remove(self.queue.index_of(task))
        } else {
            self.queue
        }
    }

    /// The state after `task` has run to completion: its slot is free
    /// again and it is runnable no longer.
    pub open spec fn completed(self, task: usize) -> Self {
        if self.occupied(task) {
            ExecutorView {
                slots: self.slots.update(task as int, false),
                queue: self.queue_without(task),
            }
        } else {
            self
        }
    }
}

/// A task that was taken off the queue is not runnable again until it is
/// woken: the scheduler does not put a suspended task back by itself.
pub proof fn lemma_suspended_until_woken(e: ExecutorView)
    requires
        e.wf(),
        e.queue.len() > 0,
    ensures
        !e.popped().queue.contains(e.queue[0]),
        e.popped().wf(),
        e.popped().woken(e.queue[0]).queue == e.popped().queue.push(e.queue[0]),
{
    lemma_drop_first_contains(e.queue, e.queue[0]);
    assert forall|i: int| 0 <= i < e.popped().queue.len() implies (#[trigger] e.popped().queue[i])
        < e.popped().slots.len() && e.popped().slots[e.popped().queue[i] as int] by {
        assert(e.popped().queue[i] == e.queue[i + 1]);
    }
    assert(e.queue[0] < e.slots.len() && e.slots[e.queue[0] as int]);
}

/// Tasks are resumed in the order in which they became runnable: of two
/// suspended tasks the one that is woken first is taken off the queue
/// first, and both after all that were runnable before.
pub proof fn lemma_resumed_in_wake_order(e: ExecutorView, first: usize, second: usize)
    requires
        e.wf(),
        first != second,
        e.wake_enqueues(first),
        e.wake_enqueues(second),
    ensures
        e.woken(first).woken(second).queue == e.queue + seq![first, second],
        e.woken(first).woken(second).wf(),
{
    lemma_push_contains(e.queue, first, second);
    let q = e.woken(first).woken(second).queue;
    assert(q =~= e.queue + seq![first, second]);
    assert forall|i: int, j: int| 0 <= i < q.len() && 0 <= j < q.len() && i != j implies q[i]
        != q[j] by {
        if i < e.queue.len() {
            assert(e.queue.contains(q[i]));
        }
        if j < e.queue.len() {
            assert(e.queue.contains(q[j]));
        }
    }
    assert forall|i: int| 0 <= i < q.len() implies (#[trigger] q[i]) < e.slots.len()
        && e.slots[q[i] as int] by {
        if i < e.queue.len() {
            assert(q[i] == e.queue[i]);
        }
    }
}

pub struct Executor {
    spawned: Vec<bool>,
    queued: Vec<bool>,
    queue: Ring<usize>,
}

impl View for Executor {
    type V = ExecutorView;

    closed spec fn view(&self) -> ExecutorView {
        ExecutorView { slots: self.spawned@, queue: self.queue@ }
    }
}

impl Executor {
    /// The state is well formed and the representation sound.
    pub open spec fn wf(&self) -> bool {
        &&& self.inv()
        &&& self@.wf()
        &&& self@.slots.len() <= usize::MAX
    }

    /// The invariant of the representation.
    pub closed spec fn inv(&self) -> bool {
        &&& self.queue.wf()
        &&& self.queue.cap() == self.spawned.len()
        &&& self.queued.len() == self.spawned.len()
        &&& self@.wf()
        &&& forall|t: int|
            0 <= t < self.queued.len() ==> (#[trigger] self.queued[t]) == self.queue@.contains(
                t as usize,
            )
    }

    /// A scheduler with `capacity` free task slots and nothing to run.
    pub fn new(capacity: usize) -> (e: Self)
        ensures
            e.wf(),
            e@ == ExecutorView::idle(capacity as nat),
    {
        let mut spawned: Vec<bool> = Vec::new();
        let mut queued: Vec<bool> = Vec::new();
        let mut i: usize = 0;
        while i < capacity
            invariant
                i <= capacity,
                spawned.len() == i,
                queued.len() == i,
                forall|j: int| 0 <= j < i ==> !spawned[j] && !queued[j],
            decreases capacity - i,
        {
            spawned.push(false);
            queued.push(false);
            i = i + 1;
        }
        let e = Executor { spawned, queued, queue: Ring::new(capacity) };
        assert(e@.slots =~= ExecutorView::idle(capacity as nat).slots);
        e
    }

    /// The number of task slots.
    pub fn capacity(&self) -> (c: usize)
        requires
            self.wf(),
        ensures
            c == self@.slots.len(),
    {
        self.spawned.len()
    }

    /// Whether no task is runnable: the context may sleep until the next
    /// interrupt.
    pub fn is_idle(&self) -> (b: bool)
        requires
            self.wf(),
        ensures
            b == (self@.queue.len() == 0),
    {
        self.queue.is_empty()
    }

    /// Whether `task` stands in the run queue.
    pub fn is_runnable(&self, task: usize) -> (b: bool)
        requires
            self.wf(),
        ensures
            b == self@.queue.contains(task),
    {
        if task < self.queued.len() {
            self.queued[task]
        } else {
            proof {
                if self@.queue.contains(task) {
                    let i = choose|i: int| 0 <= i < self@.queue.len() && self@.queue[i] == task;
                    assert(self@.queue[i] < self@.slots.len());
                }
            }
            false
        }
    }

    fn enqueue(&mut self, task: usize)
        requires
            old(self).wf(),
            task < old(self)@.slots.len(),
            !old(self)@.queue.contains(task),
        ensures
            final(self).queue.wf(),
            final(self).queue.cap() == old(self).queue.cap(),
            final(self).spawned == old(self).spawned,
            final(self).queued@ == old(self).queued@.update(task as int, true),
            final(self).queue@ == old(self).queue@.push(task),
    {
        proof {
            lemma_room_left(self.queue@, self.spawned.len() as nat, task);
        }
        self.queue.push_back(task);
        self.queued.set(task, true);
    }

    /// Takes `slot` for a new task and makes the task runnable. Fails with
    /// `CapacityExceeded` where the context has no such slot and with
    /// `AlreadySpawned` where the slot holds a task.
    pub fn spawn(&mut self, slot: usize) -> (r: Result<(), Error>)
        requires
            old(self).wf(),
        ensures
            final(self).wf(),
            r == old(self)@.spawn_answer(slot),
            final(self)@ == old(self)@.spawned(slot),
    {
        if slot >= self.spawned.len() {
            return Err(
                Error::CapacityExceeded { resource: Resource::TaskSlots, limit: self.spawned.len() },
            );
        }
        if self.spawned[slot] {
            return Err(Error::AlreadySpawned { slot });
        }
        proof {
            if self.queue@.contains(slot) {
                let i = choose|i: int| 0 <= i < self.queue@.len() && self.queue@[i] == slot;
                assert(self@.slots[self@.queue[i] as int]);
            }
        }
        self.enqueue(slot);
        self.spawned.set(slot, true);
        proof {
            let before = old(self)@;
            assert(self@.queue == before.queue.push(slot));
            assert forall|i: int| 0 <= i < self@.queue.len() implies (#[trigger] self@.queue[i])
                < self@.slots.len() && self@.slots[self@.queue[i] as int] by {
                if i < before.queue.len() {
                    assert(before.queue[i] < before.slots.len());
                }
            }
            assert forall|t: int| 0 <= t < self.queued.len() implies (#[trigger] self.queued[t])
                == self.queue@.contains(t as usize) by {
                lemma_push_contains(before.queue, slot, t as usize);
            }
        }
        Ok(())
    }

    /// Marks `task` runnable. A task that is runnable already keeps its
    /// place, and a slot without a task is left alone. Returns whether the
    /// task was put on the queue.
    pub fn wake(&mut self, task: usize) -> (enqueued: bool)
        requires
            old(self).wf(),
        ensures
            final(self).wf(),
            enqueued == old(self)@.wake_enqueues(task),
            final(self)@ == old(self)@.woken(task),
    {
        if task >= self.spawned.len() || !self.spawned[task] || self.queued[task] {
            return false;
        }
        self.enqueue(task);
        proof {
            let before = old(self)@;
            assert forall|i: int| 0 <= i < self@.queue.len() implies (#[trigger] self@.queue[i])
                < self@.slots.len() && self@.slots[self@.queue[i] as int] by {
                if i < before.queue.len() {
                    assert(before.queue[i] < before.slots.len());
                }
            }
            assert forall|t: int| 0 <= t < self.queued.len() implies (#[trigger] self.queued[t])
                == self.queue@.contains(t as usize) by {
                lemma_push_contains(before.queue, task, t as usize);
            }
        }
        true
    }

    /// The next runnable task, left on the queue.
    pub fn front_task(&self) -> (task: Option<usize>)
        requires
            self.wf(),
        ensures
            task == self@.front(),
    {
        if self.queue.is_empty() {
            None
        } else {
            Some(self.queue.get(0))
        }
    }

    /// Takes the next runnable task off the queue, or answers `None` when
    /// the context is idle.
    pub fn next(&mut self) -> (task: Option<usize>)
        requires
            old(self).wf(),
        ensures
            final(self).wf(),
            task == old(self)@.front(),
            final(self)@ == old(self)@.popped(),
    {
        match self.queue.pop_front() {
            None => None,
            Some(t) => {
                proof {
                    assert(old(self)@.queue[0] == t);
                }
                self.queued.set(t, false);
                proof {
                    let before = old(self)@;
                    assert forall|i: int| 0 <= i < self@.queue.len() implies (
                    #[trigger] self@.queue[i]) < self@.slots.len()
                        && self@.slots[self@.queue[i] as int] by {
                        assert(self@.queue[i] == before.queue[i + 1]);
                    }
                    assert forall|u: int| 0 <= u < self.queued.len() implies (
                    #[trigger] self.queued[u]) == self.queue@.contains(u as usize) by {
                        lemma_drop_first_contains(before.queue, u as usize);
                    }
                }
                Some(t)
            },
        }
    }

    /// Records that `task` ran to completion: its slot can be spawned into
    /// again, and a wake that reached it meanwhile is forgotten.
    pub fn complete(&mut self, task: usize)
        requires
            old(self).wf(),
        ensures
            final(self).wf(),
            final(self)@ == old(self)@.completed(task),
    {
        if task >= self.spawned.len() || !self.spawned[task] {
            return ;
        }
        if self.queued[task] {
            let n: usize = self.queue.len();
            let mut k: usize = 0;
            while k < n && self.queue.get(k) != task
                invariant
                    self.queue.wf(),
                    n == self.queue@.len(),
                    k <= n,
                    self.queue@.contains(task),
                    forall|j: int| 0 <= j < k ==> self.queue@[j] != task,
                decreases n - k,
            {
                k = k + 1;
            }
            proof {
                let q = self.queue@;
                assert(k < n);
                lemma_index_of_unique(q, task, k as int);
            }
            let _ = self.queue.remove_at(k);
            self.queued.set(task, false);
            proof {
                let before = old(self)@;
                lemma_remove_no_duplicates(before.queue, k as int);
                assert forall|u: int| 0 <= u < self.queued.len() implies (
                #[trigger] self.queued[u]) == self.queue@.contains(u as usize) by {
                    lemma_remove_contains(before.queue, k as int, u as usize);
                }
            }
        }
        self.spawned.set(task, false);
        proof {
            let before = old(self)@;
            assert(!self.queue@.contains(task));
            assert forall|i: int| 0 <= i < self@.queue.len() implies (#[trigger] self@.queue[i])
                < self@.slots.len() && self@.slots[self@.queue[i] as int] by {
                let x = self@.queue[i];
                assert(self.queue@.contains(x));
                assert(before.queue.contains(x));
                let j = choose|j: int| 0 <= j < before.queue.len() && before.queue[j] == x;
                assert(before.queue[j] < before.slots.len());
            }
        }
    }
}

} // verus!
