//! The fixed set of execution contexts.
//!
//! A context is one scheduler on one core at one priority. The contexts
//! of a core that run under an interrupt have a higher priority than the
//! one that runs in the core's main loop, and a context with a runnable
//! task always goes before one of lower priority on the same core. Tasks
//! are assigned to a context once, when they are spawned.

use vstd::prelude::*;
use crate::error::{Error, Resource};
use crate::executor::{Executor, ExecutorView};
use crate::task::Waker;

verus! {

/// The state of one context.
pub struct ContextView {
    pub core: usize,
    pub priority: u8,
    pub executor: ExecutorView,
}

impl ContextView {
    /// Whether the context belongs to `core` and has a task to run.
    pub open spec fn ready_on(self, core: usize) -> bool {
        self.core == core && self.executor.queue.len() > 0
    }
}

/// The index of the context that runs next on `core`: the one of the
/// highest priority among those with a runnable task, and among equals
/// the one added first. `None` where the core has nothing to run.
pub open spec fn chosen(contexts: Seq<ContextView>, core: usize) -> Option<int>
    decreases contexts.len(),
{
    if contexts.len() == 0 {
        None
    } else {
        let before = chosen(contexts.drop_last(), core);
        if contexts.last().ready_on(core) && (before is None || contexts.last().priority
            > contexts[before.unwrap()].priority) {
            Some(contexts.len() - 1)
        } else {
            before
        }
    }
}

/// `chosen` names a context with a runnable task on the core, of a
/// priority that no other such context exceeds and that none added
/// before it equals; it names none exactly where there is none.
pub proof fn lemma_chosen(contexts: Seq<ContextView>, core: usize)
    ensures
        match chosen(contexts, core) {
            Some(k) => {
                &&& 0 <= k < contexts.len()
                &&& contexts[k].ready_on(core)
                &&& forall|j: int|
                    0 <= j < contexts.len() && (#[trigger] contexts[j]).ready_on(core)
                        ==> contexts[j].priority <= contexts[k].priority
                &&& forall|j: int|
                    0 <= j < k && (#[trigger] contexts[j]).ready_on(core) ==> contexts[j].priority
                        < contexts[k].priority
            },
            None => forall|j: int|
                0 <= j < contexts.len() ==> !(#[trigger] contexts[j]).ready_on(core),
        },
    decreases contexts.len(),
{
    if contexts.len() > 0 {
        let front = contexts.drop_last();
        lemma_chosen(front, core);
        assert forall|j: int| 0 <= j < front.len() implies front[j] == contexts[j] by {}
        match chosen(contexts, core) {
            Some(k) => {
                assert forall|j: int|
                    0 <= j < contexts.len() && (#[trigger] contexts[j]).ready_on(
                        core,
                    ) implies contexts[j].priority <= contexts[k].priority by {
                    if j < front.len() {
                        assert(front[j].ready_on(core));
                    }
                }
                assert forall|j: int|
                    0 <= j < k && (#[trigger] contexts[j]).ready_on(
                        core,
                    ) implies contexts[j].priority < contexts[k].priority by {
                    assert(front[j].ready_on(core));
                }
            },
            None => {
                assert forall|j: int| 0 <= j < contexts.len() implies !(
                #[trigger] contexts[j]).ready_on(core) by {
                    if j < front.len() {
                        assert(!front[j].ready_on(core));
                    }
                }
            },
        }
    }
}

/// The contexts with context `k` replaced by `executor`.
pub open spec fn with_executor(
    contexts: Seq<ContextView>,
    k: int,
    executor: ExecutorView,
) -> Seq<ContextView> {
    contexts.update(
        k,
        ContextView { core: contexts[k].core, priority: contexts[k].priority, executor },
    )
}

/// The contexts after `waker` is woken.
pub open spec fn woken(contexts: Seq<ContextView>, waker: Waker) -> Seq<ContextView> {
    if waker.context < contexts.len() {
        with_executor(
            contexts,
            waker.context as int,
            contexts[waker.context as int].executor.woken(waker.task),
        )
    } else {
        contexts
    }
}

/// The contexts after each of `wakers` is woken in turn.
pub open spec fn woken_all(contexts: Seq<ContextView>, wakers: Seq<Waker>) -> Seq<ContextView>
    decreases wakers.len(),
{
    if wakers.len() == 0 {
        contexts
    } else {
        woken(woken_all(contexts, wakers.drop_last()), wakers.last())
    }
}

/// What a spawn for `waker` answers.
pub open spec fn spawn_answer(contexts: Seq<ContextView>, waker: Waker) -> Result<(), Error> {
    if waker.context < contexts.len() {
        contexts[waker.context as int].executor.spawn_answer(waker.task)
    } else {
        Err(Error::CapacityExceeded { resource: Resource::TaskSlots, limit: 0 })
    }
}

/// The contexts after a spawn for `waker`.
pub open spec fn spawned(contexts: Seq<ContextView>, waker: Waker) -> Seq<ContextView> {
    if waker.context < contexts.len() {
        with_executor(
            contexts,
            waker.context as int,
            contexts[waker.context as int].executor.spawned(waker.task),
        )
    } else {
        contexts
    }
}

/// The task that runs next on `core`.
pub open spec fn next_on(contexts: Seq<ContextView>, core: usize) -> Option<Waker> {
    match chosen(contexts, core) {
        Some(k) => Some(Waker { context: k as usize, task: contexts[k].executor.queue[0] }),
        None => None,
    }
}

/// The contexts after the task that runs next on `core` is taken off its
/// queue.
pub open spec fn picked(contexts: Seq<ContextView>, core: usize) -> Seq<ContextView> {
    match chosen(contexts, core) {
        Some(k) => with_executor(contexts, k, contexts[k].executor.popped()),
        None => contexts,
    }
}

/// Whether `b` has the contexts of `a` on the same cores at the same
/// priorities: the topology is fixed, whatever the tasks do.
pub open spec fn same_topology(a: Seq<ContextView>, b: Seq<ContextView>) -> bool {
    &&& a.len() == b.len()
    &&& forall|i: int|
        0 <= i < a.len() ==> (#[trigger] b[i]).core == a[i].core && b[i].priority == a[i].priority
}

/// Spawning, waking and taking a task off its queue leave the topology
/// as it is.
pub proof fn lemma_topology_is_fixed(contexts: Seq<ContextView>, wakers: Seq<Waker>, core: usize)
    ensures
        same_topology(contexts, woken_all(contexts, wakers)),
        same_topology(contexts, picked(contexts, core)),
        wakers.len() > 0 ==> same_topology(contexts, woken(contexts, wakers[0])),
        wakers.len() > 0 ==> same_topology(contexts, spawned(contexts, wakers[0])),
    decreases wakers.len(),
{
    lemma_chosen(contexts, core);
    if wakers.len() > 0 {
        lemma_topology_is_fixed(contexts, wakers.drop_last(), core);
        let before = woken_all(contexts, wakers.drop_last());
        assert(same_topology(before, woken(before, wakers.last())));
    }
}

/// How the state of a primitive is kept from being touched by two tasks
/// at once.
#[derive(Clone, Copy, Debug, PartialEq, Eq, Structural)]
pub enum Guard {
    /// Nothing is needed beyond the contract that a task gives way only
    /// where it suspends: all users run in turn in one context.
    Cooperative,
    /// The critical section shuts out preemption and the other cores.
    PreemptionSafe,
}

/// Whether two of the contexts named in `users` differ in core or in
/// priority, so that one can run while the other is inside the
/// primitive. Names of contexts that do not exist count for nothing.
pub open spec fn reached_across(contexts: Seq<ContextView>, users: Seq<usize>) -> bool {
    exists|i: int, j: int|
        0 <= i < users.len() && 0 <= j < users.len() && #[trigger] users[i] < contexts.len()
            && #[trigger] users[j] < contexts.len() && (contexts[users[i] as int].core
            != contexts[users[j] as int].core || contexts[users[i] as int].priority
            != contexts[users[j] as int].priority)
}

/// The guard that a primitive used from the contexts `users` needs.
pub open spec fn guard_needed(contexts: Seq<ContextView>, users: Seq<usize>) -> Guard {
    if reached_across(contexts, users) {
        Guard::PreemptionSafe
    } else {
        Guard::Cooperative
    }
}

struct Context {
    core: usize,
    priority: u8,
    executor: Executor,
}

pub struct ContextSet {
    contexts: Vec<Context>,
}

impl View for ContextSet {
    type V = Seq<ContextView>;

    closed spec fn view(&self) -> Seq<ContextView> {
        Seq::new(
            self.contexts.len() as nat,
            |i: int|
                ContextView {
                    core: self.contexts[i].core,
                    priority: self.contexts[i].priority,
                    executor: self.contexts[i].executor@,
                },
        )
    }
}

impl ContextSet {
    /// Every scheduler's state is well formed and the representation
    /// sound.
    pub open spec fn wf(&self) -> bool {
        &&& self.inv()
        &&& forall|i: int| 0 <= i < self@.len() ==> (#[trigger] self@[i]).executor.wf()
    }

    /// The invariant of the representation.
    pub closed spec fn inv(&self) -> bool {
        forall|i: int| 0 <= i < self.contexts.len() ==> (#[trigger] self.contexts[i]).executor.wf()
    }

    /// A set without contexts.
    pub fn new() -> (s: Self)
        ensures
            s.wf(),
            s@ == Seq::<ContextView>::empty(),
    {
        let s = ContextSet { contexts: Vec::new() };
        assert(s@ =~= Seq::<ContextView>::empty());
        s
    }

    /// Adds a context on `core` at `priority` with `slots` task slots and
    /// returns its index.
    pub fn add(&mut self, core: usize, priority: u8, slots: usize) -> (id: usize)
        requires
            old(self).wf(),
        ensures
            final(self).wf(),
            id == old(self)@.len(),
            final(self)@ == old(self)@.push(
                ContextView { core, priority, executor: ExecutorView::idle(slots as nat) },
            ),
    {
        let id: usize = self.contexts.len();
        self.contexts.push(Context { core, priority, executor: Executor::new(slots) });
        assert(self@ =~= old(self)@.push(
            ContextView { core, priority, executor: ExecutorView::idle(slots as nat) },
        ));
        id
    }

    /// The number of contexts.
    pub fn len(&self) -> (n: usize)
        ensures
            n == self@.len(),
    {
        self.contexts.len()
    }

    /// Takes the slot that `waker` names for a new task and makes the
    /// task runnable. Fails as the context's scheduler does; a context
    /// that does not exist has no slots.
    pub fn spawn(&mut self, waker: Waker) -> (r: Result<(), Error>)
        requires
            old(self).wf(),
        ensures
            final(self).wf(),
            r == spawn_answer(old(self)@, waker),
            final(self)@ == spawned(old(self)@, waker),
            same_topology(old(self)@, final(self)@),
    {
        if waker.context >= self.contexts.len() {
            return Err(Error::CapacityExceeded { resource: Resource::TaskSlots, limit: 0 });
        }
        let r = self.contexts[waker.context].executor.spawn(waker.task);
        assert(self@ =~= spawned(old(self)@, waker));
        r
    }

    /// Marks the task of `waker` runnable. Returns whether it was put on
    /// its context's queue.
    pub fn wake(&mut self, waker: Waker) -> (enqueued: bool)
        requires
            old(self).wf(),
        ensures
            final(self).wf(),
            final(self)@ == woken(old(self)@, waker),
            same_topology(old(self)@, final(self)@),
            enqueued == (waker.context < old(self)@.len() && old(self)@[waker.context as int].executor.wake_enqueues(waker.task)),
    {
        if waker.context >= self.contexts.len() {
            return false;
        }
        let enqueued = self.contexts[waker.context].executor.wake(waker.task);
        assert(self@ =~= woken(old(self)@, waker));
        enqueued
    }

    /// Marks the tasks of all of `wakers` runnable, in their order.
    pub fn wake_all(&mut self, wakers: &Vec<Waker>)
        requires
            old(self).wf(),
        ensures
            final(self).wf(),
            final(self)@ == woken_all(old(self)@, wakers@),
            same_topology(old(self)@, final(self)@),
    {
        proof {
            lemma_topology_is_fixed(self@, wakers@, 0);
        }
        let n: usize = wakers.len();
        let mut k: usize = 0;
        while k < n
            invariant
                self.wf(),
                n == wakers.len(),
                k <= n,
                self@ == woken_all(old(self)@, wakers@.subrange(0, k as int)),
            decreases n - k,
        {
            proof {
                let next = wakers@.subrange(0, k as int + 1);
                assert(next.drop_last() =~= wakers@.subrange(0, k as int));
            }
            let _ = self.wake(wakers[k]);
            k = k + 1;
        }
        assert(wakers@.subrange(0, n as int) =~= wakers@);
    }

    /// Whether `core` has a task to run.
    pub fn has_work(&self, core: usize) -> (b: bool)
        requires
            self.wf(),
        ensures
            b == (chosen(self@, core) is Some),
    {
        self.choose_context(core).is_some()
    }

    fn choose_context(&self, core: usize) -> (k: Option<usize>)
        requires
            self.wf(),
        ensures
            match k {
                Some(i) => chosen(self@, core) == Some(i as int) && i < self@.len(),
                None => chosen(self@, core) is None,
            },
    {
        let n: usize = self.contexts.len();
        let mut best: Option<usize> = None;
        let mut k: usize = 0;
        assert(self@.subrange(0, 0) =~= Seq::<ContextView>::empty());
        while k < n
            invariant
                self.wf(),
                n == self.contexts.len(),
                k <= n,
                match best {
                    Some(i) => chosen(self@.subrange(0, k as int), core) == Some(i as int) && i < k,
                    None => chosen(self@.subrange(0, k as int), core) is None,
                },
            decreases n - k,
        {
            proof {
                let next = self@.subrange(0, k as int + 1);
                assert(next.drop_last() =~= self@.subrange(0, k as int));
                assert(next.last() == self@[k as int]);
                if best is Some {
                    assert(next[best.unwrap() as int] == self@[best.unwrap() as int]);
                }
            }
            let c = &self.contexts[k];
            if c.core == core && !c.executor.is_idle() {
                let better: bool = match best {
                    Some(i) => c.priority > self.contexts[i].priority,
                    None => true,
                };
                if better {
                    best = Some(k);
                }
            }
            k = k + 1;
        }
        assert(self@.subrange(0, n as int) =~= self@);
        best
    }

    /// The guard that a primitive needs which is used from the contexts
    /// `users`: the one that shuts out preemption as soon as two of them
    /// differ in core or in priority.
    pub fn guard_for(&self, users: &Vec<usize>) -> (g: Guard)
        ensures
            g == guard_needed(self@, users@),
    {
        let n: usize = users.len();
        let mut first: Option<usize> = None;
        let mut k: usize = 0;
        while k < n
            invariant
                n == users.len(),
                k <= n,
                match first {
                    Some(f) => f < k && users[f as int] < self.contexts.len(),
                    None => true,
                },
                forall|i: int|
                    0 <= i < k && (#[trigger] users[i]) < self.contexts.len() ==> first is Some
                        && self@[users[i] as int].core == self@[users[first.unwrap() as int] as int].core
                        && self@[users[i] as int].priority
                        == self@[users[first.unwrap() as int] as int].priority,
            decreases n - k,
        {
            let u: usize = users[k];
            if u < self.contexts.len() {
                match first {
                    None => {
                        first = Some(k);
                    },
                    Some(f) => {
                        let a = &self.contexts[users[f]];
                        let b = &self.contexts[u];
                        if a.core != b.core || a.priority != b.priority {
                            assert(reached_across(self@, users@)) by {
                                assert(users@[f as int] < self@.len());
                                assert(users@[k as int] < self@.len());
                            }
                            return Guard::PreemptionSafe;
                        }
                    },
                }
            }
            k = k + 1;
        }
        Guard::Cooperative
    }

    /// The task that runs next on `core`, left on its queue.
    pub fn peek(&self, core: usize) -> (w: Option<Waker>)
        requires
            self.wf(),
        ensures
            w == next_on(self@, core),
    {
        match self.choose_context(core) {
            None => None,
            Some(k) => {
                proof {
                    lemma_chosen(self@, core);
                }
                let t = self.contexts[k].executor.front_task();
                Some(Waker { context: k, task: t.unwrap() })
            },
        }
    }

    /// Takes the task that runs next on `core` off its queue: the first
    /// runnable task of the core's context of highest priority that has
    /// one. `None` where the core is idle and may sleep.
    pub fn pick(&mut self, core: usize) -> (w: Option<Waker>)
        requires
            old(self).wf(),
        ensures
            final(self).wf(),
            w == next_on(old(self)@, core),
            final(self)@ == picked(old(self)@, core),
            same_topology(old(self)@, final(self)@),
    {
        match self.choose_context(core) {
            None => None,
            Some(k) => {
                proof {
                    lemma_chosen(self@, core);
                }
                let t = self.contexts[k].executor.next();
                assert(self@ =~= picked(old(self)@, core));
                Some(Waker { context: k, task: t.unwrap() })
            },
        }
    }

    /// Records that the task of `waker` ran to completion.
    pub fn complete(&mut self, waker: Waker)
        requires
            old(self).wf(),
        ensures
            final(self).wf(),
            final(self)@ == (if waker.context < old(self)@.len() {
                with_executor(
                    old(self)@,
                    waker.context as int,
                    old(self)@[waker.context as int].executor.completed(waker.task),
                )
            } else {
                old(self)@
            }),
    {
        if waker.context < self.contexts.len() {
            self.contexts[waker.context].executor.complete(waker.task);
            assert(self@ =~= with_executor(
                old(self)@,
                waker.context as int,
                old(self)@[waker.context as int].executor.completed(waker.task),
            ));
        }
    }
}

} // verus!
