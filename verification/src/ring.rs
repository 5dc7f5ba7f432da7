//! A bounded first-in, first-out buffer over fixed storage.
//!
//! The storage is allocated once, at construction, and never grows. The
//! view of a ring is the sequence of its items, oldest first.

use vstd::prelude::*;

verus! {

pub struct Ring<T> {
    slots: Vec<Option<T>>,
    head: usize,
    len: usize,
}

impl<T: Copy> View for Ring<T> {
    type V = Seq<T>;

    closed spec fn view(&self) -> Seq<T> {
        Seq::new(self.len as nat, |i: int| self.slots@[self.slot_of(i)].unwrap())
    }
}

impl<T: Copy> Ring<T> {
    /// The storage index of the `i`-th item.
    spec fn slot_of(&self, i: int) -> int {
        if self.head + i < self.slots.len() {
            self.head + i
        } else {
            self.head + i - self.slots.len()
        }
    }

    /// A ring holds no more than its capacity, and its representation is
    /// sound.
    pub open spec fn wf(&self) -> bool {
        &&& self.inv()
        &&& self@.len() <= self.cap()
        &&& self.cap() <= usize::MAX
    }

    /// The invariant of the representation.
    pub closed spec fn inv(&self) -> bool {
        &&& self.len <= self.slots.len()
        &&& self.head < self.slots.len() || (self.head == 0 && self.slots.len() == 0)
        &&& forall|i: int| 0 <= i < self.len ==> (#[trigger] self.slots@[self.slot_of(i)]) is Some
    }

    /// The fixed number of items that the ring can hold.
    pub closed spec fn cap(&self) -> nat {
        self.slots.len() as nat
    }

    pub fn new(capacity: usize) -> (r: Self)
        ensures
            r.wf(),
            r@ == Seq::<T>::empty(),
            r.cap() == capacity,
    {
        let mut slots: Vec<Option<T>> = Vec::new();
        let mut i: usize = 0;
        while i < capacity
            invariant
                i <= capacity,
                slots.len() == i,
            decreases capacity - i,
        {
            slots.push(None);
            i = i + 1;
        }
        let r = Ring { slots, head: 0, len: 0 };
        assert(r@ =~= Seq::<T>::empty());
        r
    }

    pub fn capacity(&self) -> (c: usize)
        ensures
            c == self.cap(),
    {
        self.slots.len()
    }

    pub fn len(&self) -> (n: usize)
        requires
            self.wf(),
        ensures
            n == self@.len(),
    {
        self.len
    }

    pub fn is_empty(&self) -> (b: bool)
        requires
            self.wf(),
        ensures
            b == (self@.len() == 0),
    {
        self.len == 0
    }

    pub fn is_full(&self) -> (b: bool)
        requires
            self.wf(),
        ensures
            b == (self@.len() == self.cap()),
    {
        self.len == self.slots.len()
    }

    /// The `i`-th item, counted from the oldest.
    pub fn get(&self, i: usize) -> (v: T)
        requires
            self.wf(),
            i < self@.len(),
        ensures
            v == self@[i as int],
    {
        let cap: usize = self.slots.len();
        let p: usize = if i < cap - self.head {
            self.head + i
        } else {
            i - (cap - self.head)
        };
        assert(p == self.slot_of(i as int));
        match self.slots[p] {
            Some(v) => v,
            None => {
                proof {
                    assert(self.slots@[self.slot_of(i as int)] is Some);
                }
                unreached()
            },
        }
    }

    /// Appends `value` as the newest item.
    pub fn push_back(&mut self, value: T)
        requires
            old(self).wf(),
            old(self)@.len() < old(self).cap(),
        ensures
            final(self).wf(),
            final(self).cap() == old(self).cap(),
            final(self)@ == old(self)@.push(value),
    {
        let cap: usize = self.slots.len();
        let p: usize = if self.len < cap - self.head {
            self.head + self.len
        } else {
            self.len - (cap - self.head)
        };
        let ghost before = *self;
        self.slots.set(p, Some(value));
        self.len = self.len + 1;
        proof {
            assert(p == before.slot_of(before.len as int));
            assert forall|i: int| 0 <= i < self.len implies (#[trigger] self.slots@[self.slot_of(
                i,
            )]) is Some by {
                if i < before.len {
                    assert(self.slot_of(i) == before.slot_of(i));
                    assert(before.slots@[before.slot_of(i)] is Some);
                }
            }
            assert forall|i: int| 0 <= i < self.len implies self@[i] == before@.push(value)[i] by {
                if i < before.len {
                    assert(self.slot_of(i) == before.slot_of(i));
                }
            }
            assert(self@ =~= before@.push(value));
        }
    }

    /// Removes and returns the oldest item, if there is one.
    pub fn pop_front(&mut self) -> (v: Option<T>)
        requires
            old(self).wf(),
        ensures
            final(self).wf(),
            final(self).cap() == old(self).cap(),
            old(self)@.len() == 0 ==> v is None && final(self)@ == old(self)@,
            old(self)@.len() > 0 ==> v == Some(old(self)@[0]) && final(self)@ == old(self)@.drop_first(),
    {
        if self.len == 0 {
            return None;
        }
        let ghost before = *self;
        let v: T = self.get(0);
        let cap: usize = self.slots.len();
        self.head = if self.head + 1 == cap {
            0
        } else {
            self.head + 1
        };
        self.len = self.len - 1;
        proof {
            assert forall|i: int| 0 <= i < self.len implies self.slot_of(i) == before.slot_of(
                i + 1,
            ) by {}
            assert forall|i: int| 0 <= i < self.len implies (#[trigger] self.slots@[self.slot_of(
                i,
            )]) is Some by {
                assert(before.slots@[before.slot_of(i + 1)] is Some);
            }
            assert forall|i: int| 0 <= i < self.len implies self@[i] == before@.drop_first()[i] by {
                assert(self.slot_of(i) == before.slot_of(i + 1));
            }
            assert(self@ =~= before@.drop_first());
        }
        Some(v)
    }

    /// Appends `value`, first dropping the oldest item if the ring is
    /// full. Returns the item that was dropped. A ring of capacity zero
    /// keeps nothing and hands `value` itself back.
    pub fn force_push(&mut self, value: T) -> (dropped: Option<T>)
        requires
            old(self).wf(),
        ensures
            final(self).wf(),
            final(self).cap() == old(self).cap(),
            final(self)@ == push_bounded(old(self)@, old(self).cap(), value),
            dropped == dropped_by_push(old(self)@, old(self).cap(), value),
    {
        if self.slots.len() == 0 {
            assert(self@ =~= Seq::<T>::empty());
            return Some(value);
        }
        let dropped: Option<T> = if self.is_full() {
            self.pop_front()
        } else {
            None
        };
        self.push_back(value);
        dropped
    }

    /// Removes and returns the `i`-th item; the others keep their order.
    pub fn remove_at(&mut self, i: usize) -> (v: T)
        requires
            old(self).wf(),
            i < old(self)@.len(),
        ensures
            final(self).wf(),
            final(self).cap() == old(self).cap(),
            v == old(self)@[i as int],
            final(self)@ == old(self)@.remove(i as int),
    {
        let ghost before = self@;
        let n: usize = self.len;
        let v: T = self.get(i);
        let mut k: usize = 0;
        while k < n
            invariant
                self.wf(),
                self.cap() == old(self).cap(),
                n == before.len(),
                i < n,
                k <= n,
                before.len() <= self.cap(),
                self@ == before.subrange(k as int, n as int) + (if k <= i {
                    before.subrange(0, k as int)
                } else {
                    before.subrange(0, k as int).remove(i as int)
                }),
            decreases n - k,
        {
            let ghost cur = self@;
            let x: Option<T> = self.pop_front();
            if k != i {
                self.push_back(x.unwrap());
            }
            proof {
                let rest = before.subrange(k as int + 1, n as int);
                let done = if k <= i {
                    before.subrange(0, k as int)
                } else {
                    before.subrange(0, k as int).remove(i as int)
                };
                let done_next = if k + 1 <= i {
                    before.subrange(0, k as int + 1)
                } else {
                    before.subrange(0, k as int + 1).remove(i as int)
                };
                assert(cur.drop_first() =~= rest + done);
                if k != i {
                    assert(done.push(before[k as int]) =~= done_next);
                    assert((rest + done).push(before[k as int]) =~= rest + done_next);
                } else {
                    assert(done =~= done_next);
                }
            }
            k = k + 1;
        }
        assert(self@ =~= before.remove(i as int));
        v
    }
}

/// A bounded sequence after `value` is appended: the oldest item gives way
/// once `cap` items are held.
pub open spec fn push_bounded<T>(items: Seq<T>, cap: nat, value: T) -> Seq<T> {
    if cap == 0 {
        items
    } else if items.len() >= cap {
        items.drop_first().push(value)
    } else {
        items.push(value)
    }
}

/// The item that gives way when `value` is appended to a bounded sequence.
pub open spec fn dropped_by_push<T>(items: Seq<T>, cap: nat, value: T) -> Option<T> {
    if cap == 0 {
        Some(value)
    } else if items.len() >= cap {
        Some(items[0])
    } else {
        None
    }
}

} // verus!
