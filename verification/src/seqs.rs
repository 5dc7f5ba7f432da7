//! Facts about sequences without duplicates.

use vstd::prelude::*;

verus! {

/// What a sequence contains after one more item is appended.
pub proof fn lemma_push_contains<T>(q: Seq<T>, x: T, y: T)
    ensures
        q.push(x).contains(y) == (q.contains(y) || y == x),
{
    if q.contains(y) {
        let i = choose|i: int| 0 <= i < q.len() && q[i] == y;
        assert(q.push(x)[i] == y);
    }
    if y == x {
        assert(q.push(x)[q.len() as int] == y);
    }
}

/// What a sequence without duplicates contains after its first item is
/// dropped.
pub proof fn lemma_drop_first_contains<T>(q: Seq<T>, y: T)
    requires
        q.len() > 0,
        q.no_duplicates(),
    ensures
        q.drop_first().contains(y) == (q.contains(y) && y != q[0]),
        q.drop_first().no_duplicates(),
{
    let d = q.drop_first();
    if d.contains(y) {
        let i = choose|i: int| 0 <= i < d.len() && d[i] == y;
        assert(q[i + 1] == y);
    }
    if q.contains(y) && y != q[0] {
        let i = choose|i: int| 0 <= i < q.len() && q[i] == y;
        assert(d[i - 1] == y);
    }
}

/// In a sequence without duplicates an item is found at one index only.
pub proof fn lemma_index_of_unique<T>(q: Seq<T>, x: T, k: int)
    requires
        q.no_duplicates(),
        0 <= k < q.len(),
        q[k] == x,
    ensures
        q.contains(x),
        q.index_of(x) == k,
{
}

/// What a sequence without duplicates contains after the item at index
/// `k` is removed.
pub proof fn lemma_remove_contains<T>(q: Seq<T>, k: int, y: T)
    requires
        q.no_duplicates(),
        0 <= k < q.len(),
    ensures
        q.remove(k).contains(y) == (q.contains(y) && y != q[k]),
{
    let r = q.remove(k);
    if r.contains(y) {
        let i = choose|i: int| 0 <= i < r.len() && r[i] == y;
        if i < k {
            assert(q[i] == y);
        } else {
            assert(q[i + 1] == y);
        }
    }
    if q.contains(y) && y != q[k] {
        let i = choose|i: int| 0 <= i < q.len() && q[i] == y;
        if i < k {
            assert(r[i] == y);
        } else {
            assert(r[i - 1] == y);
        }
    }
}

/// Removing an item keeps a sequence free of duplicates.
pub proof fn lemma_remove_no_duplicates<T>(q: Seq<T>, k: int)
    requires
        q.no_duplicates(),
        0 <= k < q.len(),
    ensures
        q.remove(k).no_duplicates(),
{
    let r = q.remove(k);
    assert forall|i: int, j: int| 0 <= i < r.len() && 0 <= j < r.len() && i != j implies r[i]
        != r[j] by {
        let a = if i < k { i } else { i + 1 };
        let b = if j < k { j } else { j + 1 };
        assert(r[i] == q[a]);
        assert(r[j] == q[b]);
    }
}

/// A sequence without duplicates whose items are all below `n` has at
/// most `n` items.
pub proof fn lemma_distinct_bounded(q: Seq<usize>, n: nat)
    requires
        q.no_duplicates(),
        forall|i: int| 0 <= i < q.len() ==> (#[trigger] q[i]) < n,
    ensures
        q.len() <= n,
    decreases n,
{
    if n == 0 {
        if q.len() > 0 {
            assert(q[0] < n);
        }
    } else {
        let top = (n - 1) as usize;
        if q.contains(top) {
            let k = q.index_of(top);
            let r = q.remove(k);
            lemma_remove_no_duplicates(q, k);
            assert forall|i: int| 0 <= i < r.len() implies (#[trigger] r[i]) < n - 1 by {
                let j = if i < k { i } else { i + 1 };
                assert(r[i] == q[j]);
                assert(q[j] < n);
                assert(q[j] != q[k]);
            }
            lemma_distinct_bounded(r, (n - 1) as nat);
        } else {
            assert forall|i: int| 0 <= i < q.len() implies (#[trigger] q[i]) < n - 1 by {
                assert(q[i] < n);
                assert(q.contains(q[i]));
            }
            lemma_distinct_bounded(q, (n - 1) as nat);
        }
    }
}

/// A sequence without duplicates whose items are all below `n` and that
/// lacks one value below `n` is shorter than `n`.
pub proof fn lemma_room_left(q: Seq<usize>, n: nat, missing: usize)
    requires
        q.no_duplicates(),
        forall|i: int| 0 <= i < q.len() ==> (#[trigger] q[i]) < n,
        missing < n,
        !q.contains(missing),
    ensures
        q.len() < n,
{
    let p = q.push(missing);
    assert forall|i: int, j: int| 0 <= i < p.len() && 0 <= j < p.len() && i != j implies p[i]
        != p[j] by {
        if i < q.len() && j < q.len() {
            assert(q[i] != q[j]);
        } else if i < q.len() {
            assert(q.contains(q[i]));
        } else {
            assert(q.contains(q[j]));
        }
    }
    assert forall|i: int| 0 <= i < p.len() implies (#[trigger] p[i]) < n by {
        if i < q.len() {
            assert(q[i] < n);
        }
    }
    lemma_distinct_bounded(p, n);
}

} // verus!
