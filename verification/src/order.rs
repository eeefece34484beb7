//! Stable ordering of records by a numeric key.

use vstd::prelude::*;

verus! {

/// Record `a` comes before record `b`: a smaller key, or the same key and an earlier
/// position.
pub open spec fn before(keys: Seq<u32>, a: int, b: int) -> bool {
    keys[a] < keys[b] || (keys[a] == keys[b] && a < b)
}

/// `order` lists positions below `keys.len()` in the stable order by key.
pub open spec fn stably_sorted(keys: Seq<u32>, order: Seq<usize>) -> bool {
    &&& forall|i: int| 0 <= i < order.len() ==> (#[trigger] order[i]) < keys.len()
    &&& forall|i: int, j: int| 0 <= i < j < order.len() ==> before(keys, #[trigger] order[i] as int, #[trigger] order[j] as int)
}

/// The positions of `keys` in the order a stable sort by key leaves them: every
/// position once, smaller keys first, equal keys in the order given.
pub fn stable_order(keys: &Vec<u32>) -> (order: Vec<usize>)
    ensures
        order@.len() == keys@.len(),
        stably_sorted(keys@, order@),
{
    let n = keys.len();
    let mut order: Vec<usize> = Vec::new();
    let mut k: usize = 0;
    while k < n
        invariant
            n == keys@.len(),
            k <= n,
            order@.len() == k,
            forall|i: int| 0 <= i < order@.len() ==> (#[trigger] order@[i]) < k,
            stably_sorted(keys@, order@),
        decreases n - k,
    {
        let mut p: usize = 0;
        while p < order.len() && keys[order[p]] <= keys[k]
            invariant
                n == keys@.len(),
                k < n,
                p <= order@.len(),
                forall|i: int| 0 <= i < order@.len() ==> (#[trigger] order@[i]) < k,
                forall|i: int| 0 <= i < p ==> keys@[#[trigger] order@[i] as int] <= keys@[k as int],
            decreases order@.len() - p,
        {
            p += 1;
        }
        let ghost old_order = order@;
        proof {
            assert forall|i: int| p <= i < old_order.len() implies keys@[#[trigger] old_order[i] as int] > keys@[k as int] by {
                if p < old_order.len() {
                    assert(keys@[old_order[p as int] as int] > keys@[k as int]);
                    if i > p {
                        assert(before(keys@, old_order[p as int] as int, old_order[i] as int));
                    }
                }
            }
        }
        order.insert(p, k);
        assert forall|i: int, j: int| 0 <= i < j < order@.len() implies before(keys@, #[trigger] order@[i] as int, #[trigger] order@[j] as int) by {
            if j < p {
                assert(order@[i] == old_order[i] && order@[j] == old_order[j]);
            } else if j == p {
                assert(order@[i] == old_order[i]);
            } else if i == p {
                assert(order@[j] == old_order[j - 1]);
            } else if i < p {
                assert(order@[i] == old_order[i] && order@[j] == old_order[j - 1]);
            } else {
                assert(order@[i] == old_order[i - 1] && order@[j] == old_order[j - 1]);
            }
        }
        k += 1;
    }
    order
}

/// `items` rearranged so that entry `i` is the item at `order[i]`.
pub fn take_in_order<T>(items: Vec<T>, order: &Vec<usize>) -> (out: Vec<T>)
    requires
        forall|i: int| 0 <= i < order@.len() ==> (#[trigger] order@[i]) < items@.len(),
        forall|i: int, j: int| 0 <= i < j < order@.len() ==> #[trigger] order@[i] != #[trigger] order@[j],
    ensures
        out@.len() == order@.len(),
        forall|i: int| 0 <= i < order@.len() ==> #[trigger] out@[i] == items@[order@[i] as int],
{
    let ghost orig = items@;
    let mut slots: Vec<Option<T>> = Vec::new();
    let mut items = items;
    let n = items.len();
    while items.len() > 0
        invariant
            n == orig.len(),
            slots@.len() + items@.len() == n,
            forall|i: int| 0 <= i < items@.len() ==> #[trigger] items@[i] == orig[i],
            forall|i: int| 0 <= i < slots@.len() ==> #[trigger] slots@[i] == Some(orig[n - 1 - i]),
        decreases items@.len(),
    {
        let it = items.pop().unwrap();
        slots.push(Some(it));
    }
    let mut out: Vec<T> = Vec::new();
    let mut k: usize = 0;
    while k < order.len()
        invariant
            n == orig.len(),
            slots@.len() == n,
            k <= order@.len(),
            out@.len() == k,
            forall|i: int| 0 <= i < order@.len() ==> (#[trigger] order@[i]) < n,
            forall|i: int, j: int| 0 <= i < j < order@.len() ==> #[trigger] order@[i] != #[trigger] order@[j],
            forall|i: int| 0 <= i < k ==> #[trigger] out@[i] == orig[order@[i] as int],
            forall|p: int| 0 <= p < n ==> (#[trigger] slots@[n - 1 - p]) == (
                if exists|i: int| 0 <= i < k && order@[i] == p { None } else { Some(orig[p]) }),
        decreases order@.len() - k,
    {
        let p = order[k];
        let pos = n - 1 - p;
        assert(slots@[n - 1 - p as int] == Some(orig[p as int])) by {
            assert(!exists|i: int| 0 <= i < k && order@[i] == p);
        }
        let mut taken: Option<T> = None;
        std::mem::swap(&mut taken, &mut slots[pos]);
        out.push(taken.unwrap());
        assert forall|q: int| 0 <= q < n implies (#[trigger] slots@[n - 1 - q]) == (
            if exists|i: int| 0 <= i < k + 1 && order@[i] == q { None } else { Some(orig[q]) }) by {
            if q == p as int {
                assert(order@[k as int] == q);
            } else {
                if exists|i: int| 0 <= i < k + 1 && order@[i] == q {
                    let i = choose|i: int| 0 <= i < k + 1 && order@[i] == q;
                    assert(i != k);
                }
            }
        }
        k += 1;
    }
    out
}

} // verus!
