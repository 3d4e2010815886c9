//! Ordering items by time: the stable ascending order of a list of timestamps.

use vstd::prelude::*;
use crate::types::Timestamp;

verus! {

/// `order`, with `index` put in behind the last entry whose key is not later than
/// the key of `index`.
pub open spec fn insert_index(order: Seq<usize>, keys: Seq<Timestamp>, index: usize) -> Seq<usize>
    decreases order.len(),
{
    if order.len() == 0 {
        seq![index]
    } else if keys[order.last() as int].le(keys[index as int]) {
        order.push(index)
    } else {
        insert_index(order.drop_last(), keys, index).push(order.last())
    }
}

/// The positions of `keys` in ascending order of their keys; positions with equal
/// keys stay in the order they have in `keys`.
pub open spec fn sorted_order(keys: Seq<Timestamp>) -> Seq<usize>
    decreases keys.len(),
{
    if keys.len() == 0 {
        Seq::empty()
    } else {
        insert_index(sorted_order(keys.drop_last()), keys, (keys.len() - 1) as usize)
    }
}

/// Whether `order` lists positions of `keys` by ascending key, equal keys by
/// ascending position.
pub open spec fn is_ascending(order: Seq<usize>, keys: Seq<Timestamp>) -> bool {
    forall|i: int, j: int|
        0 <= i < j < order.len() ==> {
            let a = #[trigger] order[i];
            let b = #[trigger] order[j];
            keys[a as int].lt(keys[b as int]) || (keys[a as int] == keys[b as int] && a < b)
        }
}

/// Whether `order` holds each of the positions below `n` exactly once.
pub open spec fn is_arrangement(order: Seq<usize>, n: int) -> bool {
    &&& order.len() == n
    &&& forall|i: int| 0 <= i < order.len() ==> (#[trigger] order[i]) < n
    &&& forall|p: usize| p < n ==> #[trigger] order.contains(p)
}

/// Where `insert_index` puts the new position: behind entry `at - 1`, given that
/// every entry from `at` on has a later key and the one before it has not.
proof fn lemma_insert_at(order: Seq<usize>, keys: Seq<Timestamp>, index: usize, at: int)
    requires
        0 <= at <= order.len(),
        forall|q: int|
            at <= q < order.len() ==> !keys[#[trigger] order[q] as int].le(keys[index as int]),
        at > 0 ==> keys[order[at - 1] as int].le(keys[index as int]),
    ensures
        insert_index(order, keys, index) == order.take(at).push(index) + order.skip(at),
    decreases order.len(),
{
    if order.len() == 0 {
        assert(order.take(at).push(index) + order.skip(at) =~= seq![index]);
    } else if at == order.len() {
        assert(order.take(at).push(index) + order.skip(at) =~= order.push(index));
    } else {
        let shorter = order.drop_last();
        assert(!keys[order[order.len() - 1] as int].le(keys[index as int]));
        assert forall|q: int| at <= q < shorter.len() implies !keys[#[trigger] shorter[q] as int].le(
            keys[index as int],
        ) by {
            assert(shorter[q] == order[q]);
        }
        lemma_insert_at(shorter, keys, index, at);
        assert(shorter.take(at) =~= order.take(at));
        assert((shorter.take(at).push(index) + shorter.skip(at)).push(order.last()) =~= order.take(
            at,
        ).push(index) + order.skip(at));
    }
}

/// Putting a new last position into an ascending arrangement of the earlier ones
/// gives an ascending arrangement of them all.
proof fn lemma_insert_keeps(order: Seq<usize>, keys: Seq<Timestamp>, index: usize)
    requires
        index < keys.len(),
        is_arrangement(order, index as int),
        is_ascending(order, keys),
    ensures
        is_arrangement(insert_index(order, keys, index), index + 1),
        is_ascending(insert_index(order, keys, index), keys),
    decreases order.len(),
{
    let grown = insert_index(order, keys, index);
    let at = insertion_point(order, keys, index);
    lemma_insertion_point(order, keys, index);
    lemma_insert_at(order, keys, index, at);
    assert(grown == order.take(at).push(index) + order.skip(at));
    assert(grown.len() == index + 1);
    assert forall|i: int| 0 <= i < grown.len() implies (#[trigger] grown[i]) < index + 1 by {
        if i < at {
            assert(grown[i] == order[i]);
        } else if i > at {
            assert(grown[i] == order[i - 1]);
        }
    }
    assert forall|p: usize| p < index + 1 implies #[trigger] grown.contains(p) by {
        if p == index {
            assert(grown[at] == p);
        } else {
            assert(order.contains(p));
            let i = choose|i: int| 0 <= i < order.len() && order[i] == p;
            if i < at {
                assert(grown[i] == p);
            } else {
                assert(grown[i + 1] == p);
            }
        }
    }
    assert forall|i: int, j: int| 0 <= i < j < grown.len() implies ({
        let a = #[trigger] grown[i];
        let b = #[trigger] grown[j];
        keys[a as int].lt(keys[b as int]) || (keys[a as int] == keys[b as int] && a < b)
    }) by {
        let a = grown[i];
        let b = grown[j];
        if j < at {
            assert(a == order[i] && b == order[j]);
        } else if i > at {
            assert(a == order[i - 1] && b == order[j - 1]);
        } else if i == at {
            assert(b == order[j - 1]);
            assert(!keys[order[j - 1] as int].le(keys[index as int]));
        } else if j == at {
            assert(a == order[i]);
            assert(keys[order[at - 1] as int].le(keys[index as int]));
            assert(a < index);
        } else {
            assert(a == order[i] && b == order[j - 1]);
        }
    }
}

/// The place behind the last entry of `order` whose key is not later than that of
/// `index`; 0 where there is no such entry.
pub open spec fn insertion_point(order: Seq<usize>, keys: Seq<Timestamp>, index: usize) -> int
    decreases order.len(),
{
    if order.len() == 0 {
        0
    } else if keys[order.last() as int].le(keys[index as int]) {
        order.len() as int
    } else {
        insertion_point(order.drop_last(), keys, index)
    }
}

/// `insertion_point` is the place that `lemma_insert_at` asks for.
proof fn lemma_insertion_point(order: Seq<usize>, keys: Seq<Timestamp>, index: usize)
    ensures
        0 <= insertion_point(order, keys, index) <= order.len(),
        forall|q: int|
            insertion_point(order, keys, index) <= q < order.len() ==> !keys[#[trigger] order[q] as int].le(
                keys[index as int],
            ),
        insertion_point(order, keys, index) > 0 ==> keys[order[insertion_point(order, keys, index)
            - 1] as int].le(keys[index as int]),
    decreases order.len(),
{
    if order.len() > 0 && !keys[order.last() as int].le(keys[index as int]) {
        let shorter = order.drop_last();
        lemma_insertion_point(shorter, keys, index);
        let at = insertion_point(shorter, keys, index);
        assert forall|q: int| at <= q < order.len() implies !keys[#[trigger] order[q] as int].le(
            keys[index as int],
        ) by {
            if q < shorter.len() {
                assert(shorter[q] == order[q]);
            }
        }
        if at > 0 {
            assert(shorter[at - 1] == order[at - 1]);
        }
    }
}

/// The order that `sorted_order` gives holds every position exactly once and runs
/// by ascending key, with equal keys in the order in which they came.
pub proof fn lemma_sorted_order(keys: Seq<Timestamp>)
    requires
        keys.len() <= usize::MAX,
    ensures
        is_arrangement(sorted_order(keys), keys.len() as int),
        is_ascending(sorted_order(keys), keys),
    decreases keys.len(),
{
    if keys.len() > 0 {
        let shorter = keys.drop_last();
        lemma_sorted_order(shorter);
        let order = sorted_order(shorter);
        assert forall|i: int, j: int| 0 <= i < j < order.len() implies ({
            let a = #[trigger] order[i];
            let b = #[trigger] order[j];
            keys[a as int].lt(keys[b as int]) || (keys[a as int] == keys[b as int] && a < b)
        }) by {
            assert(shorter[order[i] as int] == keys[order[i] as int]);
            assert(shorter[order[j] as int] == keys[order[j] as int]);
        }
        lemma_insert_keeps(order, keys, (keys.len() - 1) as usize);
    }
}

/// The positions of `keys` in ascending order, equal keys in the order they came.
pub fn ascending_order(keys: &Vec<Timestamp>) -> (r: Vec<usize>)
    ensures
        r@ == sorted_order(keys@),
{
    let mut order: Vec<usize> = Vec::new();
    let n: usize = keys.len();
    let mut i: usize = 0;
    while i < n
        invariant
            i <= n == keys@.len(),
            order@ == sorted_order(keys@.take(i as int)),
            is_arrangement(order@, i as int),
        decreases keys@.len() - i,
    {
        let ghost prefix = keys@.take(i + 1);
        proof {
            assert(prefix.drop_last() =~= keys@.take(i as int));
            lemma_sorted_order(keys@.take(i as int));
        }
        let mut at: usize = order.len();
        while at > 0 && !keys[order[at - 1]].le(keys[i])
            invariant
                at <= order@.len(),
                i < keys@.len(),
                is_arrangement(order@, i as int),
                forall|q: int|
                    at <= q < order@.len() ==> !keys@[#[trigger] order@[q] as int].le(
                        keys@[i as int],
                    ),
            decreases at,
        {
            at -= 1;
        }
        proof {
            assert forall|q: int| at <= q < order@.len() implies !prefix[#[trigger] order@[q] as int].le(
                prefix[i as int],
            ) by {}
            lemma_insert_at(order@, prefix, i, at as int);
        }
        let ghost before = order@;
        order.insert(at, i);
        proof {
            assert(order@ =~= before.take(at as int).push(i) + before.skip(at as int));
            lemma_sorted_order(prefix);
        }
        i += 1;
    }
    proof {
        assert(keys@.take(keys@.len() as int) =~= keys@);
    }
    order
}

} // verus!
