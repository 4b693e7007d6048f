//! Stable ordering of items by an integer key.

use vstd::prelude::*;

verus! {

/// Position in `order` behind the last entry whose key is at most `key`.
/// The entries of `order` are indices into `keys`.
pub open spec fn slot(keys: Seq<u64>, order: Seq<int>, key: u64) -> int
    decreases order.len(),
{
    if order.len() == 0 {
        0
    } else if keys[order.last()] <= key {
        order.len() as int
    } else {
        slot(keys, order.drop_last(), key)
    }
}

/// The indices of `keys` in order of key; indices with equal keys stay in
/// rising order.
pub open spec fn stable_order(keys: Seq<u64>) -> Seq<int>
    decreases keys.len(),
{
    if keys.len() == 0 {
        Seq::<int>::empty()
    } else {
        let rest = stable_order(keys.drop_last());
        rest.insert(slot(keys, rest, keys.last()), keys.len() - 1)
    }
}

/// The entries of `order` as mathematical integers.
pub open spec fn as_ints(order: Seq<usize>) -> Seq<int> {
    order.map_values(|i: usize| i as int)
}

/// Index `a` comes before index `b`: its key is smaller, or the keys are
/// equal and `a` is the smaller index.
pub open spec fn ranks_before(keys: Seq<u64>, a: int, b: int) -> bool {
    keys[a] < keys[b] || (keys[a] == keys[b] && a < b)
}

/// `slot` lies within `order`, behind an entry with a key at most `key` and
/// before entries with larger keys only.
pub proof fn lemma_slot(keys: Seq<u64>, order: Seq<int>, key: u64)
    ensures
        0 <= slot(keys, order, key) <= order.len(),
        slot(keys, order, key) > 0 ==> keys[order[slot(keys, order, key) - 1]] <= key,
        forall|k: int| slot(keys, order, key) <= k < order.len() ==> keys[#[trigger] order[k]] > key,
    decreases order.len(),
{
    if order.len() > 0 && keys[order.last()] > key {
        let front = order.drop_last();
        lemma_slot(keys, front, key);
        let p = slot(keys, front, key);
        assert forall|k: int| p <= k < order.len() implies keys[#[trigger] order[k]] > key by {
            if k < order.len() - 1 {
                assert(front[k] == order[k]);
            }
        }
        if p > 0 {
            assert(front[p - 1] == order[p - 1]);
        }
    }
}

/// `stable_order` lists every index of `keys` once, smaller keys first and
/// equal keys in rising order of index.
pub proof fn lemma_stable_order(keys: Seq<u64>)
    ensures
        stable_order(keys).len() == keys.len(),
        forall|k: int| 0 <= k < keys.len() ==> 0 <= #[trigger] stable_order(keys)[k] < keys.len(),
        forall|i: int, j: int|
            0 <= i < j < keys.len() ==> ranks_before(
                keys,
                #[trigger] stable_order(keys)[i],
                #[trigger] stable_order(keys)[j],
            ),
    decreases keys.len(),
{
    if keys.len() > 0 {
        let front = keys.drop_last();
        let rest = stable_order(front);
        let last = keys.len() - 1;
        lemma_stable_order(front);
        lemma_slot(keys, rest, keys.last());
        let p = slot(keys, rest, keys.last());
        let order = stable_order(keys);
        assert(order == rest.insert(p, last));
        assert forall|k: int| 0 <= k < keys.len() implies 0 <= #[trigger] order[k] < keys.len() by {
            if k < p {
                assert(order[k] == rest[k]);
            } else if k > p {
                assert(order[k] == rest[k - 1]);
            }
        }
        assert forall|i: int, j: int| 0 <= i < j < keys.len() implies ranks_before(
            keys,
            #[trigger] order[i],
            #[trigger] order[j],
        ) by {
            let a = order[i];
            let b = order[j];
            if j < p {
                assert(a == rest[i] && b == rest[j]);
                assert(ranks_before(front, rest[i], rest[j]));
                assert(front[a] == keys[a] && front[b] == keys[b]);
            } else if j == p {
                assert(a == rest[i]);
                assert(0 <= rest[i] < front.len());
                if i < p - 1 {
                    assert(ranks_before(front, rest[i], rest[p - 1]));
                    assert(front[rest[i]] == keys[rest[i]]);
                    assert(front[rest[p - 1]] == keys[rest[p - 1]]);
                }
            } else {
                assert(b == rest[j - 1]);
                assert(keys[rest[j - 1]] > keys.last());
                if i < p {
                    assert(a == rest[i]);
                    assert(ranks_before(front, rest[i], rest[j - 1]));
                    assert(front[a] == keys[a] && front[b] == keys[b]);
                } else if i > p {
                    assert(a == rest[i - 1]);
                    assert(ranks_before(front, rest[i - 1], rest[j - 1]));
                    assert(front[a] == keys[a] && front[b] == keys[b]);
                }
            }
        }
    }
}

/// A sequence of keys that is already in order is listed as it stands.
pub proof fn lemma_stable_order_of_sorted(keys: Seq<u64>)
    requires
        forall|i: int, j: int| 0 <= i <= j < keys.len() ==> keys[i] <= keys[j],
    ensures
        stable_order(keys) == Seq::new(keys.len(), |i: int| i),
    decreases keys.len(),
{
    if keys.len() > 0 {
        let front = keys.drop_last();
        assert forall|i: int, j: int| 0 <= i <= j < front.len() implies front[i] <= front[j] by {
            assert(front[i] == keys[i] && front[j] == keys[j]);
        }
        lemma_stable_order_of_sorted(front);
        let rest = stable_order(front);
        if rest.len() > 0 {
            assert(rest.last() == front.len() - 1);
            assert(keys[rest.last()] <= keys.last());
        }
        assert(slot(keys, rest, keys.last()) == rest.len());
        assert(stable_order(keys) =~= Seq::new(keys.len(), |i: int| i));
    } else {
        assert(stable_order(keys) =~= Seq::new(keys.len(), |i: int| i));
    }
}

/// The indices of `keys` in order of key; indices with equal keys stay in
/// rising order.
pub fn sort_order(keys: &Vec<u64>) -> (order: Vec<usize>)
    ensures
        as_ints(order@) == stable_order(keys@),
        order@.len() == keys@.len(),
        forall|k: int| 0 <= k < order@.len() ==> (#[trigger] order@[k]) < keys@.len(),
{
    let mut order: Vec<usize> = Vec::with_capacity(keys.len());
    let mut n: usize = 0;
    assert(as_ints(order@) =~= stable_order(keys@.subrange(0, 0)));
    while n < keys.len()
        invariant
            n <= keys.len(),
            order@.len() == n,
            as_ints(order@) == stable_order(keys@.subrange(0, n as int)),
        decreases keys.len() - n,
    {
        let key = keys[n];
        let ghost front = keys@.subrange(0, n as int);
        let ghost grown = keys@.subrange(0, n + 1);
        let ghost rest = as_ints(order@);
        proof {
            assert(grown.drop_last() =~= front);
            assert(grown.last() == key);
            lemma_stable_order(front);
        }
        let mut pos: usize = order.len();
        assert(rest.subrange(0, pos as int) =~= rest);
        while pos > 0 && keys[order[pos - 1]] > key
            invariant
                pos <= order@.len(),
                order@.len() == n,
                n < keys.len(),
                rest == as_ints(order@),
                rest == stable_order(front),
                front == keys@.subrange(0, n as int),
                grown == keys@.subrange(0, n + 1),
                key == keys@[n as int],
                forall|k: int| 0 <= k < n ==> 0 <= #[trigger] rest[k] < n,
                slot(grown, rest, key) == slot(grown, rest.subrange(0, pos as int), key),
            decreases pos,
        {
            proof {
                let here = rest.subrange(0, pos as int);
                assert(here.last() == rest[pos - 1]);
                assert(rest[pos - 1] == order@[pos - 1] as int);
                assert(grown[rest[pos - 1]] == keys@[rest[pos - 1]]);
                assert(here.drop_last() =~= rest.subrange(0, pos - 1));
            }
            pos -= 1;
        }
        proof {
            let here = rest.subrange(0, pos as int);
            if pos > 0 {
                assert(here.last() == rest[pos - 1]);
                assert(rest[pos - 1] == order@[pos - 1] as int);
                assert(grown[rest[pos - 1]] == keys@[rest[pos - 1]]);
            }
            assert(slot(grown, here, key) == pos);
            assert(rest.subrange(0, rest.len() as int) =~= rest);
        }
        order.insert(pos, n);
        assert(as_ints(order@) =~= rest.insert(pos as int, n as int));
        n += 1;
    }
    proof {
        assert(keys@.subrange(0, n as int) =~= keys@);
        lemma_stable_order(keys@);
        assert forall|k: int| 0 <= k < order@.len() implies (#[trigger] order@[k]) < keys@.len() by {
            assert(as_ints(order@)[k] == order@[k] as int);
        }
    }
    order
}

} // verus!
