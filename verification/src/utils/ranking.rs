//! Ranking items by a numeric key, largest first, equal keys in their given order.

use vstd::prelude::*;

verus! {

/// Where an item with key `k` goes into `order`, a ranking of items by their
/// `keys`: before the first item whose key is smaller, so after its equals.
pub open spec fn slot(keys: Seq<u64>, order: Seq<int>, k: u64, from: int) -> int
    decreases order.len() - from,
{
    if 0 <= from < order.len() && keys[order[from]] >= k {
        slot(keys, order, k, from + 1)
    } else {
        from
    }
}

/// The ranking of the first `n` items: their indices, largest key first,
/// equal keys in the order of the indices.
pub open spec fn ranking(keys: Seq<u64>, n: int) -> Seq<int>
    decreases n,
{
    if n <= 0 {
        Seq::empty()
    } else {
        let before = ranking(keys, n - 1);
        before.insert(slot(keys, before, keys[n - 1], 0), n - 1)
    }
}

/// Whether `order` lists indices below `n` by descending key, equal keys by
/// ascending index, each index at most once.
pub open spec fn ranked(keys: Seq<u64>, order: Seq<int>, n: int) -> bool {
    &&& forall|j: int| 0 <= j < order.len() ==> 0 <= #[trigger] order[j] < n
    &&& forall|a: int, b: int|
        0 <= a < b < order.len() ==> keys[#[trigger] order[a]] > keys[#[trigger] order[b]] || (
        keys[order[a]] == keys[order[b]] && order[a] < order[b])
}

/// The slot lies within the ranking; the items before it have keys of at
/// least `k`, and the item at it has a smaller key.
pub proof fn lemma_slot(keys: Seq<u64>, order: Seq<int>, k: u64, from: int)
    requires
        0 <= from <= order.len(),
    ensures
        from <= slot(keys, order, k, from) <= order.len(),
        forall|j: int| from <= j < slot(keys, order, k, from) ==> keys[order[j]] >= k,
        slot(keys, order, k, from) < order.len() ==> keys[order[slot(keys, order, k, from)]] < k,
    decreases order.len() - from,
{
    if from < order.len() && keys[order[from]] >= k {
        lemma_slot(keys, order, k, from + 1);
    }
}

/// The ranking of the first `n` items lists each of their indices exactly
/// once, by descending key, and equal keys in their given order.
pub proof fn lemma_ranking_is_ranked(keys: Seq<u64>, n: int)
    requires
        0 <= n <= keys.len(),
    ensures
        ranking(keys, n).len() == n,
        ranked(keys, ranking(keys, n), n),
        forall|i: int| 0 <= i < n ==> ranking(keys, n).contains(i),
    decreases n,
{
    if n > 0 {
        lemma_ranking_is_ranked(keys, n - 1);
        let before = ranking(keys, n - 1);
        let k = keys[n - 1];
        let at = slot(keys, before, k, 0);
        lemma_slot(keys, before, k, 0);
        let after = before.insert(at, n - 1);
        assert forall|a: int, b: int| 0 <= a < b < after.len() implies keys[#[trigger] after[a]]
            > keys[#[trigger] after[b]] || (keys[after[a]] == keys[after[b]] && after[a]
            < after[b]) by {
            if b < at {
                assert(after[a] == before[a] && after[b] == before[b]);
            } else if b == at {
                assert(after[a] == before[a]);
            } else if a < at {
                assert(after[a] == before[a] && after[b] == before[b - 1]);
                if b - 1 == at {
                } else {
                    assert(keys[before[at]] < k);
                }
                assert(keys[before[a]] >= k);
                assert(keys[before[b - 1]] < k || b - 1 > at);
                if b - 1 > at {
                    assert(keys[before[at]] > keys[before[b - 1]] || keys[before[at]]
                        == keys[before[b - 1]]);
                }
            } else if a == at {
                assert(after[b] == before[b - 1]);
                if b - 1 > at {
                    assert(keys[before[at]] > keys[before[b - 1]] || keys[before[at]]
                        == keys[before[b - 1]]);
                }
            } else {
                assert(after[a] == before[a - 1] && after[b] == before[b - 1]);
            }
        }
        assert forall|i: int| 0 <= i < n implies after.contains(i) by {
            if i == n - 1 {
                assert(after[at] == i);
            } else {
                assert(before.contains(i));
                let j = choose|j: int| 0 <= j < before.len() && before[j] == i;
                if j < at {
                    assert(after[j] == i);
                } else {
                    assert(after[j + 1] == i);
                }
            }
        }
        assert forall|j: int| 0 <= j < after.len() implies 0 <= #[trigger] after[j] < n by {
            if j < at {
                assert(after[j] == before[j]);
            } else if j > at {
                assert(after[j] == before[j - 1]);
            }
        }
    }
}

/// The indices of the items in ranking order: largest key first, equal keys
/// in their given order.
pub fn rank_descending(keys: &Vec<u64>) -> (order: Vec<usize>)
    ensures
        order@.map_values(|i: usize| i as int) == ranking(keys@, keys.len() as int),
        order.len() == keys.len(),
        forall|j: int| 0 <= j < order.len() ==> (#[trigger] order[j]) < keys.len(),
{
    let mut order: Vec<usize> = Vec::new();
    let mut n: usize = 0;
    while n < keys.len()
        invariant
            n <= keys.len(),
            order.len() == n,
            order@.map_values(|i: usize| i as int) == ranking(keys@, n as int),
            forall|j: int| 0 <= j < order.len() ==> (#[trigger] order[j]) < n,
        decreases keys.len() - n,
    {
        let k = keys[n];
        let ghost before = order@.map_values(|i: usize| i as int);
        let mut at: usize = 0;
        while at < order.len() && keys[order[at]] >= k
            invariant
                at <= order.len(),
                order.len() == n,
                n < keys.len(),
                k == keys[n as int],
                before == order@.map_values(|i: usize| i as int),
                forall|j: int| 0 <= j < order.len() ==> (#[trigger] order[j]) < n,
                slot(keys@, before, k, 0) == slot(keys@, before, k, at as int),
            decreases order.len() - at,
        {
            assert(before[at as int] == order[at as int] as int);
            at += 1;
        }
        proof {
            if at < order.len() {
                assert(before[at as int] == order[at as int] as int);
            }
        }
        order.insert(at, n);
        assert(order@.map_values(|i: usize| i as int) =~= before.insert(at as int, n as int));
        assert forall|j: int| 0 <= j < order.len() implies (#[trigger] order[j]) < n + 1 by {
            if j < at {
            } else if j > at {
                assert(order[j] == before[j - 1]);
            }
        }
        n += 1;
    }
    order
}

} // verus!
