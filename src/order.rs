//! Stable ordering of items by a key, largest key first.

use vstd::prelude::*;

verus! {

/// `order` with index `i` put after every entry whose key is at least
/// `keys[i]` and before the first one whose key is smaller.
pub open spec fn insert_by_key(order: Seq<usize>, i: usize, keys: Seq<i128>) -> Seq<usize>
    decreases order.len(),
{
    if order.len() == 0 {
        seq![i]
    } else if keys[order[0] as int] < keys[i as int] {
        seq![i] + order
    } else {
        seq![order[0]] + insert_by_key(order.drop_first(), i, keys)
    }
}

/// The indices `0..n`, largest key first; equal keys keep their order.
pub open spec fn desc_order(keys: Seq<i128>, n: nat) -> Seq<usize>
    decreases n,
{
    if n == 0 {
        Seq::empty()
    } else {
        insert_by_key(desc_order(keys, (n - 1) as nat), (n - 1) as usize, keys)
    }
}

/// The keys met along `order` never grow.
pub open spec fn keys_non_increasing(order: Seq<usize>, keys: Seq<i128>) -> bool {
    forall|a: int, b: int|
        0 <= a < b < order.len() ==> keys[order[a] as int] >= keys[order[b] as int]
}

/// Every entry of `order` is an index below `n`, and none comes twice.
pub open spec fn indices_below(order: Seq<usize>, n: nat) -> bool {
    &&& forall|j: int| 0 <= j < order.len() ==> order[j] < n
    &&& order.no_duplicates()
}

/// Where the keys before `p` are all at least `keys[i]` and the one at `p`
/// (if any) is smaller, the insertion puts `i` at `p`.
proof fn lemma_insert_at(order: Seq<usize>, i: usize, keys: Seq<i128>, p: int)
    requires
        0 <= p <= order.len(),
        forall|j: int| 0 <= j < p ==> keys[order[j] as int] >= keys[i as int],
        p < order.len() ==> keys[order[p] as int] < keys[i as int],
    ensures
        insert_by_key(order, i, keys) == order.insert(p, i),
    decreases order.len(),
{
    if order.len() == 0 {
        assert(order.insert(p, i) =~= seq![i]);
    } else if p == 0 {
        assert(order.insert(p, i) =~= seq![i] + order);
    } else {
        let rest = order.drop_first();
        assert forall|j: int| 0 <= j < p - 1 implies keys[rest[j] as int] >= keys[i as int] by {
            assert(rest[j] == order[j + 1]);
        }
        lemma_insert_at(rest, i, keys, p - 1);
        assert(order.insert(p, i) =~= seq![order[0]] + rest.insert(p - 1, i));
    }
}

/// In a sorted `order` there is a place where `i` goes: after the keys that
/// are at least `keys[i]`, before the smaller ones.
proof fn lemma_insert_pos(order: Seq<usize>, i: usize, keys: Seq<i128>) -> (p: int)
    ensures
        0 <= p <= order.len(),
        forall|j: int| 0 <= j < p ==> keys[order[j] as int] >= keys[i as int],
        p < order.len() ==> keys[order[p] as int] < keys[i as int],
    decreases order.len(),
{
    if order.len() == 0 {
        0
    } else if keys[order[0] as int] < keys[i as int] {
        0
    } else {
        let rest = order.drop_first();
        let q = lemma_insert_pos(rest, i, keys);
        assert forall|j: int| 0 <= j < q + 1 implies keys[order[j] as int] >= keys[i as int] by {
            if j > 0 {
                assert(order[j] == rest[j - 1]);
            }
        }
        if q < rest.len() {
            assert(order[q + 1] == rest[q]);
        }
        q + 1
    }
}

/// The order of `n` keys is sorted and holds each index below `n` once.
pub proof fn lemma_desc_order(keys: Seq<i128>, n: nat)
    requires
        n <= keys.len() <= usize::MAX,
    ensures
        desc_order(keys, n).len() == n,
        keys_non_increasing(desc_order(keys, n), keys),
        indices_below(desc_order(keys, n), n),
    decreases n,
{
    if n > 0 {
        let prev = desc_order(keys, (n - 1) as nat);
        let i = (n - 1) as usize;
        lemma_desc_order(keys, (n - 1) as nat);
        let p = lemma_insert_pos(prev, i, keys);
        lemma_insert_at(prev, i, keys, p);
        let r = desc_order(keys, n);
        assert(r == prev.insert(p, i));
        assert forall|j: int| 0 <= j < r.len() implies r[j] < n && (r[j] == i <==> j == p) by {
            if j < p {
                assert(r[j] == prev[j]);
            } else if j > p {
                assert(r[j] == prev[j - 1]);
            }
        }
        assert forall|a: int, b: int| 0 <= a < b < r.len() implies keys[r[a] as int]
            >= keys[r[b] as int] by {
            if b < p {
                assert(r[a] == prev[a] && r[b] == prev[b]);
            } else if b == p {
                assert(r[a] == prev[a]);
            } else if a < p {
                assert(r[a] == prev[a] && r[b] == prev[b - 1]);
            } else if a == p {
                assert(r[b] == prev[b - 1]);
                assert(keys[prev[p] as int] >= keys[prev[b - 1] as int]);
            } else {
                assert(r[a] == prev[a - 1] && r[b] == prev[b - 1]);
            }
        }
        assert forall|a: int, b: int| 0 <= a < r.len() && 0 <= b < r.len() && a != b
            implies r[a] != r[b] by {
            if a != p && b != p {
                let a1 = if a < p { a } else { a - 1 };
                let b1 = if b < p { b } else { b - 1 };
                assert(r[a] == prev[a1] && r[b] == prev[b1]);
            }
        }
    }
}

/// The indices of `keys`, largest key first, equal keys in their order.
pub fn order_by_key_desc(keys: &Vec<i128>) -> (r: Vec<usize>)
    ensures
        r@ == desc_order(keys@, keys@.len()),
        keys_non_increasing(r@, keys@),
        indices_below(r@, keys@.len()),
        r@.len() == keys@.len(),
{
    let mut order: Vec<usize> = Vec::new();
    let n = keys.len();
    for i in 0..n
        invariant
            n == keys@.len(),
            order@ == desc_order(keys@, i as nat),
    {
        proof {
            lemma_desc_order(keys@, i as nat);
        }
        let mut p: usize = 0;
        while p < order.len() && keys[order[p]] >= keys[i]
            invariant
                i < n == keys@.len(),
                order@ == desc_order(keys@, i as nat),
                order@.len() == i,
                indices_below(order@, i as nat),
                p <= order@.len(),
                forall|j: int| 0 <= j < p ==> keys@[order@[j] as int] >= keys@[i as int],
            decreases order@.len() - p,
        {
            p = p + 1;
        }
        proof {
            lemma_insert_at(order@, i, keys@, p as int);
        }
        order.insert(p, i);
    }
    proof {
        lemma_desc_order(keys@, n as nat);
    }
    order
}

} // verus!
