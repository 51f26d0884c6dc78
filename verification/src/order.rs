//! Putting the entries of a menu in order.
//!
//! Entries are numbered from zero. An order of them is a sequence that holds
//! each number once. It is built by putting the entries in their places one
//! after the other, each behind all those that need not come after it.

use vstd::prelude::*;
use crate::text::{lemma_precedes_is_an_order, precedes, text_precedes};

verus! {

/// Where entry `x` goes in `order`: right behind the last entry that need
/// not come after `x`.
pub open spec fn place(order: Seq<usize>, x: int, after: spec_fn(int, int) -> bool) -> nat
    decreases order.len(),
{
    if order.len() > 0 && after(order.last() as int, x) {
        place(order.drop_last(), x, after)
    } else {
        order.len()
    }
}

/// The first `n` entries in order, where `after(a, b)` says that entry `a`
/// must come after entry `b`.
pub open spec fn arranged(n: nat, after: spec_fn(int, int) -> bool) -> Seq<usize>
    decreases n,
{
    if n == 0 {
        Seq::empty()
    } else {
        let before = arranged((n - 1) as nat, after);
        before.insert(place(before, n - 1, after) as int, (n - 1) as usize)
    }
}

/// Whether `after` can order entries: of two entries at most one must come
/// after the other, and where neither the first must come after the second
/// nor the second after the third, the first need not come after the third.
pub open spec fn orders(after: spec_fn(int, int) -> bool) -> bool {
    &&& forall|a: int, b: int| #[trigger] after(a, b) ==> !after(b, a)
    &&& forall|a: int, b: int, c: int|
        !#[trigger] after(a, b) && !#[trigger] after(b, c) ==> !after(a, c)
}

/// Whether `order` holds each of the first `n` entries once, none before an
/// entry that it must come after, and entries that are free to stand either
/// way round by their numbers.
pub open spec fn in_order(order: Seq<usize>, n: nat, after: spec_fn(int, int) -> bool) -> bool {
    &&& order.len() == n
    &&& forall|i: int| 0 <= i < n ==> #[trigger] order[i] < n
    &&& forall|i: int, j: int| 0 <= i < j < n ==> #[trigger] order[i] != #[trigger] order[j]
    &&& forall|i: int, j: int|
        0 <= i < j < n ==> !after(#[trigger] order[i] as int, #[trigger] order[j] as int)
    &&& forall|i: int, j: int|
        0 <= i < j < n && !after(#[trigger] order[j] as int, #[trigger] order[i] as int)
            ==> order[i] < order[j]
}

proof fn lemma_place(order: Seq<usize>, x: int, after: spec_fn(int, int) -> bool)
    ensures
        place(order, x, after) <= order.len(),
        forall|k: int|
            place(order, x, after) <= k < order.len() ==> after(#[trigger] order[k] as int, x),
        place(order, x, after) > 0 ==> !after(order[place(order, x, after) - 1] as int, x),
    decreases order.len(),
{
    if order.len() > 0 && after(order.last() as int, x) {
        lemma_place(order.drop_last(), x, after);
        let p = place(order, x, after);
        assert forall|k: int| p <= k < order.len() implies after(#[trigger] order[k] as int, x) by {
            if k < order.len() - 1 {
                assert(order.drop_last()[k] == order[k]);
            }
        }
        if p > 0 {
            assert(order.drop_last()[p - 1] == order[p - 1]);
        }
    }
}

/// Putting entries in their places one after the other gives an order in
/// which nothing stands before what it must come after, and in which
/// entries that are free to stand either way round keep to their numbers.
pub proof fn lemma_arranged_in_order(n: nat, after: spec_fn(int, int) -> bool)
    requires
        n <= usize::MAX,
        orders(after),
    ensures
        in_order(arranged(n, after), n, after),
    decreases n,
{
    if n > 0 {
        let before = arranged((n - 1) as nat, after);
        let x = (n - 1) as int;
        let p = place(before, x, after) as int;
        let order = arranged(n, after);
        lemma_arranged_in_order((n - 1) as nat, after);
        lemma_place(before, x, after);
        before.insert_ensures(p, x as usize);
        assert forall|i: int| 0 <= i < n implies #[trigger] order[i] < n by {
            if i < p {
                assert(order[i] == before[i]);
            } else if i > p {
                assert(order[i] == before[i - 1]);
            }
        }
        assert forall|i: int, j: int| 0 <= i < j < n implies {
            &&& #[trigger] order[i] != #[trigger] order[j]
            &&& !after(order[i] as int, order[j] as int)
            &&& (!after(order[j] as int, order[i] as int) ==> order[i] < order[j])
        } by {
            let bi = if i < p {
                i
            } else {
                i - 1
            };
            let bj = if j < p {
                j
            } else {
                j - 1
            };
            if i != p {
                assert(order[i] == before[bi]);
                assert(before[bi] < n - 1);
            }
            if j != p {
                assert(order[j] == before[bj]);
                assert(before[bj] < n - 1);
            }
            if j == p {
                assert(!after(before[p - 1] as int, x));
                if i < p - 1 {
                    assert(!after(before[i] as int, before[p - 1] as int));
                }
                assert(!after(before[i] as int, x));
            } else if i == p {
                assert(after(before[bj] as int, x));
            } else {
                assert(bi < bj);
            }
        }
    }
}

/// The place of a task in a menu as a number: a task without a rating
/// stands before every task that has one.
pub open spec fn rank_key(rank: Option<i32>) -> int {
    match rank {
        None => i32::MIN - 1,
        Some(r) => r as int,
    }
}

/// Entry `a` must come after entry `b` where its rank is the greater.
pub open spec fn rank_after(ranks: Seq<Option<i32>>) -> spec_fn(int, int) -> bool {
    |a: int, b: int| rank_key(ranks[a]) > rank_key(ranks[b])
}

fn key_of(rank: Option<i32>) -> (k: i64)
    ensures
        k == rank_key(rank),
{
    match rank {
        None => -2147483649i64,
        Some(r) => r as i64,
    }
}

/// The order of the entries with the ranks `ranks`: by rising rank, an entry
/// without a rank first, and entries of one rank by their numbers.
pub fn rank_order(ranks: &Vec<Option<i32>>) -> (order: Vec<usize>)
    ensures
        order@ == arranged(ranks@.len(), rank_after(ranks@)),
        in_order(order@, ranks@.len(), rank_after(ranks@)),
{
    let n = ranks.len();
    let ghost after = rank_after(ranks@);
    let mut order: Vec<usize> = Vec::new();
    let mut m: usize = 0;
    while m < n
        invariant
            m <= n,
            n == ranks.len(),
            after == rank_after(ranks@),
            order@ == arranged(m as nat, after),
            order@.len() == m,
            forall|k: int| 0 <= k < m ==> #[trigger] order@[k] < m,
        decreases n - m,
    {
        let key = key_of(ranks[m]);
        let mut p: usize = m;
        assert(order@.take(m as int) =~= order@);
        while p > 0 && key_of(ranks[order[p - 1]]) > key
            invariant
                p <= m < n,
                n == ranks.len(),
                order@.len() == m,
                key == rank_key(ranks@[m as int]),
                after == rank_after(ranks@),
                forall|k: int| 0 <= k < m ==> #[trigger] order@[k] < m,
                place(order@, m as int, after) == place(order@.take(p as int), m as int, after),
            decreases p,
        {
            proof {
                assert(order@.take(p as int).last() == order@[p - 1]);
                assert(order@.take(p as int).drop_last() =~= order@.take(p - 1));
            }
            p = p - 1;
        }
        proof {
            if p > 0 {
                assert(order@.take(p as int).last() == order@[p - 1]);
            }
            order@.insert_ensures(p as int, m);
        }
        let ghost before = order@;
        order.insert(p, m);
        proof {
            assert forall|k: int| 0 <= k < m + 1 implies #[trigger] order@[k] < m + 1 by {
                if k < p {
                    assert(order@[k] == before[k]);
                } else if k > p {
                    assert(order@[k] == before[k - 1]);
                }
            }
        }
        m = m + 1;
    }
    proof {
        lemma_rank_orders(ranks@);
        lemma_arranged_in_order(n as nat, after);
    }
    order
}

/// Ranks can order entries.
pub proof fn lemma_rank_orders(ranks: Seq<Option<i32>>)
    ensures
        orders(rank_after(ranks)),
{
}

/// The views of a sequence of rows of characters.
pub open spec fn rows(v: Seq<Vec<char>>) -> Seq<Seq<char>> {
    Seq::new(v.len(), |k: int| v[k]@)
}

/// Entry `a` must come after entry `b` where its label comes before the
/// label of `b` in the order of a dictionary: the later label goes first.
pub open spec fn label_after(labels: Seq<Seq<char>>) -> spec_fn(int, int) -> bool {
    |a: int, b: int| precedes(labels[a], labels[b])
}

/// Labels can order entries.
pub proof fn lemma_label_orders(labels: Seq<Seq<char>>)
    ensures
        orders(label_after(labels)),
{
    let after = label_after(labels);
    assert forall|a: int, b: int| #[trigger] after(a, b) implies !after(b, a) by {
        lemma_precedes_is_an_order(labels[a], labels[b], labels[b]);
    }
    assert forall|a: int, b: int, c: int|
        !#[trigger] after(a, b) && !#[trigger] after(b, c) implies !after(a, c) by {
        lemma_precedes_is_an_order(labels[a], labels[b], labels[c]);
    }
}

/// The order of the entries with the labels `labels`: the label that comes
/// last in a dictionary first, and entries of one label by their numbers.
pub fn label_order(labels: &Vec<Vec<char>>) -> (order: Vec<usize>)
    ensures
        order@ == arranged(labels@.len(), label_after(rows(labels@))),
        in_order(order@, labels@.len(), label_after(rows(labels@))),
{
    let n = labels.len();
    let ghost after = label_after(rows(labels@));
    let mut order: Vec<usize> = Vec::new();
    let mut m: usize = 0;
    while m < n
        invariant
            m <= n,
            n == labels.len(),
            after == label_after(rows(labels@)),
            order@ == arranged(m as nat, after),
            order@.len() == m,
            forall|k: int| 0 <= k < m ==> #[trigger] order@[k] < m,
        decreases n - m,
    {
        let mut p: usize = m;
        assert(order@.take(m as int) =~= order@);
        while p > 0 && text_precedes(&labels[order[p - 1]], &labels[m])
            invariant
                p <= m < n,
                n == labels.len(),
                order@.len() == m,
                after == label_after(rows(labels@)),
                forall|k: int| 0 <= k < m ==> #[trigger] order@[k] < m,
                place(order@, m as int, after) == place(order@.take(p as int), m as int, after),
            decreases p,
        {
            proof {
                assert(order@.take(p as int).last() == order@[p - 1]);
                assert(order@.take(p as int).drop_last() =~= order@.take(p - 1));
            }
            p = p - 1;
        }
        proof {
            if p > 0 {
                assert(order@.take(p as int).last() == order@[p - 1]);
            }
            order@.insert_ensures(p as int, m);
        }
        let ghost before = order@;
        order.insert(p, m);
        proof {
            assert forall|k: int| 0 <= k < m + 1 implies #[trigger] order@[k] < m + 1 by {
                if k < p {
                    assert(order@[k] == before[k]);
                } else if k > p {
                    assert(order@[k] == before[k - 1]);
                }
            }
        }
        m = m + 1;
    }
    proof {
        lemma_label_orders(rows(labels@));
        lemma_arranged_in_order(n as nat, after);
    }
    order
}

} // verus!
