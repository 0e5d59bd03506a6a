//! Stable sorting, as an order of positions that can be applied to any list.

use crate::text::{le, text_le, text_le_total, text_le_transitive};
use vstd::prelude::*;

verus! {

/// Each position below `n` occurs once.
pub open spec fn is_permutation(order: Seq<usize>, n: int) -> bool {
    &&& order.len() == n
    &&& order.no_duplicates()
    &&& forall|i: int| 0 <= i < order.len() ==> (#[trigger] order[i]) < n
}

/// `order` lists positions by their key, equal keys in the order in which they
/// stand.
pub open spec fn orders_texts(keys: Seq<Seq<char>>, order: Seq<usize>) -> bool {
    &&& is_permutation(order, keys.len() as int)
    &&& forall|i: int, j: int|
        0 <= i < j < order.len() ==> text_before(keys, #[trigger] order[i], #[trigger] order[j])
}

/// Position `a` comes before position `b`: by key, and by position where the keys
/// are equal.
pub open spec fn text_before(keys: Seq<Seq<char>>, a: usize, b: usize) -> bool {
    text_le(keys[a as int], keys[b as int]) && (keys[a as int] == keys[b as int] ==> a < b)
}

/// `order` lists positions by their rank, equal ranks in the order in which they
/// stand.
pub open spec fn orders_ranks(ranks: Seq<u8>, order: Seq<usize>) -> bool {
    &&& is_permutation(order, ranks.len() as int)
    &&& forall|i: int, j: int|
        0 <= i < j < order.len() ==> rank_before(ranks, #[trigger] order[i], #[trigger] order[j])
}

/// Position `a` comes before position `b`: by rank, and by position where the ranks
/// are equal.
pub open spec fn rank_before(ranks: Seq<u8>, a: usize, b: usize) -> bool {
    ranks[a as int] < ranks[b as int] || (ranks[a as int] == ranks[b as int] && a < b)
}

/// Along an order by key the keys never fall, and equal keys stay in the order in which
/// they stood.
pub proof fn keys_never_fall(keys: Seq<Seq<char>>, order: Seq<usize>, i: int, j: int)
    requires
        orders_texts(keys, order),
        0 <= i < j < keys.len(),
    ensures
        order.len() == keys.len(),
        order[i] != order[j],
        text_le(keys[order[i] as int], keys[order[j] as int]),
        keys[order[i] as int] == keys[order[j] as int] ==> order[i] < order[j],
{
    assert(text_before(keys, order[i], order[j]));
}

/// Along an order by rank the ranks never fall, and equal ranks stay in the order in which
/// they stood.
pub proof fn ranks_never_fall(ranks: Seq<u8>, order: Seq<usize>, i: int, j: int)
    requires
        orders_ranks(ranks, order),
        0 <= i < j < ranks.len(),
    ensures
        order.len() == ranks.len(),
        order[i] != order[j],
        ranks[order[i] as int] <= ranks[order[j] as int],
        ranks[order[i] as int] == ranks[order[j] as int] ==> order[i] < order[j],
{
    assert(rank_before(ranks, order[i], order[j]));
}

/// Inserting the next position somewhere keeps a list of positions a permutation.
proof fn insertion_extends_permutation(order: Seq<usize>, k: usize, at: int)
    requires
        is_permutation(order, k as int),
        0 <= at <= order.len(),
    ensures
        is_permutation(order.insert(at, k), k + 1),
{
    let longer = order.insert(at, k);
    assert forall|i: int| 0 <= i < longer.len() implies (#[trigger] longer[i]) < k + 1 by {
        if i < at {
            assert(longer[i] == order[i]);
        } else if i > at {
            assert(longer[i] == order[i - 1]);
        }
    }
    assert forall|i: int, j: int|
        0 <= i < longer.len() && 0 <= j < longer.len() && i != j implies longer[i] != longer[j] by {
        let a = if i < at {
            i
        } else {
            i - 1
        };
        let b = if j < at {
            j
        } else {
            j - 1
        };
        if i == at {
            assert(longer[j] == order[b]);
            assert(order[b] < k);
        } else if j == at {
            assert(longer[i] == order[a]);
            assert(order[a] < k);
        } else {
            assert(longer[i] == order[a]);
            assert(longer[j] == order[b]);
        }
    }
}

/// The order of texts.
pub fn order_by_text(keys: &Vec<&str>) -> (r: Vec<usize>)
    ensures
        orders_texts(keys@.map_values(|key: &str| key@), r@),
{
    let ghost all = keys@.map_values(|key: &str| key@);
    let mut order: Vec<usize> = Vec::new();
    let mut k: usize = 0;
    while k < keys.len()
        invariant
            k <= keys@.len(),
            all == keys@.map_values(|key: &str| key@),
            is_permutation(order@, k as int),
            forall|i: int, j: int|
                0 <= i < j < order@.len() ==> text_before(
                    all,
                    #[trigger] order@[i],
                    #[trigger] order@[j],
                ),
        decreases keys@.len() - k,
    {
        let mut at: usize = order.len();
        while at > 0 && !le(keys[order[at - 1]], keys[k])
            invariant
                at <= order@.len(),
                k < keys@.len(),
                all == keys@.map_values(|key: &str| key@),
                is_permutation(order@, k as int),
                forall|q: int|
                    at <= q < order@.len() ==> !text_le(
                        all[(#[trigger] order@[q]) as int],
                        all[k as int],
                    ),
            decreases at,
        {
            at = at - 1;
        }
        let ghost before = order@;
        proof {
            insertion_extends_permutation(before, k, at as int);
            insertion_keeps_text_order(all, before, k, at as int);
        }
        order.insert(at, k);
        k = k + 1;
    }
    order
}

proof fn insertion_keeps_text_order(all: Seq<Seq<char>>, order: Seq<usize>, k: usize, at: int)
    requires
        k < all.len(),
        is_permutation(order, k as int),
        0 <= at <= order.len(),
        forall|i: int, j: int|
            0 <= i < j < order.len() ==> text_before(all, #[trigger] order[i], #[trigger] order[j]),
        at > 0 ==> text_le(all[order[at - 1] as int], all[k as int]),
        forall|q: int|
            at <= q < order.len() ==> !text_le(all[(#[trigger] order[q]) as int], all[k as int]),
    ensures
        forall|i: int, j: int|
            0 <= i < j < order.len() + 1 ==> text_before(
                all,
                #[trigger] order.insert(at, k)[i],
                #[trigger] order.insert(at, k)[j],
            ),
{
    let longer = order.insert(at, k);
    assert forall|i: int, j: int| 0 <= i < j < longer.len() implies text_before(
        all,
        #[trigger] longer[i],
        #[trigger] longer[j],
    ) by {
        if j < at {
            assert(longer[i] == order[i] && longer[j] == order[j]);
        } else if j == at {
            assert(longer[i] == order[i]);
            if i < at - 1 {
                assert(text_before(all, order[i], order[at - 1]));
                text_le_transitive(
                    all[order[i] as int],
                    all[order[at - 1] as int],
                    all[k as int],
                );
            }
            assert(order[i] < k);
        } else if i < at {
            assert(longer[i] == order[i] && longer[j] == order[j - 1]);
        } else if i == at {
            assert(longer[j] == order[j - 1]);
            text_le_total(all[order[j - 1] as int], all[k as int]);
        } else {
            assert(longer[i] == order[i - 1] && longer[j] == order[j - 1]);
        }
    }
}

/// The order of ranks.
pub fn order_by_rank(ranks: &Vec<u8>) -> (r: Vec<usize>)
    ensures
        orders_ranks(ranks@, r@),
{
    let mut order: Vec<usize> = Vec::new();
    let mut k: usize = 0;
    while k < ranks.len()
        invariant
            k <= ranks@.len(),
            is_permutation(order@, k as int),
            forall|i: int, j: int|
                0 <= i < j < order@.len() ==> rank_before(
                    ranks@,
                    #[trigger] order@[i],
                    #[trigger] order@[j],
                ),
        decreases ranks@.len() - k,
    {
        let mut at: usize = order.len();
        while at > 0 && ranks[order[at - 1]] > ranks[k]
            invariant
                at <= order@.len(),
                k < ranks@.len(),
                is_permutation(order@, k as int),
                forall|q: int|
                    at <= q < order@.len() ==> ranks@[(#[trigger] order@[q]) as int]
                        > ranks@[k as int],
            decreases at,
        {
            at = at - 1;
        }
        let ghost before = order@;
        proof {
            insertion_extends_permutation(before, k, at as int);
            insertion_keeps_rank_order(ranks@, before, k, at as int);
        }
        order.insert(at, k);
        k = k + 1;
    }
    order
}

proof fn insertion_keeps_rank_order(ranks: Seq<u8>, order: Seq<usize>, k: usize, at: int)
    requires
        k < ranks.len(),
        is_permutation(order, k as int),
        0 <= at <= order.len(),
        forall|i: int, j: int|
            0 <= i < j < order.len() ==> rank_before(ranks, #[trigger] order[i], #[trigger] order[j]),
        at > 0 ==> ranks[order[at - 1] as int] <= ranks[k as int],
        forall|q: int|
            at <= q < order.len() ==> ranks[(#[trigger] order[q]) as int] > ranks[k as int],
    ensures
        forall|i: int, j: int|
            0 <= i < j < order.len() + 1 ==> rank_before(
                ranks,
                #[trigger] order.insert(at, k)[i],
                #[trigger] order.insert(at, k)[j],
            ),
{
    let longer = order.insert(at, k);
    assert forall|i: int, j: int| 0 <= i < j < longer.len() implies rank_before(
        ranks,
        #[trigger] longer[i],
        #[trigger] longer[j],
    ) by {
        if j < at {
            assert(longer[i] == order[i] && longer[j] == order[j]);
        } else if j == at {
            assert(longer[i] == order[i]);
            if i < at - 1 {
                assert(rank_before(ranks, order[i], order[at - 1]));
            }
            assert(order[i] < k);
        } else if i < at {
            assert(longer[i] == order[i] && longer[j] == order[j - 1]);
        } else if i == at {
            assert(longer[j] == order[j - 1]);
        } else {
            assert(longer[i] == order[i - 1] && longer[j] == order[j - 1]);
        }
    }
}

/// The elements at the positions of an order.
pub open spec fn arranged<T>(items: Seq<T>, order: Seq<usize>) -> Seq<T> {
    Seq::new(order.len(), |i: int| items[order[i] as int])
}

/// Puts references into an order.
pub fn arrange<'a, T>(items: &Vec<&'a T>, order: &Vec<usize>) -> (r: Vec<&'a T>)
    requires
        is_permutation(order@, items@.len() as int),
    ensures
        r@ == arranged(items@, order@),
{
    let mut out: Vec<&'a T> = Vec::new();
    let mut i: usize = 0;
    while i < order.len()
        invariant
            i <= order@.len(),
            is_permutation(order@, items@.len() as int),
            out@.len() == i,
            forall|j: int| 0 <= j < i ==> #[trigger] out@[j] == items@[order@[j] as int],
        decreases order@.len() - i,
    {
        out.push(items[order[i]]);
        i = i + 1;
    }
    assert(out@ =~= arranged(items@, order@));
    out
}

/// There is one stable order of texts.
pub proof fn text_order_is_unique(keys: Seq<Seq<char>>, a: Seq<usize>, b: Seq<usize>)
    requires
        orders_texts(keys, a),
        orders_texts(keys, b),
    ensures
        a == b,
{
    let n = keys.len() as int;
    assert forall|i: int| 0 <= i < n implies a[i] == b[i] by {
        same_prefix(keys, a, b, i + 1);
    }
    assert(a =~= b);
}

proof fn same_prefix(keys: Seq<Seq<char>>, a: Seq<usize>, b: Seq<usize>, m: int)
    requires
        orders_texts(keys, a),
        orders_texts(keys, b),
        0 <= m <= keys.len(),
    ensures
        forall|i: int| 0 <= i < m ==> a[i] == b[i],
    decreases m,
{
    if m > 0 {
        same_prefix(keys, a, b, m - 1);
        let p = m - 1;
        if a[p] != b[p] {
            let x = position_of(a, keys.len() as int, b[p]);
            let y = position_of(b, keys.len() as int, a[p]);
            if x < p {
                assert(a[x] == b[x]);
                assert(b[x] == b[p]);
            }
            if y < p {
                assert(a[y] == b[y]);
                assert(a[y] == a[p]);
            }
            assert(x != p && y != p);
            assert(text_before(keys, a[p], a[x]));
            assert(text_before(keys, b[p], b[y]));
            crate::text::text_le_antisymmetric(keys[a[p] as int], keys[b[p] as int]);
        }
    }
}

/// Where a permutation holds a position.
proof fn position_of(order: Seq<usize>, n: int, value: usize) -> (at: int)
    requires
        is_permutation(order, n),
        value < n,
    ensures
        0 <= at < order.len(),
        order[at] == value,
{
    permutation_is_onto(order, n, value);
    choose|at: int| 0 <= at < order.len() && order[at] == value
}

/// A permutation of the positions below `n` holds each of them.
pub proof fn permutation_is_onto(order: Seq<usize>, n: int, value: usize)
    requires
        is_permutation(order, n),
        value < n,
    ensures
        exists|at: int| 0 <= at < order.len() && #[trigger] order[at] == value,
{
    if forall|at: int| 0 <= at < order.len() ==> #[trigger] order[at] != value {
        let held = order.to_set();
        order.unique_seq_to_set();
        let room = vstd::set_lib::set_int_range(0, n).remove(value as int);
        vstd::set_lib::lemma_int_range(0, n);
        let mapped = held.map(|p: usize| p as int);
        vstd::set_lib::lemma_map_size(held, mapped, |p: usize| p as int);
        assert(mapped.subset_of(room)) by {
            assert forall|q: int| mapped.contains(q) implies room.contains(q) by {
                let p = choose|p: usize| held.contains(p) && q == p as int;
                let at = choose|at: int| 0 <= at < order.len() && order[at] == p;
                assert(order[at] < n && order[at] != value);
            }
        }
        vstd::set_lib::lemma_len_subset(mapped, room);
    }
}

/// Putting items into an order neither adds nor loses any.
pub proof fn arranging_keeps_items<T>(items: Seq<T>, order: Seq<usize>)
    requires
        is_permutation(order, items.len() as int),
    ensures
        arranged(items, order).to_multiset() == items.to_multiset(),
    decreases items.len(),
{
    broadcast use vstd::multiset::group_multiset_axioms;

    if items.len() == 0 {
        assert(arranged(items, order) =~= items);
    } else {
        let n = items.len() - 1;
        let last = items[n];
        let shorter = items.drop_last();
        permutation_fits(order);
        let k = position_of(order, n + 1, n as usize);
        let rest = order.remove(k);
        assert(is_permutation(rest, n)) by {
            assert forall|i: int| 0 <= i < rest.len() implies (#[trigger] rest[i]) < n by {
                let from = if i < k {
                    i
                } else {
                    i + 1
                };
                assert(rest[i] == order[from]);
                assert(order[from] != order[k]);
            }
            assert forall|i: int, j: int|
                0 <= i < rest.len() && 0 <= j < rest.len() && i != j implies rest[i] != rest[j] by {
                let a = if i < k {
                    i
                } else {
                    i + 1
                };
                let b = if j < k {
                    j
                } else {
                    j + 1
                };
                assert(rest[i] == order[a] && rest[j] == order[b]);
            }
        }
        arranging_keeps_items(shorter, rest);
        assert(arranged(items, order).remove(k) =~= arranged(shorter, rest)) by {
            assert forall|i: int| 0 <= i < rest.len() implies #[trigger] arranged(items, order).remove(
                k,
            )[i] == arranged(shorter, rest)[i] by {
                assert(rest[i] < n);
            }
        }
        let whole = arranged(items, order);
        assert(whole[k] == last);
        vstd::seq_lib::to_multiset_remove(whole, k);
        vstd::seq_lib::to_multiset_build(shorter, last);
        assert(shorter.push(last) =~= items);
        whole.to_multiset_ensures();
        assert(whole.contains(last));
        assert(whole.to_multiset() =~= whole.to_multiset().remove(last).insert(last));
    }
}

/// Sorted texts depend on the texts alone, not on the order in which they came.
pub proof fn sorted_texts_ignore_order(
    a: Seq<Seq<char>>,
    b: Seq<Seq<char>>,
    a_order: Seq<usize>,
    b_order: Seq<usize>,
)
    requires
        a.to_multiset() == b.to_multiset(),
        orders_texts(a, a_order),
        orders_texts(b, b_order),
    ensures
        arranged(a, a_order) == arranged(b, b_order),
{
    let leq = |x: Seq<char>, y: Seq<char>| text_le(x, y);
    let x = arranged(a, a_order);
    let y = arranged(b, b_order);
    arranging_keeps_items(a, a_order);
    arranging_keeps_items(b, b_order);
    assert(vstd::relations::sorted_by(x, leq)) by {
        assert forall|i: int, j: int| 0 <= i < j < x.len() implies #[trigger] leq(x[i], x[j]) by {
            assert(text_before(a, a_order[i], a_order[j]));
        }
    }
    assert(vstd::relations::sorted_by(y, leq)) by {
        assert forall|i: int, j: int| 0 <= i < j < y.len() implies #[trigger] leq(y[i], y[j]) by {
            assert(text_before(b, b_order[i], b_order[j]));
        }
    }
    assert(vstd::relations::total_ordering(leq)) by {
        assert forall|p: Seq<char>| #[trigger] leq(p, p) by {
            text_le_total(p, p);
        }
        assert forall|p: Seq<char>, q: Seq<char>| #[trigger] leq(p, q) && #[trigger] leq(q, p) implies p
            == q by {
            crate::text::text_le_antisymmetric(p, q);
        }
        assert forall|p: Seq<char>, q: Seq<char>, r: Seq<char>| #[trigger]
            leq(p, q) && #[trigger] leq(q, r) implies leq(p, r) by {
            text_le_transitive(p, q, r);
        }
        assert forall|p: Seq<char>, q: Seq<char>| #[trigger] leq(p, q) || #[trigger] leq(q, p) by {
            text_le_total(p, q);
        }
    }
    vstd::seq_lib::lemma_sorted_unique(x, y, leq);
}

/// A permutation holds no more positions than there are.
pub proof fn permutation_fits(order: Seq<usize>)
    requires
        is_permutation(order, order.len() as int),
    ensures
        order.len() <= usize::MAX + 1,
{
    order.unique_seq_to_set();
    let mapped = order.to_set().map(|p: usize| p as int);
    vstd::set_lib::lemma_map_size(order.to_set(), mapped, |p: usize| p as int);
    vstd::set_lib::lemma_int_range(0, usize::MAX + 1);
    let room = vstd::set_lib::set_int_range(0, usize::MAX + 1);
    assert(mapped.subset_of(room));
    vstd::set_lib::lemma_len_subset(mapped, room);
}

} // verus!
