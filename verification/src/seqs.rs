//! Facts about sequences that the loops of the pages rest on.

use vstd::prelude::*;

verus! {

/// The filter of nothing is nothing.
pub proof fn filter_empty<T>(s: Seq<T>, keep: spec_fn(T) -> bool)
    ensures
        s.take(0).filter(keep) == Seq::<T>::empty(),
{
    reveal(Seq::filter);
    assert(s.take(0).filter(keep) =~= Seq::<T>::empty());
}

/// A filter keeps every occurrence of what it lets through and none of anything else.
pub proof fn filter_counts<T>(s: Seq<T>, keep: spec_fn(T) -> bool, x: T)
    ensures
        s.filter(keep).to_multiset().count(x) == (if keep(x) {
            s.to_multiset().count(x)
        } else {
            0
        }),
    decreases s.len(),
{
    broadcast use vstd::multiset::group_multiset_axioms;
    broadcast use vstd::seq_lib::group_to_multiset_ensures;

    reveal(Seq::filter);
    if s.len() > 0 {
        let earlier = s.drop_last();
        filter_counts(earlier, keep, x);
        assert(earlier.push(s.last()) =~= s);
        assert(earlier.push(s.last()).to_multiset() == earlier.to_multiset().insert(s.last()));
        if keep(s.last()) {
            let kept = earlier.filter(keep);
            assert(kept.push(s.last()).to_multiset() == kept.to_multiset().insert(s.last()));
        }
    }
}

/// One more element joins the filtered prefix exactly where it is kept.
pub proof fn filter_step<T>(s: Seq<T>, i: int, keep: spec_fn(T) -> bool)
    requires
        0 <= i < s.len(),
    ensures
        s.take(i + 1).filter(keep) == (if keep(s[i]) {
            s.take(i).filter(keep).push(s[i])
        } else {
            s.take(i).filter(keep)
        }),
{
    reveal(Seq::filter);
    let longer = s.take(i + 1);
    assert(longer.drop_last() =~= s.take(i));
    assert(longer.last() == s[i]);
}

/// The values behind a sequence of references.
pub open spec fn derefs<T>(s: Seq<&T>) -> Seq<T> {
    s.map_values(|t: &T| *t)
}

/// The first element for which something holds.
pub open spec fn first_where<T>(s: Seq<T>, holds: spec_fn(T) -> bool) -> Option<T>
    decreases s.len(),
{
    if s.len() == 0 {
        None
    } else if holds(s[0]) {
        Some(s[0])
    } else {
        first_where(s.subrange(1, s.len() as int), holds)
    }
}

/// The first element for which something holds is the one before which it holds of
/// none.
pub proof fn first_found<T>(s: Seq<T>, holds: spec_fn(T) -> bool, i: int)
    requires
        0 <= i < s.len(),
        holds(s[i]),
        forall|j: int| 0 <= j < i ==> !holds(#[trigger] s[j]),
    ensures
        first_where(s, holds) == Some(s[i]),
    decreases s.len(),
{
    if i > 0 {
        assert(!holds(s[0]));
        let rest = s.subrange(1, s.len() as int);
        assert forall|j: int| 0 <= j < i - 1 implies !holds(#[trigger] rest[j]) by {
            assert(rest[j] == s[j + 1]);
        }
        first_found(rest, holds, i - 1);
    }
}

/// There is no first element where it holds of none.
pub proof fn first_missing<T>(s: Seq<T>, holds: spec_fn(T) -> bool)
    requires
        forall|j: int| 0 <= j < s.len() ==> !holds(#[trigger] s[j]),
    ensures
        first_where(s, holds) is None,
    decreases s.len(),
{
    if s.len() > 0 {
        assert(!holds(s[0]));
        let rest = s.subrange(1, s.len() as int);
        assert forall|j: int| 0 <= j < rest.len() implies !holds(#[trigger] rest[j]) by {
            assert(rest[j] == s[j + 1]);
        }
        first_missing(rest, holds);
    }
}

/// What is found is an element for which it holds, and something is found wherever
/// there is one.
pub proof fn first_where_is_member<T>(s: Seq<T>, holds: spec_fn(T) -> bool)
    ensures
        first_where(s, holds) is Some ==> s.contains(first_where(s, holds)->0) && holds(
            first_where(s, holds)->0,
        ),
        first_where(s, holds) is None ==> forall|j: int| 0 <= j < s.len() ==> !holds(#[trigger] s[j]),
    decreases s.len(),
{
    if s.len() > 0 {
        if holds(s[0]) {
            assert(s.contains(s[0]));
        } else {
            let rest = s.subrange(1, s.len() as int);
            first_where_is_member(rest, holds);
            if first_where(rest, holds) is Some {
                let found = first_where(rest, holds)->0;
                let k = choose|k: int| 0 <= k < rest.len() && rest[k] == found;
                assert(s[k + 1] == found);
            } else {
                assert forall|j: int| 0 <= j < s.len() implies !holds(#[trigger] s[j]) by {
                    if j > 0 {
                        assert(rest[j - 1] == s[j]);
                    }
                }
            }
        }
    }
}

} // verus!
