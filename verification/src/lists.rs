//! Facts about filtered sequences that several modules lean on.

use vstd::prelude::*;

verus! {

/// Filtering one element more.
pub proof fn filter_push<T>(s: Seq<T>, x: T, p: spec_fn(T) -> bool)
    ensures
        s.push(x).filter(p) == (if p(x) {
            s.filter(p).push(x)
        } else {
            s.filter(p)
        }),
{
    reveal(Seq::filter);
    assert(s.push(x).drop_last() =~= s);
}

/// Nothing is left of nothing.
pub proof fn filter_empty<T>(p: spec_fn(T) -> bool)
    ensures
        Seq::<T>::empty().filter(p) == Seq::<T>::empty(),
{
    reveal(Seq::filter);
}

/// What stands in a filtered sequence.
pub proof fn filter_holds<T>(s: Seq<T>, p: spec_fn(T) -> bool, x: T)
    ensures
        s.filter(p).contains(x) <==> s.contains(x) && p(x),
{
    if s.filter(p).contains(x) {
        s.lemma_filter_contains_rev(p, x);
        let i = choose|i: int| 0 <= i < s.filter(p).len() && s.filter(p)[i] == x;
        s.lemma_filter_pred(p, i);
    }
    if s.contains(x) && p(x) {
        let i = choose|i: int| 0 <= i < s.len() && s[i] == x;
        s.lemma_filter_contains(p, i);
    }
}

/// A sequence without repetitions has none after filtering.
pub proof fn filter_distinct<T>(s: Seq<T>, p: spec_fn(T) -> bool)
    requires
        s.no_duplicates(),
    ensures
        s.filter(p).no_duplicates(),
    decreases s.len(),
{
    if s.len() > 0 {
        let front = s.drop_last();
        assert(front.no_duplicates());
        filter_distinct(front, p);
        assert(s =~= front.push(s.last()));
        filter_push(front, s.last(), p);
        if p(s.last()) {
            filter_holds(front, p, s.last());
            if front.filter(p).contains(s.last()) {
                let k = choose|k: int| 0 <= k < front.len() && front[k] == s.last();
                assert(s[k] == s[s.len() - 1]);
            }
        }
    } else {
        reveal(Seq::filter);
    }
}

/// What a filter keeps stands in the order it stood in.
pub proof fn filter_keeps_order<T>(
    s: Seq<T>,
    p: spec_fn(T) -> bool,
    rank: spec_fn(T) -> int,
    i: int,
    j: int,
)
    requires
        forall|a: int, b: int| 0 <= a < b < s.len() ==> rank(#[trigger] s[a]) < rank(#[trigger] s[b]),
        0 <= i < j < s.filter(p).len(),
    ensures
        rank(s.filter(p)[i]) < rank(s.filter(p)[j]),
    decreases s.len(),
{
    if s.len() > 0 {
        let front = s.drop_last();
        assert(s =~= front.push(s.last()));
        filter_push(front, s.last(), p);
        let kept = front.filter(p);
        assert forall|a: int, b: int| 0 <= a < b < front.len() implies rank(#[trigger] front[a])
            < rank(#[trigger] front[b]) by {
            assert(front[a] == s[a] && front[b] == s[b]);
        }
        if j < kept.len() {
            filter_keeps_order(front, p, rank, i, j);
        } else {
            assert(kept.contains(kept[i]));
            filter_holds(front, p, kept[i]);
            let k = choose|k: int| 0 <= k < front.len() && front[k] == kept[i];
            assert(s[k] == kept[i]);
            assert(s[s.len() - 1] == s.last());
        }
    } else {
        assert(s =~= Seq::empty());
        filter_empty(p);
    }
}

} // verus!
