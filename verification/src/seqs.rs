//! Facts about filtering sequences.

use vstd::prelude::*;

verus! {

/// Every element that a filter keeps stands in the sequence and passes the filter.
pub proof fn lemma_filter_member<A>(s: Seq<A>, keep: spec_fn(A) -> bool, i: int)
    requires
        0 <= i < s.filter(keep).len(),
    ensures
        keep(s.filter(keep)[i]),
        s.contains(s.filter(keep)[i]),
    decreases s.len(),
{
    reveal(Seq::filter);
    let init = s.drop_last();
    if keep(s.last()) && i == s.filter(keep).len() - 1 {
        assert(s[s.len() - 1] == s.filter(keep)[i]);
    } else {
        lemma_filter_member(init, keep, i);
        let k = choose|k: int| 0 <= k < init.len() && init[k] == init.filter(keep)[i];
        assert(s[k] == s.filter(keep)[i]);
    }
}

/// A filter keeps every element that passes it.
pub proof fn lemma_filter_keeps<A>(s: Seq<A>, keep: spec_fn(A) -> bool, k: int)
    requires
        0 <= k < s.len(),
        keep(s[k]),
    ensures
        s.filter(keep).contains(s[k]),
    decreases s.len(),
{
    reveal(Seq::filter);
    let init = s.drop_last();
    if k == s.len() - 1 {
        assert(s.filter(keep)[s.filter(keep).len() - 1] == s[k]);
    } else {
        lemma_filter_keeps(init, keep, k);
        let i = choose|i: int|
            0 <= i < init.filter(keep).len() && init.filter(keep)[i] == init[k];
        assert(s.filter(keep)[i] == s[k]);
    }
}

/// An element of the sequence is kept exactly if it passes the filter.
pub proof fn lemma_filter_contains<A>(s: Seq<A>, keep: spec_fn(A) -> bool, k: int)
    requires
        0 <= k < s.len(),
    ensures
        s.filter(keep).contains(s[k]) <==> keep(s[k]),
{
    if keep(s[k]) {
        lemma_filter_keeps(s, keep, k);
    }
    if s.filter(keep).contains(s[k]) {
        let i = choose|i: int| 0 <= i < s.filter(keep).len() && s.filter(keep)[i] == s[k];
        lemma_filter_member(s, keep, i);
    }
}

/// Filtering a sequence with one element more.
pub proof fn lemma_filter_push<A>(s: Seq<A>, keep: spec_fn(A) -> bool, e: A)
    ensures
        s.push(e).filter(keep) == if keep(e) {
            s.filter(keep).push(e)
        } else {
            s.filter(keep)
        },
{
    reveal(Seq::filter);
    assert(s.push(e).drop_last() =~= s);
}

/// Filtering one more element of `s`.
pub proof fn lemma_filter_take<A>(s: Seq<A>, keep: spec_fn(A) -> bool, i: int)
    requires
        0 <= i < s.len(),
    ensures
        s.take(i + 1).filter(keep) == if keep(s[i]) {
            s.take(i).filter(keep).push(s[i])
        } else {
            s.take(i).filter(keep)
        },
{
    assert(s.take(i + 1) =~= s.take(i).push(s[i]));
    lemma_filter_push(s.take(i), keep, s[i]);
}

/// A filter that every element passes changes nothing.
pub proof fn lemma_filter_all<A>(s: Seq<A>, keep: spec_fn(A) -> bool)
    requires
        forall|i: int| 0 <= i < s.len() ==> keep(#[trigger] s[i]),
    ensures
        s.filter(keep) == s,
    decreases s.len(),
{
    reveal(Seq::filter);
    if s.len() > 0 {
        let init = s.drop_last();
        assert(forall|i: int| 0 <= i < init.len() ==> init[i] == s[i]);
        lemma_filter_all(init, keep);
        assert(keep(s[s.len() - 1]));
        assert(init.push(s.last()) =~= s);
    } else {
        assert(s.filter(keep) =~= s);
    }
}

/// Filtering nothing.
pub proof fn lemma_filter_empty<A>(s: Seq<A>, keep: spec_fn(A) -> bool)
    requires
        s.len() == 0,
    ensures
        s.filter(keep) == Seq::<A>::empty(),
{
    reveal(Seq::filter);
    assert(s.filter(keep) =~= Seq::empty());
}

} // verus!
