//! The order in which reparented timelines are reported: by where they branch off, then
//! by their identifiers.

use vstd::prelude::*;
use vstd::relations::{sorted_by, total_ordering};

use crate::ids::{Lsn, TimelineId};

verus! {

/// A timeline, and where it branches off its ancestor.
#[derive(Debug, Clone, Copy, PartialEq, Eq, Structural)]
pub struct Branch {
    pub ancestor_lsn: Lsn,
    pub timeline_id: TimelineId,
}

/// Whether `a` is reported no later than `b`.
pub open spec fn precedes(a: Branch, b: Branch) -> bool {
    a.ancestor_lsn.value < b.ancestor_lsn.value || (a.ancestor_lsn.value == b.ancestor_lsn.value
        && a.timeline_id.value <= b.timeline_id.value)
}

/// `precedes`, as a relation.
pub open spec fn order() -> spec_fn(Branch, Branch) -> bool {
    |a: Branch, b: Branch| precedes(a, b)
}

/// The timelines of `branches`, in the order in which they are reported.
pub open spec fn in_order(branches: Seq<Branch>) -> Seq<TimelineId> {
    branches.sort_by(order()).map_values(|b: Branch| b.timeline_id)
}

/// Any two branches can be told apart or are the same, and the order chains.
pub proof fn lemma_order_is_total()
    ensures
        total_ordering(order()),
{
}

/// The report holds every branch as often as it was given, in order.
pub proof fn law_in_order(branches: Seq<Branch>)
    ensures
        sorted_by(branches.sort_by(order()), order()),
        branches.sort_by(order()).to_multiset() == branches.to_multiset(),
        in_order(branches).len() == branches.len(),
{
    lemma_order_is_total();
    branches.lemma_sort_by_ensures(order());
    vstd::seq_lib::to_multiset_len(branches);
    vstd::seq_lib::to_multiset_len(branches.sort_by(order()));
}

/// The report depends only on which branches there are, not on the order in which they
/// became known.
pub proof fn law_in_order_forgets_arrival(a: Seq<Branch>, b: Seq<Branch>)
    requires
        a.to_multiset() == b.to_multiset(),
    ensures
        in_order(a) == in_order(b),
{
    lemma_order_is_total();
    a.lemma_sort_by_ensures(order());
    b.lemma_sort_by_ensures(order());
    vstd::seq_lib::lemma_sorted_unique(a.sort_by(order()), b.sort_by(order()), order());
}

/// Whether the numbers of the branches rise: first where they branch off, and among those
/// that branch off at the same point their identifiers.
pub open spec fn is_rising(branches: Seq<Branch>) -> bool {
    forall|i: int, j: int|
        #![trigger branches[i], branches[j]]
        0 <= i < j < branches.len() ==> {
            &&& branches[i].ancestor_lsn.value <= branches[j].ancestor_lsn.value
            &&& branches[i].ancestor_lsn.value == branches[j].ancestor_lsn.value
                ==> branches[i].timeline_id.value <= branches[j].timeline_id.value
        }
}

/// The branches that a report is made of have rising numbers: an earlier branch point is
/// reported before a later one, and at one branch point a smaller identifier before a larger.
pub proof fn law_report_is_sorted_by_numbers(branches: Seq<Branch>)
    ensures
        forall|i: int, j: int|
            0 <= i < j < branches.len() ==> {
                let a = #[trigger] branches.sort_by(order())[i];
                let b = #[trigger] branches.sort_by(order())[j];
                &&& a.ancestor_lsn.value <= b.ancestor_lsn.value
                &&& a.ancestor_lsn.value == b.ancestor_lsn.value ==> a.timeline_id.value
                    <= b.timeline_id.value
            },
        branches.sort_by(order()).len() == branches.len(),
        in_order(branches) == branches.sort_by(order()).map_values(|b: Branch| b.timeline_id),
{
    law_in_order(branches);
    let sorted = branches.sort_by(order());
    let leq = order();
    assert forall|i: int, j: int| 0 <= i < j < branches.len() implies {
        let a = #[trigger] sorted[i];
        let b = #[trigger] sorted[j];
        &&& a.ancestor_lsn.value <= b.ancestor_lsn.value
        &&& a.ancestor_lsn.value == b.ancestor_lsn.value ==> a.timeline_id.value
            <= b.timeline_id.value
    } by {
        assert(leq(sorted[i], sorted[j]));
    }
}

/// There is only one report: whoever puts the same branches into an order in which their
/// numbers rise, by whatever means, reports the same timelines in the same order.
pub proof fn law_report_is_unique(branches: Seq<Branch>, arranged: Seq<Branch>)
    requires
        arranged.to_multiset() == branches.to_multiset(),
        is_rising(arranged),
    ensures
        in_order(branches) == arranged.map_values(|b: Branch| b.timeline_id),
{
    lemma_order_is_total();
    branches.lemma_sort_by_ensures(order());
    let leq = order();
    assert forall|i: int, j: int| 0 <= i < j < arranged.len() implies #[trigger] leq(
        arranged[i],
        arranged[j],
    ) by {
        assert(arranged[i].ancestor_lsn.value <= arranged[j].ancestor_lsn.value);
    }
    vstd::seq_lib::lemma_sorted_unique(arranged, branches.sort_by(order()), order());
}

/// Two branches are reported in the order of their branch points, and at the same point in
/// that of their identifiers.
pub proof fn law_report_of_two(a: Branch, b: Branch)
    requires
        a.ancestor_lsn.value < b.ancestor_lsn.value || (a.ancestor_lsn.value
            == b.ancestor_lsn.value && a.timeline_id.value <= b.timeline_id.value),
    ensures
        in_order(seq![a, b]) == seq![a.timeline_id, b.timeline_id],
        in_order(seq![b, a]) == seq![a.timeline_id, b.timeline_id],
{
    let rising = seq![a, b];
    law_report_is_unique(rising, rising);
    broadcast use vstd::seq_lib::group_to_multiset_ensures;

    assert(seq![b, a] =~= Seq::empty().push(b).push(a));
    assert(rising =~= Seq::empty().push(a).push(b));
    assert(seq![b, a].to_multiset() =~= rising.to_multiset());
    law_report_is_unique(seq![b, a], rising);
    assert(rising.map_values(|b: Branch| b.timeline_id) =~= seq![a.timeline_id, b.timeline_id]);
}

fn branch_precedes(a: &Branch, b: &Branch) -> (r: bool)
    ensures
        r == precedes(*a, *b),
{
    a.ancestor_lsn.value < b.ancestor_lsn.value || (a.ancestor_lsn.value == b.ancestor_lsn.value
        && a.timeline_id.value <= b.timeline_id.value)
}

fn sorted_branches(branches: &Vec<Branch>) -> (r: Vec<Branch>)
    ensures
        r@ == branches@.sort_by(order()),
{
    let mut out: Vec<Branch> = Vec::new();
    assert(out@ =~= branches@.take(0));
    for i in 0..branches.len()
        invariant
            sorted_by(out@, order()),
            out@.to_multiset() == branches@.take(i as int).to_multiset(),
    {
        let e = branches[i];
        let mut at: usize = 0;
        while at < out.len() && branch_precedes(&out[at], &e)
            invariant
                at <= out.len(),
                forall|k: int| 0 <= k < at ==> precedes(#[trigger] out[k], e),
            decreases out.len() - at,
        {
            at = at + 1;
        }
        let ghost before = out@;
        out.insert(at, e);
        proof {
            vstd::seq_lib::to_multiset_insert(before, at as int, e);
            assert(branches@.take(i + 1) =~= branches@.take(i as int).push(e));
            vstd::seq_lib::to_multiset_insert(branches@.take(i as int), i as int, e);
            assert(branches@.take(i as int).insert(i as int, e) =~= branches@.take(i + 1));
            let leq = order();
            assert forall|a: int, b: int| 0 <= a < b < out@.len() implies #[trigger] leq(
                out@[a],
                out@[b],
            ) by {
                if b < at {
                    assert(leq(before[a], before[b]));
                } else if b == at {
                    assert(precedes(before[a], e));
                } else if a < at {
                    assert(leq(before[a], before[b - 1]));
                } else if a == at {
                    assert(precedes(e, before[at as int]));
                    if b - 1 > at {
                        assert(leq(before[at as int], before[b - 1]));
                    }
                } else {
                    assert(leq(before[a - 1], before[b - 1]));
                }
            }
        }
    }
    proof {
        assert(branches@.take(branches.len() as int) =~= branches@);
        lemma_order_is_total();
        branches@.lemma_sort_by_ensures(order());
        vstd::seq_lib::lemma_sorted_unique(out@, branches@.sort_by(order()), order());
    }
    out
}

/// The timelines of `branches`, by where they branch off, then by their identifiers.
pub fn report_in_order(branches: &Vec<Branch>) -> (r: Vec<TimelineId>)
    ensures
        r@ == in_order(branches@),
{
    let sorted = sorted_branches(branches);
    let mut out: Vec<TimelineId> = Vec::new();
    for i in 0..sorted.len()
        invariant
            out@ == sorted@.take(i as int).map_values(|b: Branch| b.timeline_id),
    {
        out.push(sorted[i].timeline_id);
        assert(out@ =~= sorted@.take(i + 1).map_values(|b: Branch| b.timeline_id));
    }
    assert(sorted@.take(sorted.len() as int) =~= sorted@);
    out
}

} // verus!
