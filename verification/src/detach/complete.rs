//! The second half of detaching a timeline: its layers are published, and the earlier
//! branches of its ancestor become branches of it.
//!
//! The layers are published before any of the timelines is reparented, so that on restart
//! reparented timelines find layers. A crash after publishing leaves a timeline that is
//! detached, without the timelines that would have been reparented in normal execution.
//! This is not perfect, but it avoids a retry after a compaction or gc on restart, which
//! could give a completely wrong layer combination.

use vstd::prelude::*;

use crate::detach::order::{in_order, order, report_in_order, Branch};
use crate::detach::prepare::{reparented_branches, KnownTimeline, PreparedTimelineDetach};
use crate::error::Report;
use crate::ids::{Lsn, TimelineId};
use crate::seqs::{lemma_filter_empty, lemma_filter_take};

verus! {

/// Whether a timeline is being deleted.
#[derive(Debug, Clone, Copy, PartialEq, Eq, Structural)]
pub enum DeleteProgress {
    NotStarted,
    Started,
    /// Somebody else is looking or deleting right now.
    Locked,
}

/// What is known of a timeline of the tenant.
#[derive(Debug, Clone, Copy)]
pub struct TenantTimeline {
    pub instance: usize,
    pub timeline_id: TimelineId,
    pub is_active: bool,
    pub ancestor: Option<usize>,
    pub ancestor_lsn: Lsn,
    pub delete_progress: DeleteProgress,
}

/// Which timeline is detached, by its instance and identifier, from which ancestor, and
/// where it branches off.
#[derive(Debug, Clone, Copy)]
pub struct Detaching {
    pub instance: usize,
    pub timeline_id: TimelineId,
    pub ancestor_instance: usize,
    pub ancestor_id: TimelineId,
    pub ancestor_lsn: Lsn,
}

/// How reparenting one timeline went.
#[derive(Debug, Clone, Copy)]
pub enum ReparentOutcome {
    /// The timeline is reparented.
    Reparented(Branch),
    /// It could not be; the timeline may have started deletion, and that is fine.
    Refused,
    /// The task panicked. It's better to continue with a single reparenting failing (or
    /// even all of them) in order to get to the goal state.
    Panicked,
    /// The task came to no end for another reason.
    Lost,
}

/// Waits for the layers to be published.
#[derive(Debug, Clone, Copy)]
pub struct Publishing {
    pub detaching: Detaching,
}

/// Waits for the timelines of the tenant.
#[derive(Debug, Clone, Copy)]
pub struct ReadingSiblings {
    pub detaching: Detaching,
}

/// Waits for timelines to be reparented.
#[derive(Debug)]
pub struct Reparenting {
    pub candidates: usize,
    pub reparented: Vec<Branch>,
}

/// What completing a detach needs next.
#[derive(Debug)]
pub enum Completion<L> {
    /// To add `layers` to the timeline's index and to detach it from its ancestor.
    Publish { layers: Vec<L>, ancestor: (TimelineId, Lsn), publishing: Publishing },
    /// The timelines of the tenant.
    ReadSiblings(ReadingSiblings),
    /// To reparent each of `work` to `new_parent`, and then the first that is done.
    Reparent { work: Vec<Branch>, new_parent: TimelineId, reparenting: Reparenting },
    /// The next timeline that is reparented.
    AwaitReparent(Reparenting),
    /// Nothing: this is the outcome.
    Done { outcome: Result<Vec<TimelineId>, Report>, some_failed: bool },
}

/// A `Completion`, as plain sequences.
pub enum CompletionView<L> {
    Publish { layers: Seq<L>, ancestor: (TimelineId, Lsn), publishing: Publishing },
    ReadSiblings(ReadingSiblings),
    Reparent { work: Seq<Branch>, new_parent: TimelineId, candidates: nat, reparented: Seq<Branch> },
    AwaitReparent { candidates: nat, reparented: Seq<Branch> },
    Done { outcome: Result<Seq<TimelineId>, Report>, some_failed: bool },
}

impl<L> View for Completion<L> {
    type V = CompletionView<L>;

    open spec fn view(&self) -> CompletionView<L> {
        match *self {
            Completion::Publish { layers, ancestor, publishing } => CompletionView::Publish {
                layers: layers@,
                ancestor,
                publishing,
            },
            Completion::ReadSiblings(state) => CompletionView::ReadSiblings(state),
            Completion::Reparent { work, new_parent, reparenting } => CompletionView::Reparent {
                work: work@,
                new_parent,
                candidates: reparenting.candidates as nat,
                reparented: reparenting.reparented@,
            },
            Completion::AwaitReparent(state) => CompletionView::AwaitReparent {
                candidates: state.candidates as nat,
                reparented: state.reparented@,
            },
            Completion::Done { outcome: Ok(ids), some_failed } => CompletionView::Done {
                outcome: Ok(ids@),
                some_failed,
            },
            Completion::Done { outcome: Err(e), some_failed } => CompletionView::Done {
                outcome: Err(e),
                some_failed,
            },
        }
    }
}

// ---------------------------------------------------------------------------
// Each decision
// ---------------------------------------------------------------------------

/// What comes first: the layers are published.
pub open spec fn completion_begun<L>(detaching: Detaching, layers: Seq<L>) -> CompletionView<L> {
    CompletionView::Publish {
        layers,
        ancestor: (detaching.ancestor_id, detaching.ancestor_lsn),
        publishing: Publishing { detaching },
    }
}

/// What comes after publishing.
pub open spec fn after_publish<L>(state: Publishing, published: Result<(), Report>) -> CompletionView<
    L,
> {
    match published {
        Err(e) => CompletionView::Done { outcome: Err(e), some_failed: false },
        Ok(_) => CompletionView::ReadSiblings(ReadingSiblings { detaching: state.detaching }),
    }
}

/// Whether a timeline is to be reparented: another active branch of the same ancestor,
/// from the same point or an earlier one, that is not being deleted.
pub open spec fn is_candidate(tl: TenantTimeline, detaching: Detaching) -> bool {
    &&& tl.instance != detaching.instance
    &&& tl.is_active
    &&& tl.ancestor == Some(detaching.ancestor_instance)
    &&& tl.ancestor_lsn.value <= detaching.ancestor_lsn.value
    &&& tl.delete_progress == DeleteProgress::NotStarted
}

/// The branches that are to be reparented.
pub open spec fn candidates(timelines: Seq<TenantTimeline>, detaching: Detaching) -> Seq<Branch> {
    timelines.filter(|tl: TenantTimeline| is_candidate(tl, detaching)).map_values(
        |tl: TenantTimeline| Branch { ancestor_lsn: tl.ancestor_lsn, timeline_id: tl.timeline_id },
    )
}

/// What comes after the timelines of the tenant.
pub open spec fn after_siblings<L>(
    state: ReadingSiblings,
    timelines: Seq<TenantTimeline>,
) -> CompletionView<L> {
    CompletionView::Reparent {
        work: candidates(timelines, state.detaching),
        new_parent: state.detaching.timeline_id,
        candidates: candidates(timelines, state.detaching).len(),
        reparented: Seq::empty(),
    }
}

/// What comes after a reparenting, or after the last of them.
pub open spec fn after_reparent<L>(
    candidates: nat,
    reparented: Seq<Branch>,
    joined: Option<ReparentOutcome>,
) -> CompletionView<L> {
    match joined {
        Some(ReparentOutcome::Reparented(branch)) => CompletionView::AwaitReparent {
            candidates,
            reparented: reparented.push(branch),
        },
        Some(_) => CompletionView::AwaitReparent { candidates, reparented },
        None => CompletionView::Done {
            outcome: Ok(in_order(reparented)),
            some_failed: candidates != reparented.len(),
        },
    }
}

/// Begins to complete detaching a timeline from its ancestor.
pub fn complete<L>(detaching: &Detaching, prepared: PreparedTimelineDetach<L>) -> (r: Completion<L>)
    ensures
        r@ == completion_begun::<L>(*detaching, prepared.layers@),
{
    Completion::Publish {
        layers: prepared.layers,
        ancestor: (detaching.ancestor_id, detaching.ancestor_lsn),
        publishing: Publishing { detaching: *detaching },
    }
}

impl Publishing {
    /// Takes whether the layers were published.
    pub fn published<L>(self, published: Result<(), Report>) -> (r: Completion<L>)
        ensures
            r@ == after_publish::<L>(self, published),
    {
        match published {
            Err(e) => Completion::Done { outcome: Err(e), some_failed: false },
            Ok(_) => Completion::ReadSiblings(ReadingSiblings { detaching: self.detaching }),
        }
    }
}

fn may_be_reparented(tl: &TenantTimeline, detaching: &Detaching) -> (r: bool)
    ensures
        r == is_candidate(*tl, *detaching),
{
    if tl.instance == detaching.instance {
        return false;
    }
    if !tl.is_active {
        return false;
    }
    let tl_ancestor = match tl.ancestor {
        Some(tl_ancestor) => tl_ancestor,
        None => {
            return false;
        },
    };
    let is_same = detaching.ancestor_instance == tl_ancestor;
    let is_earlier = tl.ancestor_lsn.value <= detaching.ancestor_lsn.value;
    let is_deleting = match tl.delete_progress {
        DeleteProgress::NotStarted => false,
        DeleteProgress::Started => true,
        DeleteProgress::Locked => true,
    };
    is_same && is_earlier && !is_deleting
}

impl ReadingSiblings {
    /// Takes the timelines of the tenant.
    pub fn siblings_read<L>(self, timelines: &Vec<TenantTimeline>) -> (r: Completion<L>)
        ensures
            r@ == after_siblings::<L>(self, timelines@),
    {
        let mut work: Vec<Branch> = Vec::new();
        let ghost detaching = self.detaching;
        let ghost keep = |tl: TenantTimeline| is_candidate(tl, detaching);
        let ghost branch = |tl: TenantTimeline|
            Branch { ancestor_lsn: tl.ancestor_lsn, timeline_id: tl.timeline_id };
        proof {
            lemma_filter_empty(timelines@.take(0), keep);
        }
        for i in 0..timelines.len()
            invariant
                self.detaching == detaching,
                keep == (|tl: TenantTimeline| is_candidate(tl, detaching)),
                branch == (|tl: TenantTimeline|
                    Branch { ancestor_lsn: tl.ancestor_lsn, timeline_id: tl.timeline_id }),
                work@ == timelines@.take(i as int).filter(keep).map_values(branch),
        {
            proof {
                lemma_filter_take(timelines@, keep, i as int);
            }
            let tl = timelines[i];
            if may_be_reparented(&tl, &self.detaching) {
                work.push(Branch { ancestor_lsn: tl.ancestor_lsn, timeline_id: tl.timeline_id });
            }
            assert(work@ =~= timelines@.take(i + 1).filter(keep).map_values(branch));
        }
        assert(timelines@.take(timelines.len() as int) =~= timelines@);
        let candidates: usize = work.len();
        let reparented: Vec<Branch> = Vec::new();
        assert(reparented@ =~= Seq::empty());
        Completion::Reparent {
            work,
            new_parent: self.detaching.timeline_id,
            reparenting: Reparenting { candidates, reparented },
        }
    }
}

impl Reparenting {
    /// Takes the next timeline that was reparented, or nothing where all of them are done.
    pub fn reparent_joined<L>(self, joined: Option<ReparentOutcome>) -> (r: Completion<L>)
        ensures
            r@ == after_reparent::<L>(self.candidates as nat, self.reparented@, joined),
    {
        match joined {
            Some(ReparentOutcome::Reparented(branch)) => {
                let mut reparented = self.reparented;
                reparented.push(branch);
                Completion::AwaitReparent(Reparenting { candidates: self.candidates, reparented })
            },
            Some(ReparentOutcome::Refused) => Completion::AwaitReparent(self),
            Some(ReparentOutcome::Panicked) => Completion::AwaitReparent(self),
            Some(ReparentOutcome::Lost) => Completion::AwaitReparent(self),
            None => {
                let some_failed = self.candidates != self.reparented.len();
                Completion::Done { outcome: Ok(report_in_order(&self.reparented)), some_failed }
            },
        }
    }
}

// ---------------------------------------------------------------------------
// Whole completions
// ---------------------------------------------------------------------------

/// Everything that completing a detach may be told.
pub struct CompletionAnswers {
    pub published: Result<(), Report>,
    pub timelines: Seq<TenantTimeline>,
    pub joined: Seq<ReparentOutcome>,
}

/// How many kinds of questions may still follow.
pub open spec fn completion_stage<L>(next: CompletionView<L>) -> nat {
    match next {
        CompletionView::Publish { .. } => 3,
        CompletionView::ReadSiblings(_) => 2,
        CompletionView::Reparent { .. } => 1,
        CompletionView::AwaitReparent { .. } => 0,
        CompletionView::Done { .. } => 0,
    }
}

/// What completing a detach comes to that has reached `next` and is answered by `a` from
/// then on, where `i` of the reparentings have been joined.
pub open spec fn completion_run<L>(
    next: CompletionView<L>,
    a: CompletionAnswers,
    i: nat,
) -> Result<Seq<TimelineId>, Report>
    decreases completion_stage(next), a.joined.len() - i,
{
    match next {
        CompletionView::Publish { publishing, .. } => completion_run(
            after_publish::<L>(publishing, a.published),
            a,
            0,
        ),
        CompletionView::ReadSiblings(state) => completion_run(
            after_siblings::<L>(state, a.timelines),
            a,
            0,
        ),
        CompletionView::Reparent { candidates, reparented, .. } => completion_run(
            CompletionView::<L>::AwaitReparent { candidates, reparented },
            a,
            0,
        ),
        CompletionView::AwaitReparent { candidates, reparented } => if i < a.joined.len() {
            completion_run(
                after_reparent::<L>(candidates, reparented, Some(a.joined[i as int])),
                a,
                i + 1,
            )
        } else {
            match after_reparent::<L>(candidates, reparented, None) {
                CompletionView::Done { outcome, .. } => outcome,
                _ => arbitrary(),
            }
        },
        CompletionView::Done { outcome, .. } => outcome,
    }
}

/// The branches that were reparented, in the order in which that was learned.
pub open spec fn reparented_of(joined: Seq<ReparentOutcome>) -> Seq<Branch>
    decreases joined.len(),
{
    if joined.len() == 0 {
        Seq::empty()
    } else {
        match joined.last() {
            ReparentOutcome::Reparented(branch) => reparented_of(joined.drop_last()).push(branch),
            _ => reparented_of(joined.drop_last()),
        }
    }
}

proof fn lemma_reparenting<L>(count: nat, reparented: Seq<Branch>, a: CompletionAnswers, i: nat)
    requires
        i <= a.joined.len(),
        reparented == reparented_of(a.joined.take(i as int)),
    ensures
        completion_run(
            CompletionView::<L>::AwaitReparent { candidates: count, reparented },
            a,
            i,
        ) == Ok::<Seq<TimelineId>, Report>(in_order(reparented_of(a.joined))),
    decreases a.joined.len() - i,
{
    if i < a.joined.len() {
        assert(a.joined.take((i + 1) as int).drop_last() =~= a.joined.take(i as int));
        match a.joined[i as int] {
            ReparentOutcome::Reparented(branch) => {
                lemma_reparenting::<L>(count, reparented.push(branch), a, i + 1);
            },
            _ => {
                lemma_reparenting::<L>(count, reparented, a, i + 1);
            },
        }
    } else {
        assert(a.joined.take(i as int) =~= a.joined);
    }
}

/// Completing a detach fails exactly when publishing fails, and with the same error. Else
/// it reports the timelines that were reparented, whatever became of the others.
pub proof fn law_completion<L>(detaching: Detaching, layers: Seq<L>, a: CompletionAnswers)
    ensures
        completion_run(completion_begun(detaching, layers), a, 0) == match a.published {
            Err(e) => Err::<Seq<TimelineId>, Report>(e),
            Ok(_) => Ok(in_order(reparented_of(a.joined))),
        },
{
    reveal_with_fuel(completion_run, 4);
    assert(a.joined.take(0) =~= Seq::empty());
    lemma_reparenting::<L>(
        candidates(a.timelines, detaching).len(),
        Seq::empty(),
        a,
        0,
    );
}

/// No timeline is reparented unless the layers have been published: the first thing to do
/// is to publish all of them, and a failure to do so is the end.
pub proof fn law_publish_before_reparenting<L>(
    detaching: Detaching,
    layers: Seq<L>,
    published: Result<(), Report>,
)
    ensures
        completion_begun(detaching, layers) is Publish,
        completion_begun(detaching, layers)->layers == layers,
        after_publish::<L>(Publishing { detaching }, published) is ReadSiblings <==> published is Ok,
        after_publish::<L>(Publishing { detaching }, published) is Done <==> published is Err,
{
}

/// The timeline `tl` as a branch.
pub open spec fn branch_of(tl: TenantTimeline) -> Branch {
    Branch { ancestor_lsn: tl.ancestor_lsn, timeline_id: tl.timeline_id }
}

/// Whether `branch` stands for a candidate among `timelines`.
pub open spec fn stands_for_candidate(
    timelines: Seq<TenantTimeline>,
    detaching: Detaching,
    branch: Branch,
) -> bool {
    exists|k: int|
        0 <= k < timelines.len() && is_candidate(#[trigger] timelines[k], detaching) && branch
            == branch_of(timelines[k])
}

/// Every other active branch of the ancestor that is early enough and not being deleted is
/// to be reparented, and nothing else is.
pub proof fn law_candidates(timelines: Seq<TenantTimeline>, detaching: Detaching)
    ensures
        forall|k: int|
            0 <= k < timelines.len() && is_candidate(#[trigger] timelines[k], detaching)
                ==> candidates(timelines, detaching).contains(branch_of(timelines[k])),
        forall|i: int|
            0 <= i < candidates(timelines, detaching).len() ==> stands_for_candidate(
                timelines,
                detaching,
                #[trigger] candidates(timelines, detaching)[i],
            ),
{
    let keep = |tl: TenantTimeline| is_candidate(tl, detaching);
    let kept = timelines.filter(keep);
    assert forall|k: int|
        0 <= k < timelines.len() && is_candidate(
            #[trigger] timelines[k],
            detaching,
        ) implies candidates(timelines, detaching).contains(branch_of(timelines[k])) by {
        crate::seqs::lemma_filter_keeps(timelines, keep, k);
        let i = choose|i: int| 0 <= i < kept.len() && kept[i] == timelines[k];
        assert(candidates(timelines, detaching)[i] == branch_of(timelines[k]));
    }
    assert forall|i: int|
        0 <= i < candidates(timelines, detaching).len() implies stands_for_candidate(
        timelines,
        detaching,
        #[trigger] candidates(timelines, detaching)[i],
    ) by {
        crate::seqs::lemma_filter_member(timelines, keep, i);
        let k = choose|k: int| 0 <= k < timelines.len() && timelines[k] == kept[i];
        assert(is_candidate(timelines[k], detaching));
    }
}

/// Whether no two of the timelines have the same identifier.
pub open spec fn are_distinct(timelines: Seq<TenantTimeline>) -> bool {
    forall|i: int, j: int|
        0 <= i < j < timelines.len() ==> #[trigger] timelines[i].timeline_id != #[trigger] timelines[j].timeline_id
}

/// Whether no two of the branches have the same identifier.
pub open spec fn are_distinct_branches(branches: Seq<Branch>) -> bool {
    forall|i: int, j: int|
        0 <= i < j < branches.len() ==> #[trigger] branches[i].timeline_id != #[trigger] branches[j].timeline_id
}

/// Whether every branch that was reparented is one of `work`, and was joined once.
pub open spec fn are_joined_once(joined: Seq<ReparentOutcome>, work: Seq<Branch>) -> bool {
    &&& forall|i: int|
        0 <= i < joined.len() ==> (#[trigger] joined[i] matches ReparentOutcome::Reparented(branch)
            ==> work.contains(branch))
    &&& forall|i: int, j: int|
        0 <= i < j < joined.len() && joined[i] is Reparented ==> #[trigger] joined[i]
            != #[trigger] joined[j]
}

proof fn lemma_candidates_distinct(timelines: Seq<TenantTimeline>, detaching: Detaching)
    requires
        are_distinct(timelines),
    ensures
        are_distinct_branches(candidates(timelines, detaching)),
    decreases timelines.len(),
{
    let keep = |tl: TenantTimeline| is_candidate(tl, detaching);
    if timelines.len() == 0 {
        crate::seqs::lemma_filter_empty(timelines, keep);
    } else {
        let init = timelines.drop_last();
        let last = timelines.last();
        assert(forall|i: int| 0 <= i < init.len() ==> init[i] == timelines[i]);
        lemma_candidates_distinct(init, detaching);
        assert(timelines =~= init.push(last));
        crate::seqs::lemma_filter_push(init, keep, last);
        let before = candidates(init, detaching);
        let all = candidates(timelines, detaching);
        if is_candidate(last, detaching) {
            assert(all =~= before.push(branch_of(last)));
            assert forall|i: int, j: int| 0 <= i < j < all.len() implies
                #[trigger] all[i].timeline_id != #[trigger] all[j].timeline_id by {
                if j == before.len() {
                    law_candidates(init, detaching);
                    assert(stands_for_candidate(init, detaching, before[i]));
                    let k = choose|k: int|
                        0 <= k < init.len() && is_candidate(#[trigger] init[k], detaching)
                            && before[i] == branch_of(init[k]);
                    assert(timelines[k].timeline_id != timelines[timelines.len() - 1].timeline_id);
                } else {
                    assert(before[i].timeline_id != before[j].timeline_id);
                }
            }
        } else {
            assert(all =~= before);
        }
    }
}

/// What was reparented is what was joined as reparented.
proof fn lemma_reparented_of(joined: Seq<ReparentOutcome>, branch: Branch)
    ensures
        reparented_of(joined).contains(branch) <==> joined.contains(
            ReparentOutcome::Reparented(branch),
        ),
    decreases joined.len(),
{
    let outcome = ReparentOutcome::Reparented(branch);
    if joined.len() > 0 {
        let init = joined.drop_last();
        lemma_reparented_of(init, branch);
        assert(joined =~= init.push(joined.last()));
        if reparented_of(joined).contains(branch) {
            let i = choose|i: int|
                0 <= i < reparented_of(joined).len() && reparented_of(joined)[i] == branch;
            if i < reparented_of(init).len() {
                assert(reparented_of(init)[i] == branch);
                let k = choose|k: int| 0 <= k < init.len() && init[k] == outcome;
                assert(joined[k] == outcome);
            } else {
                assert(joined[joined.len() - 1] == outcome);
            }
        }
        if joined.contains(outcome) {
            let k = choose|k: int| 0 <= k < joined.len() && joined[k] == outcome;
            if k < init.len() {
                assert(init[k] == outcome);
                let i = choose|i: int|
                    0 <= i < reparented_of(init).len() && reparented_of(init)[i] == branch;
                assert(reparented_of(joined)[i] == branch);
            } else {
                assert(reparented_of(joined)[reparented_of(joined).len() - 1] == branch);
            }
        }
    }
}

proof fn lemma_reparented_once(joined: Seq<ReparentOutcome>, work: Seq<Branch>)
    requires
        are_joined_once(joined, work),
    ensures
        reparented_of(joined).no_duplicates(),
        forall|i: int|
            0 <= i < reparented_of(joined).len() ==> work.contains(
                #[trigger] reparented_of(joined)[i],
            ),
    decreases joined.len(),
{
    if joined.len() > 0 {
        let init = joined.drop_last();
        assert(forall|i: int| 0 <= i < init.len() ==> init[i] == joined[i]);
        lemma_reparented_once(init, work);
        if let ReparentOutcome::Reparented(branch) = joined.last() {
            assert(joined[joined.len() - 1] == joined.last());
            lemma_reparented_of(init, branch);
            if reparented_of(init).contains(branch) {
                let k = choose|k: int|
                    0 <= k < init.len() && init[k] == ReparentOutcome::Reparented(branch);
                assert(joined[k] != joined[joined.len() - 1]);
            }
            let before = reparented_of(init);
            let all = reparented_of(joined);
            assert(all == before.push(branch));
            assert forall|i: int, j: int| 0 <= i < all.len() && 0 <= j < all.len() && i != j implies
                all[i] != all[j] by {
                if i < before.len() && j < before.len() {
                    assert(before[i] != before[j]);
                } else if i < before.len() {
                    assert(before.contains(before[i]));
                } else {
                    assert(before.contains(before[j]));
                }
            }
            assert forall|i: int| 0 <= i < all.len() implies work.contains(#[trigger] all[i]) by {
                if i < before.len() {
                    assert(work.contains(before[i]));
                }
            }
        }
    }
}

/// Sorting adds nothing, drops nothing and repeats nothing.
proof fn lemma_sorted_members(branches: Seq<Branch>)
    requires
        branches.no_duplicates(),
    ensures
        branches.sort_by(order()).no_duplicates(),
        forall|b: Branch| #[trigger]
            branches.sort_by(order()).contains(b) <==> branches.contains(b),
{
    crate::detach::order::law_in_order(branches);
    let sorted = branches.sort_by(order());
    branches.lemma_multiset_has_no_duplicates();
    assert forall|b: Branch| sorted.to_multiset().contains(b) implies sorted.to_multiset().count(b)
        == 1 by {
        assert(branches.to_multiset().contains(b));
    }
    sorted.lemma_multiset_has_no_duplicates_conv();
    branches.to_multiset_ensures();
    sorted.to_multiset_ensures();
    assert forall|b: Branch| #[trigger] sorted.contains(b) <==> branches.contains(b) by {
        assert(sorted.to_multiset().count(b) == branches.to_multiset().count(b));
    }
}

/// What holds nothing twice and nothing but what `work` holds is no longer than that.
proof fn lemma_no_more_than(branches: Seq<Branch>, work: Seq<Branch>)
    requires
        branches.no_duplicates(),
        forall|i: int| 0 <= i < branches.len() ==> work.contains(#[trigger] branches[i]),
    ensures
        in_order(branches).len() <= work.len(),
{
    crate::detach::order::law_in_order(branches);
    branches.unique_seq_to_set();
    work.lemma_cardinality_of_set();
    vstd::seq_lib::seq_to_set_is_finite(work);
    assert forall|b: Branch| branches.to_set().contains(b) implies work.to_set().contains(b) by {
        let i = choose|i: int| 0 <= i < branches.len() && branches[i] == b;
        assert(work.contains(branches[i]));
    }
    vstd::set_lib::lemma_len_subset(branches.to_set(), work.to_set());
}

/// Whether `id` names a candidate that was reparented.
pub open spec fn is_reparented_candidate(
    a: CompletionAnswers,
    detaching: Detaching,
    id: TimelineId,
) -> bool {
    exists|k: int|
        0 <= k < a.timelines.len() && is_candidate(#[trigger] a.timelines[k], detaching)
            && a.timelines[k].timeline_id == id && a.joined.contains(
            ReparentOutcome::Reparented(branch_of(a.timelines[k])),
        )
}

/// Every timeline that is reported was a candidate, stands in the report once, and was
/// reparented; and every timeline that was reparented is reported. This holds where no two
/// timelines of the tenant share an identifier, and each reparenting that was handed out is
/// joined once.
pub proof fn law_report_names_candidates<L>(
    detaching: Detaching,
    layers: Seq<L>,
    a: CompletionAnswers,
)
    requires
        are_distinct(a.timelines),
        are_joined_once(a.joined, candidates(a.timelines, detaching)),
    ensures
        completion_run(completion_begun(detaching, layers), a, 0) matches Ok(ids) ==> {
            &&& ids.no_duplicates()
            &&& ids.len() <= candidates(a.timelines, detaching).len()
            &&& forall|i: int|
                0 <= i < ids.len() ==> is_reparented_candidate(a, detaching, #[trigger] ids[i])
            &&& forall|j: int|
                0 <= j < a.joined.len() ==> (#[trigger] a.joined[j] matches
                    ReparentOutcome::Reparented(branch) ==> ids.contains(branch.timeline_id))
        },
{
    law_completion(detaching, layers, a);
    let work = candidates(a.timelines, detaching);
    let branches = reparented_of(a.joined);
    let sorted = branches.sort_by(order());
    let ids = in_order(branches);
    lemma_candidates_distinct(a.timelines, detaching);
    lemma_reparented_once(a.joined, work);
    lemma_sorted_members(branches);
    law_candidates(a.timelines, detaching);
    assert forall|i: int| 0 <= i < sorted.len() implies work.contains(#[trigger] sorted[i])
        && branches.contains(sorted[i]) by {
        assert(sorted.contains(sorted[i]));
        let m = choose|m: int| 0 <= m < branches.len() && branches[m] == sorted[i];
        assert(work.contains(branches[m]));
    }
    assert forall|i: int, j: int| 0 <= i < ids.len() && 0 <= j < ids.len() && i != j implies ids[i]
        != ids[j] by {
        assert(work.contains(sorted[i]) && work.contains(sorted[j]));
        let m = choose|m: int| 0 <= m < work.len() && work[m] == sorted[i];
        let n = choose|n: int| 0 <= n < work.len() && work[n] == sorted[j];
        assert(sorted[i] != sorted[j]);
        if m < n {
            assert(work[m].timeline_id != work[n].timeline_id);
        } else {
            assert(work[n].timeline_id != work[m].timeline_id);
        }
    }
    assert forall|i: int| 0 <= i < ids.len() implies is_reparented_candidate(
        a,
        detaching,
        #[trigger] ids[i],
    ) by {
        assert(work.contains(sorted[i]));
        let m = choose|m: int| 0 <= m < work.len() && work[m] == sorted[i];
        assert(stands_for_candidate(a.timelines, detaching, work[m]));
        let k = choose|k: int|
            0 <= k < a.timelines.len() && is_candidate(#[trigger] a.timelines[k], detaching)
                && work[m] == branch_of(a.timelines[k]);
        lemma_reparented_of(a.joined, sorted[i]);
        assert(is_candidate(a.timelines[k], detaching));
    }
    assert forall|j: int| 0 <= j < a.joined.len() implies (#[trigger] a.joined[j] matches
        ReparentOutcome::Reparented(branch) ==> ids.contains(branch.timeline_id)) by {
        if let ReparentOutcome::Reparented(branch) = a.joined[j] {
            assert(a.joined.contains(a.joined[j]));
            lemma_reparented_of(a.joined, branch);
            assert(sorted.contains(branch));
            let i = choose|i: int| 0 <= i < sorted.len() && sorted[i] == branch;
            assert(ids[i] == branch.timeline_id);
        }
    }
    lemma_no_more_than(branches, work);
}

/// A timeline is handed out for reparenting if and only if it is another timeline than the
/// detached one, is active, branches off the same ancestor, at the same point or an earlier
/// one, and its deletion has not started.
pub proof fn law_candidates_by_fields(timelines: Seq<TenantTimeline>, detaching: Detaching)
    ensures
        candidates(timelines, detaching) == timelines.filter(
            |tl: TenantTimeline|
                tl.instance != detaching.instance && tl.is_active && tl.ancestor == Some(
                    detaching.ancestor_instance,
                ) && tl.ancestor_lsn.value <= detaching.ancestor_lsn.value && tl.delete_progress
                    == DeleteProgress::NotStarted,
        ).map_values(
            |tl: TenantTimeline|
                Branch { ancestor_lsn: tl.ancestor_lsn, timeline_id: tl.timeline_id },
        ),
        forall|k: int|
            0 <= k < timelines.len() ==> {
                let tl = #[trigger] timelines[k];
                tl.instance != detaching.instance && tl.is_active && tl.ancestor == Some(
                    detaching.ancestor_instance,
                ) && tl.ancestor_lsn.value <= detaching.ancestor_lsn.value && tl.delete_progress
                    == DeleteProgress::NotStarted ==> candidates(timelines, detaching).contains(
                    Branch { ancestor_lsn: tl.ancestor_lsn, timeline_id: tl.timeline_id },
                )
            },
{
    let keep = |tl: TenantTimeline| is_candidate(tl, detaching);
    assert(keep =~= (|tl: TenantTimeline|
        tl.instance != detaching.instance && tl.is_active && tl.ancestor == Some(
            detaching.ancestor_instance,
        ) && tl.ancestor_lsn.value <= detaching.ancestor_lsn.value && tl.delete_progress
            == DeleteProgress::NotStarted));
    law_candidates(timelines, detaching);
    assert forall|k: int| 0 <= k < timelines.len() implies {
        let tl = #[trigger] timelines[k];
        tl.instance != detaching.instance && tl.is_active && tl.ancestor == Some(
            detaching.ancestor_instance,
        ) && tl.ancestor_lsn.value <= detaching.ancestor_lsn.value && tl.delete_progress
            == DeleteProgress::NotStarted ==> candidates(timelines, detaching).contains(
            Branch { ancestor_lsn: tl.ancestor_lsn, timeline_id: tl.timeline_id },
        )
    } by {
        if is_candidate(timelines[k], detaching) {
            assert(candidates(timelines, detaching).contains(branch_of(timelines[k])));
        }
    }
}

/// An earlier branch goes with a later one: where a timeline is to be reparented, so is one
/// that differs from it only by branching off earlier, down to the very first position; and
/// one that branches off behind the detached timeline never is.
pub proof fn law_earlier_branches_go_too(
    tl: TenantTimeline,
    earlier: TenantTimeline,
    detaching: Detaching,
)
    requires
        earlier == (TenantTimeline { ancestor_lsn: earlier.ancestor_lsn, ..tl }),
        earlier.ancestor_lsn.value <= tl.ancestor_lsn.value,
    ensures
        is_candidate(tl, detaching) ==> is_candidate(earlier, detaching),
        tl.ancestor_lsn.value > detaching.ancestor_lsn.value ==> !is_candidate(tl, detaching),
        is_candidate(earlier, detaching) && tl.ancestor_lsn.value <= detaching.ancestor_lsn.value
            ==> is_candidate(tl, detaching),
{
}

/// The candidates are handed out to become branches of the detached timeline, none of them
/// being one yet; and the layers are published under the ancestor that is left, and where.
pub proof fn law_reparented_to_the_detached<L>(
    detaching: Detaching,
    layers: Seq<L>,
    timelines: Seq<TenantTimeline>,
)
    ensures
        ({
            let handed_out = after_siblings::<L>(ReadingSiblings { detaching }, timelines);
            &&& handed_out is Reparent
            &&& handed_out->new_parent == detaching.timeline_id
            &&& handed_out->work == candidates(timelines, detaching)
            &&& handed_out->Reparent_candidates == handed_out->work.len()
            &&& handed_out->Reparent_reparented == Seq::<Branch>::empty()
        }),
        completion_begun(detaching, layers)->ancestor.0 == detaching.ancestor_id,
        completion_begun(detaching, layers)->ancestor.1 == detaching.ancestor_lsn,
{
}

/// What was reparented are the branches that were joined as such, each as often and in the
/// order in which that was learned.
pub proof fn law_reparented_of(joined: Seq<ReparentOutcome>)
    ensures
        reparented_of(joined) == joined.filter(
            |outcome: ReparentOutcome| outcome is Reparented,
        ).map_values(|outcome: ReparentOutcome| outcome->Reparented_0),
    decreases joined.len(),
{
    let keep = |outcome: ReparentOutcome| outcome is Reparented;
    let branch = |outcome: ReparentOutcome| outcome->Reparented_0;
    if joined.len() == 0 {
        crate::seqs::lemma_filter_empty(joined, keep);
        assert(joined.filter(keep).map_values(branch) =~= Seq::empty());
    } else {
        let init = joined.drop_last();
        law_reparented_of(init);
        assert(joined =~= init.push(joined.last()));
        crate::seqs::lemma_filter_push(init, keep, joined.last());
        assert(reparented_of(joined) =~= joined.filter(keep).map_values(branch));
    }
}

/// Some failed exactly if fewer timelines were reparented than there were candidates. One
/// that was not reparented ends nothing.
pub proof fn law_some_failed<L>(count: nat, reparented: Seq<Branch>, outcome: ReparentOutcome)
    ensures
        after_reparent::<L>(count, reparented, None) is Done,
        after_reparent::<L>(count, reparented, None)->some_failed <==> reparented.len() != count,
        after_reparent::<L>(count, reparented, Some(outcome)) is AwaitReparent,
        after_reparent::<L>(count, reparented, Some(outcome))->AwaitReparent_candidates == count,
        after_reparent::<L>(count, reparented, Some(outcome))->AwaitReparent_reparented
            == match outcome {
            ReparentOutcome::Reparented(branch) => reparented.push(branch),
            _ => reparented,
        },
{
}

/// Asking again gives the same answer: a later preparation that finds the timelines which
/// were reparented among the children of the detached timeline, and no others, reports the
/// very list that completing the detach reported.
pub proof fn law_asking_again(
    joined: Seq<ReparentOutcome>,
    timelines: Seq<KnownTimeline>,
    instance: usize,
)
    requires
        reparented_branches(timelines, instance).to_multiset() == reparented_of(
            joined,
        ).to_multiset(),
    ensures
        in_order(reparented_branches(timelines, instance)) == in_order(reparented_of(joined)),
{
    crate::detach::order::law_in_order_forgets_arrival(
        reparented_branches(timelines, instance),
        reparented_of(joined),
    );
}

} // verus!
