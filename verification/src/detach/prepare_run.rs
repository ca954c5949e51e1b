//! Whole preparations: what one comes to, given everything it is answered.

use vstd::prelude::*;

use crate::detach::error::{Error, FlushLayerError, NotInitialized};
use crate::detach::layers::{historic, straddling, LayerDesc};
use crate::detach::order::in_order;
use crate::detach::prepare::{after_claim, after_copy, after_disk_consistent_lsn, after_failpoint, after_flush, after_gate, after_layers, after_lineage, after_rewrite, after_rewrites, after_sync, after_timelines, begun, behind, flush_error, is_held, reparented_branches, slot_after_claim, slot_after_finish, some_child_is_silent, Claiming, DetachFacts, EnteringGate, Flushing, Job, KnownTimeline, NextView, OngoingDetach, PassingFailpoint, ProgressView, ReadingDiskConsistentLsn, ReadingLayers, RewritingView, BEFORE_STARTING_AFTER_LOCKING};
use crate::ids::Lsn;

verus! {

/// Everything that a preparation may be told, whether it asks for it or not.
pub struct Answers<L> {
    pub was_detached: Result<bool, NotInitialized>,
    pub timelines: Seq<KnownTimeline>,
    pub gate_entered: bool,
    pub failpoint_triggered: bool,
    pub disk_consistent_lsn: Lsn,
    pub flushed: Result<(), FlushLayerError>,
    pub layers: Option<Seq<LayerDesc>>,
    pub rewrites: Seq<Result<Result<Option<L>, Error>, String>>,
    pub copies: Seq<Result<Result<L, Error>, String>>,
}

/// The element of `s` at `i`, if there is one.
pub open spec fn nth<A>(s: Seq<A>, i: nat) -> Option<A> {
    if i < s.len() {
        Some(s[i as int])
    } else {
        None
    }
}

/// How many kinds of questions may still follow.
pub open spec fn stage<L>(next: NextView<L>) -> nat {
    match next {
        NextView::ReadLineage(_) => 12,
        NextView::ReadTimelines(_) => 11,
        NextView::ClaimSlot(_) => 10,
        NextView::EnterGate(_) => 9,
        NextView::PassFailpoint(_) => 8,
        NextView::ReadDiskConsistentLsn(_) => 7,
        NextView::FreezeAndFlush(_) => 6,
        NextView::ReadLayers(_) => 5,
        NextView::Rewrite { .. } => 4,
        NextView::AwaitRewrite(_) => 3,
        NextView::SyncDirectory(_) => 2,
        NextView::Copy { .. } => 1,
        NextView::AwaitCopy(_) => 0,
        NextView::ReleaseSlot(_) => 0,
        NextView::Done(_) => 0,
    }
}

/// How a preparation ends: with which outcome, and what the tenant is claimed for then.
pub struct Ended<L> {
    pub outcome: Result<ProgressView<L>, Error>,
    pub slot: Option<OngoingDetach>,
}

/// How a preparation ends that has claimed the tenant: a failure releases it.
pub open spec fn settled<L>(
    slot: Option<OngoingDetach>,
    outcome: Result<ProgressView<L>, Error>,
) -> Ended<L> {
    Ended {
        outcome,
        slot: if outcome is Err {
            slot_after_finish(slot)
        } else {
            slot
        },
    }
}

/// How a preparation ends that has reached `next` and is answered by `a` from then on, where
/// the tenant is claimed for `slot` and `i` of the tasks it now waits for have been joined.
pub open spec fn run<L>(
    next: NextView<L>,
    a: Answers<L>,
    slot: Option<OngoingDetach>,
    i: nat,
) -> Ended<L>
    decreases stage(next), a.rewrites.len() + a.copies.len() - i,
{
    match next {
        NextView::ReadLineage(state) => run(after_lineage(state, a.was_detached), a, slot, 0),
        NextView::ReadTimelines(state) => run(after_timelines(state, a.timelines), a, slot, 0),
        NextView::ClaimSlot(state) => run(
            after_claim(state, slot),
            a,
            slot_after_claim(state, slot),
            0,
        ),
        NextView::EnterGate(state) => run(after_gate(state, a.gate_entered), a, slot, 0),
        NextView::PassFailpoint(state) => run(
            after_failpoint(state, a.failpoint_triggered),
            a,
            slot,
            0,
        ),
        NextView::ReadDiskConsistentLsn(state) => run(
            after_disk_consistent_lsn(state, a.disk_consistent_lsn),
            a,
            slot,
            0,
        ),
        NextView::FreezeAndFlush(state) => run(after_flush(state, a.flushed), a, slot, 0),
        NextView::ReadLayers(state) => run(after_layers(state, a.layers), a, slot, 0),
        NextView::Rewrite { rewriting, .. } => run(
            after_rewrite(rewriting, nth(a.rewrites, 0)),
            a,
            slot,
            1,
        ),
        NextView::AwaitRewrite(state) => if i < a.rewrites.len() {
            run(after_rewrite(state, Some(a.rewrites[i as int])), a, slot, i + 1)
        } else {
            run(after_rewrites(state), a, slot, 0)
        },
        NextView::SyncDirectory(state) => run(after_sync(state), a, slot, 0),
        NextView::Copy { new_layers, .. } => run(
            after_copy(new_layers, nth(a.copies, 0)),
            a,
            slot,
            1,
        ),
        NextView::AwaitCopy(new_layers) => if i < a.copies.len() {
            run(after_copy(new_layers, Some(a.copies[i as int])), a, slot, i + 1)
        } else {
            Ended { outcome: Ok(ProgressView::Prepared(new_layers)), slot }
        },
        NextView::ReleaseSlot(e) => Ended { outcome: Err(e), slot: slot_after_finish(slot) },
        NextView::Done(outcome) => Ended { outcome, slot },
    }
}

/// The layers that rewrites give, or the first failure among them.
pub open spec fn rewritten<L>(rewrites: Seq<Result<Result<Option<L>, Error>, String>>) -> Result<
    Seq<L>,
    Error,
>
    decreases rewrites.len(),
{
    if rewrites.len() == 0 {
        Ok(Seq::empty())
    } else {
        match rewritten(rewrites.drop_last()) {
            Err(e) => Err(e),
            Ok(layers) => match rewrites.last() {
                Ok(Ok(Some(layer))) => Ok(layers.push(layer)),
                Ok(Ok(None)) => Ok(layers),
                Ok(Err(e)) => Err(e),
                Err(why) => Err(Error::Unexpected(why)),
            },
        }
    }
}

/// The layers that copies give, or the first failure among them.
pub open spec fn copied<L>(copies: Seq<Result<Result<L, Error>, String>>) -> Result<Seq<L>, Error>
    decreases copies.len(),
{
    if copies.len() == 0 {
        Ok(Seq::empty())
    } else {
        match copied(copies.drop_last()) {
            Err(e) => Err(e),
            Ok(layers) => match copies.last() {
                Ok(Ok(layer)) => Ok(layers.push(layer)),
                Ok(Err(e)) => Err(e),
                Err(why) => Err(Error::Unexpected(why)),
            },
        }
    }
}

/// What detaching a timeline that has no ancestor comes to.
pub open spec fn report<L>(facts: DetachFacts, a: Answers<L>) -> Result<ProgressView<L>, Error> {
    if a.was_detached is Err {
        Err(Error::ShuttingDown)
    } else if a.was_detached == Ok::<bool, NotInitialized>(false) {
        Err(Error::NoAncestor)
    } else if some_child_is_silent(a.timelines, facts.instance) {
        Err(Error::ShuttingDown)
    } else {
        Ok(ProgressView::Done(in_order(reparented_branches(a.timelines, facts.instance))))
    }
}

/// What moving the layers comes to: first what was rewritten, then what was copied, in the
/// order in which the work was done.
pub open spec fn moved<L>(a: Answers<L>) -> Result<ProgressView<L>, Error> {
    match rewritten(a.rewrites) {
        Err(e) => Err(e),
        Ok(first) => match copied(a.copies) {
            Err(e) => Err(e),
            Ok(rest) => Ok(ProgressView::Prepared(first + rest)),
        },
    }
}

/// Whether a preparation comes so far as to claim the tenant.
pub open spec fn may_claim(facts: DetachFacts) -> bool {
    facts.ancestor is Some && facts.ancestor_lsn.spec_is_valid() && !facts.ancestor->0.has_ancestor
}

/// What preparing to detach a timeline comes to, where `slot` is what the tenant was claimed
/// for before.
pub open spec fn outcome<L>(
    facts: DetachFacts,
    a: Answers<L>,
    slot: Option<OngoingDetach>,
) -> Result<ProgressView<L>, Error> {
    if facts.ancestor is None {
        report(facts, a)
    } else if !facts.ancestor_lsn.spec_is_valid() {
        Err(Error::NoAncestor)
    } else if facts.ancestor->0.has_ancestor {
        Err(Error::TooManyAncestors)
    } else if is_held(slot) {
        Err(Error::OtherTimelineDetachOngoing(slot->0.timeline_id))
    } else if !a.gate_entered {
        Err(Error::ShuttingDown)
    } else if a.failpoint_triggered {
        Err(Error::Failpoint(BEFORE_STARTING_AFTER_LOCKING))
    } else if facts.ancestor_lsn.value >= a.disk_consistent_lsn.value && a.flushed is Err {
        Err(flush_error(a.flushed->Err_0))
    } else if a.layers is None {
        Err(Error::ShuttingDown)
    } else {
        moved(a)
    }
}

/// What the tenant is claimed for after a preparation: what it was before, unless the
/// preparation has claimed it; else the timeline, until the preparation has failed.
pub open spec fn slot_after<L>(
    facts: DetachFacts,
    a: Answers<L>,
    slot: Option<OngoingDetach>,
) -> Option<OngoingDetach> {
    if !may_claim(facts) || is_held(slot) {
        slot
    } else {
        Some(
            OngoingDetach {
                timeline_id: facts.timeline_id,
                finished: outcome(facts, a, slot) is Err,
            },
        )
    }
}

proof fn lemma_failure_stays<L>(rewrites: Seq<Result<Result<Option<L>, Error>, String>>, i: int)
    requires
        0 <= i <= rewrites.len(),
        rewritten(rewrites.take(i)) is Err,
    ensures
        rewritten(rewrites) == rewritten(rewrites.take(i)),
    decreases rewrites.len() - i,
{
    if i < rewrites.len() {
        assert(rewrites.take(i + 1).drop_last() =~= rewrites.take(i));
        lemma_failure_stays(rewrites, i + 1);
    } else {
        assert(rewrites.take(i) =~= rewrites);
    }
}

proof fn lemma_copy_failure_stays<L>(copies: Seq<Result<Result<L, Error>, String>>, i: int)
    requires
        0 <= i <= copies.len(),
        copied(copies.take(i)) is Err,
    ensures
        copied(copies) == copied(copies.take(i)),
    decreases copies.len() - i,
{
    if i < copies.len() {
        assert(copies.take(i + 1).drop_last() =~= copies.take(i));
        lemma_copy_failure_stays(copies, i + 1);
    } else {
        assert(copies.take(i) =~= copies);
    }
}

/// Copying goes on from wherever it is.
proof fn lemma_copying<L>(
    first: Seq<L>,
    rest: Seq<L>,
    a: Answers<L>,
    slot: Option<OngoingDetach>,
    i: nat,
)
    requires
        i <= a.copies.len(),
        copied(a.copies.take(i as int)) == Ok::<Seq<L>, Error>(rest),
    ensures
        run(NextView::AwaitCopy(first + rest), a, slot, i) == settled(
            slot,
            match copied(a.copies) {
                Err(e) => Err(e),
                Ok(all) => Ok(ProgressView::Prepared(first + all)),
            },
        ),
    decreases a.copies.len() - i,
{
    reveal_with_fuel(run, 2);
    if i < a.copies.len() {
        assert(a.copies.take((i + 1) as int).drop_last() =~= a.copies.take(i as int));
        match a.copies[i as int] {
            Ok(Ok(layer)) => {
                assert(first + rest.push(layer) =~= (first + rest).push(layer));
                lemma_copying(first, rest.push(layer), a, slot, i + 1);
            },
            _ => {
                lemma_copy_failure_stays(a.copies, (i + 1) as int);
            },
        }
    } else {
        assert(a.copies.take(i as int) =~= a.copies);
    }
}

/// Copying from its beginning.
proof fn lemma_copies<L>(
    first: Seq<L>,
    state: RewritingView<L>,
    a: Answers<L>,
    slot: Option<OngoingDetach>,
)
    requires
        state.new_layers == first,
    ensures
        run(after_sync(state), a, slot, 0) == settled(
            slot,
            match copied(a.copies) {
                Err(e) => Err(e),
                Ok(all) => Ok(ProgressView::Prepared(first + all)),
            },
        ),
{
    reveal_with_fuel(run, 2);
    assert(first + Seq::<L>::empty() =~= first);
    assert(a.copies.take(0) =~= Seq::empty());
    lemma_copying(first, Seq::empty(), a, slot, 0);
    if a.copies.len() == 0 {
        assert(a.copies =~= Seq::empty());
    }
}

/// Rewriting goes on from wherever it is.
proof fn lemma_rewriting<L>(
    state: RewritingView<L>,
    a: Answers<L>,
    slot: Option<OngoingDetach>,
    i: nat,
)
    requires
        i <= a.rewrites.len(),
        rewritten(a.rewrites.take(i as int)) == Ok::<Seq<L>, Error>(state.new_layers),
    ensures
        run(NextView::AwaitRewrite(state), a, slot, i) == settled(slot, moved(a)),
    decreases a.rewrites.len() - i,
{
    reveal_with_fuel(run, 2);
    if i < a.rewrites.len() {
        assert(a.rewrites.take((i + 1) as int).drop_last() =~= a.rewrites.take(i as int));
        match a.rewrites[i as int] {
            Ok(Ok(Some(layer))) => {
                lemma_rewriting(
                    RewritingView { new_layers: state.new_layers.push(layer), ..state },
                    a,
                    slot,
                    i + 1,
                );
            },
            Ok(Ok(None)) => {
                lemma_rewriting(state, a, slot, i + 1);
            },
            _ => {
                lemma_failure_stays(a.rewrites, (i + 1) as int);
            },
        }
    } else {
        assert(a.rewrites.take(i as int) =~= a.rewrites);
        lemma_copies(state.new_layers, state, a, slot);
        if state.new_layers.len() > 0 {
            assert(run(NextView::SyncDirectory(state), a, slot, 0) == run(
                after_sync(state),
                a,
                slot,
                0,
            ));
        }
    }
}

/// What is done with the ancestor's layers, from reading them on.
proof fn lemma_layers<L>(layers: ReadingLayers, a: Answers<L>, slot: Option<OngoingDetach>)
    ensures
        run(NextView::ReadLayers(layers), a, slot, 0) == settled(
            slot,
            if a.layers is None {
                Err(Error::ShuttingDown)
            } else {
                moved(a)
            },
        ),
{
    reveal_with_fuel(run, 3);
    if let Some(descs) = a.layers {
        let job = layers.job;
        let state = RewritingView {
            job,
            to_copy: historic(descs, job.ancestor_lsn),
            new_layers: Seq::<L>::empty(),
        };
        assert(a.rewrites.take(0) =~= Seq::empty());
        lemma_rewriting(state, a, slot, 0);
        assert(run(NextView::AwaitRewrite(state), a, slot, 0) == run(
            NextView::Rewrite {
                work: straddling(descs, job.ancestor_lsn),
                end_lsn: layers.end_lsn,
                permits: job.options.spec_rewrite_concurrency() as nat,
                rewriting: state,
            },
            a,
            slot,
            0,
        ));
    }
}

/// A whole preparation comes to `outcome`: the first thing that stands in the way decides,
/// and where nothing does, every layer that was rewritten or copied is there. It leaves the
/// tenant claimed for what `slot_after` says.
pub proof fn law_preparation<L>(facts: DetachFacts, a: Answers<L>, slot: Option<OngoingDetach>)
    ensures
        run(begun(facts), a, slot, 0) == (Ended {
            outcome: outcome(facts, a, slot),
            slot: slot_after(facts, a, slot),
        }),
{
    reveal_with_fuel(run, 3);
    if may_claim(facts) {
        let job = Job {
            timeline_id: facts.timeline_id,
            ancestor_lsn: facts.ancestor_lsn,
            options: facts.options,
        };
        let claiming = Claiming { job };
        let entering = EnteringGate { job };
        let passing = PassingFailpoint { job };
        let reading = ReadingDiskConsistentLsn { job };
        let flushing = Flushing { job };
        let layers = ReadingLayers { job, end_lsn: behind(job.ancestor_lsn) };
        let held = slot_after_claim(claiming, slot);
        lemma_layers(layers, a, held);
        assert(run(NextView::FreezeAndFlush(flushing), a, held, 0) == run(
            after_flush(flushing, a.flushed),
            a,
            held,
            0,
        ));
        assert(run(NextView::ReadDiskConsistentLsn(reading), a, held, 0) == run(
            after_disk_consistent_lsn(reading, a.disk_consistent_lsn),
            a,
            held,
            0,
        ));
        assert(run(NextView::PassFailpoint(passing), a, held, 0) == run(
            after_failpoint(passing, a.failpoint_triggered),
            a,
            held,
            0,
        ));
        assert(run(NextView::EnterGate(entering), a, held, 0) == run(
            after_gate(entering, a.gate_entered),
            a,
            held,
            0,
        ));
        assert(run(NextView::ClaimSlot(claiming), a, slot, 0) == run(
            after_claim(claiming, slot),
            a,
            held,
            0,
        ));
    }
}

/// Whether a task came to its end and succeeded.
pub open spec fn is_success<T>(joined: Result<Result<T, Error>, String>) -> bool {
    joined matches Ok(Ok(_))
}

/// Whether every rewrite and every copy succeeded.
pub open spec fn all_succeeded<L>(a: Answers<L>) -> bool {
    &&& forall|i: int| 0 <= i < a.rewrites.len() ==> is_success(#[trigger] a.rewrites[i])
    &&& forall|i: int| 0 <= i < a.copies.len() ==> is_success(#[trigger] a.copies[i])
}

/// Whether a rewrite gave a new layer.
pub open spec fn gave_layer<L>(joined: Result<Result<Option<L>, Error>, String>) -> bool {
    joined matches Ok(Ok(Some(_)))
}

/// The new layers of those rewrites that gave one.
pub open spec fn given_layers<L>(
    rewrites: Seq<Result<Result<Option<L>, Error>, String>>,
) -> Seq<L> {
    rewrites.filter(
        |joined: Result<Result<Option<L>, Error>, String>| gave_layer(joined),
    ).map_values(
        |joined: Result<Result<Option<L>, Error>, String>| joined->Ok_0->Ok_0->Some_0,
    )
}

/// The layers of copies that succeeded.
pub open spec fn copied_layers<L>(copies: Seq<Result<Result<L, Error>, String>>) -> Seq<L> {
    copies.map_values(|joined: Result<Result<L, Error>, String>| joined->Ok_0->Ok_0)
}

proof fn lemma_rewritten<L>(rewrites: Seq<Result<Result<Option<L>, Error>, String>>)
    ensures
        rewritten(rewrites) is Ok <==> forall|i: int|
            0 <= i < rewrites.len() ==> is_success(#[trigger] rewrites[i]),
        rewritten(rewrites) matches Ok(layers) ==> layers == given_layers(rewrites),
    decreases rewrites.len(),
{
    let gave = |joined: Result<Result<Option<L>, Error>, String>| gave_layer(joined);
    if rewrites.len() == 0 {
        crate::seqs::lemma_filter_empty(rewrites, gave);
        assert(given_layers(rewrites) =~= Seq::empty());
    } else {
        let init = rewrites.drop_last();
        lemma_rewritten(init);
        assert(rewrites =~= init.push(rewrites.last()));
        crate::seqs::lemma_filter_push(init, gave, rewrites.last());
        assert(forall|i: int| 0 <= i < init.len() ==> init[i] == rewrites[i]);
        if rewritten(rewrites) is Ok {
            assert(rewritten(rewrites)->Ok_0 =~= given_layers(rewrites));
        } else if rewritten(init) is Err {
            let i = choose|i: int| 0 <= i < init.len() && !is_success(#[trigger] init[i]);
            assert(!is_success(rewrites[i]));
        }
    }
}

proof fn lemma_copied<L>(copies: Seq<Result<Result<L, Error>, String>>)
    ensures
        copied(copies) is Ok <==> forall|i: int|
            0 <= i < copies.len() ==> is_success(#[trigger] copies[i]),
        copied(copies) matches Ok(layers) ==> layers == copied_layers(copies),
    decreases copies.len(),
{
    if copies.len() == 0 {
        assert(copied_layers(copies) =~= Seq::empty());
    } else {
        let init = copies.drop_last();
        lemma_copied(init);
        assert(forall|i: int| 0 <= i < init.len() ==> init[i] == copies[i]);
        if copied(copies) is Ok {
            assert(copied(copies)->Ok_0 =~= copied_layers(copies));
        } else if copied(init) is Err {
            let i = choose|i: int| 0 <= i < init.len() && !is_success(#[trigger] init[i]);
            assert(!is_success(copies[i]));
        }
    }
}

/// Moving the layers succeeds exactly if every single rewrite and copy does, and then it gives
/// every new layer: one of each rewrite that gave one, and one of each copy.
pub proof fn law_moved<L>(a: Answers<L>)
    ensures
        moved(a) is Ok <==> all_succeeded(a),
        all_succeeded(a) ==> moved(a) == Ok::<ProgressView<L>, Error>(
            ProgressView::Prepared(given_layers(a.rewrites) + copied_layers(a.copies)),
        ),
{
    lemma_rewritten(a.rewrites);
    lemma_copied(a.copies);
}

/// Whether nothing stands in the way of moving the layers `descs` of the ancestor.
pub open spec fn reaches_layers<L>(
    facts: DetachFacts,
    a: Answers<L>,
    slot: Option<OngoingDetach>,
    descs: Seq<LayerDesc>,
) -> bool {
    &&& may_claim(facts)
    &&& !is_held(slot)
    &&& a.gate_entered
    &&& !a.failpoint_triggered
    &&& facts.ancestor_lsn.value < a.disk_consistent_lsn.value || a.flushed is Ok
    &&& a.layers == Some(descs)
}

/// Every layer that was handed out is accounted for. Where each layer that straddles the branch
/// point was rewritten, and each other historic one copied, with one answer for each of them
/// and all of these successes, what is prepared is one layer for every rewrite that gave one,
/// then one layer for every historic layer.
pub proof fn law_layers_accounted_for<L>(
    facts: DetachFacts,
    a: Answers<L>,
    slot: Option<OngoingDetach>,
    descs: Seq<LayerDesc>,
)
    requires
        reaches_layers(facts, a, slot, descs),
        a.rewrites.len() == straddling(descs, facts.ancestor_lsn).len(),
        a.copies.len() == historic(descs, facts.ancestor_lsn).len(),
        all_succeeded(a),
    ensures
        ({
            let new = given_layers(a.rewrites);
            let adopted = copied_layers(a.copies);
            &&& outcome(facts, a, slot) == Ok::<ProgressView<L>, Error>(
                ProgressView::Prepared(new + adopted),
            )
            &&& new.len() == a.rewrites.filter(
                |joined: Result<Result<Option<L>, Error>, String>| gave_layer(joined),
            ).len()
            &&& new.len() <= straddling(descs, facts.ancestor_lsn).len()
            &&& (forall|i: int| 0 <= i < a.rewrites.len() ==> gave_layer(#[trigger] a.rewrites[i]))
                ==> new.len() == straddling(descs, facts.ancestor_lsn).len()
            &&& adopted.len() == historic(descs, facts.ancestor_lsn).len()
        }),
{
    law_moved(a);
    let gave = |joined: Result<Result<Option<L>, Error>, String>| gave_layer(joined);
    a.rewrites.lemma_filter_len(gave);
    if forall|i: int| 0 <= i < a.rewrites.len() ==> gave_layer(#[trigger] a.rewrites[i]) {
        crate::seqs::lemma_filter_all(a.rewrites, gave);
    }
}

/// Nothing is prepared unless every single rewrite and copy succeeded.
pub proof fn law_prepared_means_all_moved<L>(
    facts: DetachFacts,
    a: Answers<L>,
    slot: Option<OngoingDetach>,
)
    requires
        outcome(facts, a, slot) matches Ok(ProgressView::Prepared(_)),
    ensures
        all_succeeded(a),
        a.layers is Some,
        outcome(facts, a, slot)->Ok_0->Prepared_0 == given_layers(a.rewrites) + copied_layers(
            a.copies,
        ),
{
    law_moved(a);
}

/// A preparation that fails leaves the tenant as free as it was: a later one that comes so far
/// as to claim it is not turned away on its account.
pub proof fn law_failure_frees_the_tenant<L>(
    facts: DetachFacts,
    a: Answers<L>,
    slot: Option<OngoingDetach>,
    next: Claiming,
)
    requires
        !is_held(slot),
        outcome(facts, a, slot) is Err,
    ensures
        !is_held(slot_after(facts, a, slot)),
        after_claim::<L>(next, slot_after(facts, a, slot)) is EnterGate,
{
}

/// A preparation that succeeds keeps the tenant: every other that comes so far as to claim it
/// is turned away and told for which timeline it is held, until the operation is finished, and
/// no longer.
pub proof fn law_success_holds_the_tenant<L>(
    facts: DetachFacts,
    a: Answers<L>,
    slot: Option<OngoingDetach>,
    other: DetachFacts,
    b: Answers<L>,
)
    requires
        outcome(facts, a, slot) matches Ok(ProgressView::Prepared(_)),
        may_claim(other),
    ensures
        ({
            let held = slot_after(facts, a, slot);
            &&& held == Some(OngoingDetach { timeline_id: facts.timeline_id, finished: false })
            &&& outcome(other, b, held) == Err::<ProgressView<L>, Error>(
                Error::OtherTimelineDetachOngoing(facts.timeline_id),
            )
            &&& slot_after(other, b, held) == held
            &&& !is_held(slot_after_finish(held))
            &&& outcome(other, b, slot_after_finish(held)) == outcome(other, b, None)
        }),
{
}

/// While one detach operation holds a tenant, every other is turned away, is told who
/// holds it, and changes nothing.
pub proof fn law_one_detach_at_a_time<L>(state: Claiming, slot: Option<OngoingDetach>)
    ensures
        is_held(slot_after_claim(state, slot)),
        forall|other: Claiming|
            #![trigger slot_after_claim(other, slot_after_claim(state, slot))]
            {
                let held = slot_after_claim(state, slot);
                &&& slot_after_claim(other, held) == held
                &&& after_claim::<L>(other, held) == NextView::<L>::Done(
                    Err(Error::OtherTimelineDetachOngoing(held->0.timeline_id)),
                )
            },
{
}

/// A timeline's directory is synced exactly when a layer was written into it.
pub proof fn law_sync_after_writing<L>(state: RewritingView<L>)
    ensures
        after_rewrite(state, None) is SyncDirectory <==> state.new_layers.len() > 0,
        after_rewrite(state, None) is Copy <==> state.new_layers.len() == 0,
{
}

/// The work is to cut the layers that straddle the branch point and to copy the other
/// historic ones: as many as did not begin later.
pub proof fn law_work_covers_history<L>(state: ReadingLayers, layers: Seq<LayerDesc>)
    ensures
        ({
            let work = after_layers::<L>(state, Some(layers));
            &&& work is Rewrite
            &&& work->Rewrite_work == straddling(layers, state.job.ancestor_lsn)
            &&& work->Rewrite_rewriting.to_copy == historic(layers, state.job.ancestor_lsn)
            &&& work->Rewrite_work.len() + work->Rewrite_rewriting.to_copy.len() == layers.len()
                - crate::detach::layers::later(layers, state.job.ancestor_lsn).len()
        }),
{
    crate::detach::layers::law_partition_is_complete(layers, state.job.ancestor_lsn);
}

} // verus!
