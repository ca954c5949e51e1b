//! What each decision of a preparation rests on, in terms of what it was told.

use vstd::prelude::*;

use crate::detach::error::{Error, FlushLayerError, NotInitialized};
use crate::detach::layers::LayerDesc;
use crate::detach::order::Branch;
use crate::detach::prepare::{after_claim, after_copy, after_disk_consistent_lsn, after_failpoint, after_flush, after_gate, after_layers, after_lineage, after_rewrite, after_sync, after_timelines, begun, is_limit, reparented_branches, slot_after_claim, slot_after_finish, Claiming, DetachFacts, EnteringGate, Flushing, KnownTimeline, NextView, OngoingDetach, PassingFailpoint, ProgressView, ReadingDiskConsistentLsn, ReadingLayers, ReadingLineage, ReadingTimelines, RewritingView};
use crate::detach::rewrite::{after_download, after_finish, after_records, after_upload, after_writer, copy_begun, Cut, CopyingRecords, CreatingWriter, Downloading, PrefixCopy};
use crate::ids::{Lsn, TimelineId};

verus! {

/// A timeline is only detached from an ancestor that is there, at a position that is not zero,
/// and that is a root itself. A timeline without an ancestor may have been detached before.
pub proof fn law_what_can_be_detached<L>(facts: DetachFacts)
    ensures
        facts.ancestor is None <==> begun::<L>(facts) is ReadLineage,
        begun::<L>(facts) matches NextView::ReadLineage(state) ==> state.instance
            == facts.instance,
        facts.ancestor is Some && facts.ancestor_lsn.value == 0 ==> begun::<L>(facts)
            == NextView::<L>::Done(Err(Error::NoAncestor)),
        facts.ancestor is Some && facts.ancestor_lsn.value > 0 && facts.ancestor->0.has_ancestor
            ==> begun::<L>(facts) == NextView::<L>::Done(Err(Error::TooManyAncestors)),
        begun::<L>(facts) is ClaimSlot <==> facts.ancestor is Some && facts.ancestor_lsn.value > 0
            && !facts.ancestor->0.has_ancestor,
        begun::<L>(facts) matches NextView::ClaimSlot(state) ==> state.job.timeline_id
            == facts.timeline_id && state.job.ancestor_lsn == facts.ancestor_lsn
            && state.job.options == facts.options,
{
}

/// Of a timeline without an ancestor, only one that was detached before has something to
/// report; and whether it was cannot be said around shutdown.
pub proof fn law_detached_before<L>(
    state: ReadingLineage,
    was_detached: Result<bool, NotInitialized>,
)
    ensures
        was_detached is Err <==> after_lineage::<L>(state, was_detached) == NextView::<L>::Done(
            Err(Error::ShuttingDown),
        ),
        was_detached == Ok::<bool, NotInitialized>(false) <==> after_lineage::<L>(
            state,
            was_detached,
        ) == NextView::<L>::Done(Err(Error::NoAncestor)),
        was_detached == Ok::<bool, NotInitialized>(true) <==> after_lineage::<L>(
            state,
            was_detached,
        ) is ReadTimelines,
        after_lineage::<L>(state, was_detached) matches NextView::ReadTimelines(next)
            ==> next.instance == state.instance,
{
}

/// A timeline that was detached before reports those of its own branches that say they were
/// reparented, and no others.
pub proof fn law_reported_branches(timelines: Seq<KnownTimeline>, instance: usize)
    ensures
        reparented_branches(timelines, instance) == timelines.filter(
            |t: KnownTimeline|
                t.ancestor is Some && t.ancestor->0 == instance && t.reparented is Ok
                    && t.reparented->Ok_0,
        ).map_values(
            |t: KnownTimeline| Branch { ancestor_lsn: t.ancestor_lsn, timeline_id: t.timeline_id },
        ),
{
    let told = |t: KnownTimeline|
        t.ancestor is Some && t.ancestor->0 == instance && t.reparented is Ok
            && t.reparented->Ok_0;
    let kept = |t: KnownTimeline|
        crate::detach::prepare::is_child(t, instance) && t.reparented == Ok::<bool, NotInitialized>(
            true,
        );
    assert(told =~= kept);
}

/// The report fails exactly if one of the timeline's own branches cannot say whether it was
/// reparented; what other timelines say is of no consequence.
pub proof fn law_silent_branches<L>(state: ReadingTimelines, timelines: Seq<KnownTimeline>)
    ensures
        (exists|i: int|
            0 <= i < timelines.len() && (#[trigger] timelines[i]).ancestor == Some(state.instance)
                && timelines[i].reparented is Err) <==> after_timelines::<L>(state, timelines)
            == NextView::<L>::Done(Err(Error::ShuttingDown)),
        (forall|i: int|
            0 <= i < timelines.len() && (#[trigger] timelines[i]).ancestor == Some(state.instance)
                ==> timelines[i].reparented is Ok) ==> (after_timelines::<L>(state, timelines)
            matches NextView::Done(Ok(ProgressView::Done(_)))),
{
    if exists|i: int|
        0 <= i < timelines.len() && (#[trigger] timelines[i]).ancestor == Some(state.instance)
            && timelines[i].reparented is Err {
        let i = choose|i: int|
            0 <= i < timelines.len() && (#[trigger] timelines[i]).ancestor == Some(state.instance)
                && timelines[i].reparented is Err;
        assert(crate::detach::prepare::is_child(timelines[i], state.instance));
    }
}

/// A tenant can be claimed exactly if nobody has claimed it or whoever has is finished. A claim
/// names the timeline; one that is refused names the timeline that is in the way, and leaves
/// everything as it was.
pub proof fn law_claim<L>(state: Claiming, slot: Option<OngoingDetach>)
    ensures
        after_claim::<L>(state, slot) is EnterGate <==> slot is None || slot->0.finished,
        slot is None || slot->0.finished ==> {
            &&& after_claim::<L>(state, slot)->EnterGate_0.job == state.job
            &&& slot_after_claim(state, slot) is Some
            &&& slot_after_claim(state, slot)->0.timeline_id == state.job.timeline_id
            &&& !slot_after_claim(state, slot)->0.finished
        },
        slot is Some && !slot->0.finished ==> {
            &&& after_claim::<L>(state, slot) == NextView::<L>::Done(
                Err(Error::OtherTimelineDetachOngoing(slot->0.timeline_id)),
            )
            &&& slot_after_claim(state, slot) == slot
        },
{
}

/// Finishing makes room for everybody, and keeps who it was.
pub proof fn law_finish<L>(state: Claiming, slot: Option<OngoingDetach>)
    ensures
        after_claim::<L>(state, slot_after_finish(slot)) is EnterGate,
        slot_after_finish(slot) is Some <==> slot is Some,
        slot is Some ==> slot_after_finish(slot)->0.finished && slot_after_finish(
            slot,
        )->0.timeline_id == slot->0.timeline_id,
{
}

/// A timeline that is being stopped is not entered, and a preparation stops at its failpoint
/// exactly if that is triggered.
pub proof fn law_gate_and_failpoint<L>(
    entering: EnteringGate,
    entered: bool,
    passing: PassingFailpoint,
    triggered: bool,
)
    ensures
        entered <==> after_gate::<L>(entering, entered) is PassFailpoint,
        entered ==> after_gate::<L>(entering, entered)->PassFailpoint_0.job == entering.job,
        !entered ==> after_gate::<L>(entering, entered) == NextView::<L>::ReleaseSlot(
            Error::ShuttingDown,
        ),
        !triggered <==> after_failpoint::<L>(passing, triggered) is ReadDiskConsistentLsn,
        !triggered ==> after_failpoint::<L>(passing, triggered)->ReadDiskConsistentLsn_0.job
            == passing.job,
        triggered ==> (after_failpoint::<L>(passing, triggered) matches NextView::ReleaseSlot(
            Error::Failpoint(name),
        ) && name@ == "timeline-detach-ancestor::before_starting_after_locking"@),
{
}

/// The ancestor is flushed exactly if the branch point is not below what is on disk; and where
/// it is, so it is for everything further on disk.
pub proof fn law_flush_only_where_needed<L>(
    state: ReadingDiskConsistentLsn,
    on_disk: Lsn,
    further: Lsn,
)
    ensures
        after_disk_consistent_lsn::<L>(state, on_disk) is FreezeAndFlush <==> on_disk.value
            <= state.job.ancestor_lsn.value,
        after_disk_consistent_lsn::<L>(state, on_disk) is ReadLayers <==> on_disk.value
            > state.job.ancestor_lsn.value,
        on_disk.value <= further.value && after_disk_consistent_lsn::<L>(state, on_disk)
            is ReadLayers ==> after_disk_consistent_lsn::<L>(state, further) is ReadLayers,
        after_disk_consistent_lsn::<L>(state, on_disk) matches NextView::FreezeAndFlush(next)
            ==> next.job == state.job,
{
}

/// However the layers come to be read, they are going to be cut right behind the branch point.
pub proof fn law_cut_right_behind<L>(
    reading: ReadingDiskConsistentLsn,
    on_disk: Lsn,
    flushing: Flushing,
    flushed: Result<(), FlushLayerError>,
)
    requires
        flushing.job.ancestor_lsn.value < u64::MAX,
    ensures
        after_disk_consistent_lsn::<L>(reading, on_disk) matches NextView::ReadLayers(next) ==> {
            &&& next.end_lsn.value == reading.job.ancestor_lsn.value + 1
            &&& next.job == reading.job
        },
        flushed is Ok <==> after_flush::<L>(flushing, flushed) is ReadLayers,
        after_flush::<L>(flushing, flushed) matches NextView::ReadLayers(next) ==> {
            &&& next.end_lsn.value == flushing.job.ancestor_lsn.value + 1
            &&& next.job == flushing.job
        },
{
}

/// A flush that fails because things are being stopped is reported as such; any other failure
/// is reported as it is.
pub proof fn law_failed_flush<L>(state: Flushing, e: FlushLayerError)
    ensures
        after_flush::<L>(state, Err(e)) is ReleaseSlot,
        e is Cancelled || e is NotRunning ==> after_flush::<L>(state, Err(e))->ReleaseSlot_0
            == Error::ShuttingDown,
        e is CreateImageLayersError || e is Other ==> after_flush::<L>(
            state,
            Err(e),
        )->ReleaseSlot_0 == Error::FlushAncestor(e),
{
}

/// The layers that are cut are the delta layers around the branch point, up to the position
/// that was decided on, and no more at once than the options allow; the others that began no
/// later are kept for copying. Nothing is prepared yet.
pub proof fn law_work_by_position<L>(state: ReadingLayers, layers: Seq<LayerDesc>, d: LayerDesc)
    requires
        layers.contains(d),
    ensures
        ({
            let next = after_layers::<L>(state, Some(layers));
            let at = state.job.ancestor_lsn.value;
            &&& next is Rewrite
            &&& next->Rewrite_work.contains(d) <==> d.is_delta && d.lsn_start.value <= at
                && d.lsn_end.value > at
            &&& next->Rewrite_rewriting.to_copy.contains(d) <==> d.lsn_start.value <= at && (
            !d.is_delta || d.lsn_end.value <= at)
            &&& next->Rewrite_end_lsn == state.end_lsn
            &&& next->Rewrite_permits == state.job.options.spec_rewrite_concurrency()
            &&& next->Rewrite_rewriting.job == state.job
            &&& next->Rewrite_rewriting.new_layers.len() == 0
        }),
        after_layers::<L>(state, None) == NextView::<L>::ReleaseSlot(Error::ShuttingDown),
{
    let i = choose|i: int| 0 <= i < layers.len() && layers[i] == d;
    crate::detach::layers::law_nothing_needed_is_left_behind(layers, state.job.ancestor_lsn);
    assert(layers[i] == d);
}

/// A rewrite adds the layer that it gave, if it gave one, behind those that are there, and
/// changes nothing else; one that failed is the end.
pub proof fn law_rewrite_adds<L>(
    state: RewritingView<L>,
    joined: Result<Result<Option<L>, Error>, String>,
)
    ensures
        ({
            let next = after_rewrite(state, Some(joined));
            match joined {
                Ok(Ok(given)) => {
                    &&& next is AwaitRewrite
                    &&& next->AwaitRewrite_0.job == state.job
                    &&& next->AwaitRewrite_0.to_copy == state.to_copy
                    &&& next->AwaitRewrite_0.new_layers == match given {
                        Some(layer) => state.new_layers.push(layer),
                        None => state.new_layers,
                    }
                },
                Ok(Err(e)) => next == NextView::<L>::ReleaseSlot(e),
                Err(why) => next == NextView::<L>::ReleaseSlot(Error::Unexpected(why)),
            }
        }),
{
}

/// Once all is rewritten, exactly the layers that were kept for it are copied, no more at once
/// than the options allow, and what was rewritten is kept.
pub proof fn law_copy_what_was_kept<L>(state: RewritingView<L>)
    ensures
        after_sync(state) is Copy,
        after_sync(state)->Copy_work == state.to_copy,
        after_sync(state)->Copy_permits == state.job.options.spec_copy_concurrency(),
        after_sync(state)->Copy_new_layers == state.new_layers,
        state.new_layers.len() == 0 ==> after_rewrite(state, None) == after_sync(state),
        state.new_layers.len() > 0 ==> after_rewrite(state, None) == NextView::<L>::SyncDirectory(
            state,
        ),
{
}

/// A copy adds its layer behind those that are there; one that failed is the end; and when no
/// more are to come, all that is there is prepared.
pub proof fn law_copy_adds<L>(new_layers: Seq<L>, joined: Result<Result<L, Error>, String>)
    ensures
        after_copy(new_layers, Some(joined)) == match joined {
            Ok(Ok(layer)) => NextView::<L>::AwaitCopy(new_layers.push(layer)),
            Ok(Err(e)) => NextView::<L>::ReleaseSlot(e),
            Err(why) => NextView::<L>::ReleaseSlot(Error::Unexpected(why)),
        },
        after_copy(new_layers, None) == NextView::<L>::Done(
            Ok(ProgressView::Prepared(new_layers)),
        ),
{
}

/// Options allow at least one task at once, and no more than fit eight times into the largest
/// number.
pub proof fn law_limits(concurrency: usize)
    ensures
        is_limit(concurrency) <==> concurrency >= 1 && 8 * concurrency <= usize::MAX,
        is_limit(2) && is_limit(100),
{
}

/// The new layer begins where the old one does, in keys and in positions, and ends where it
/// was to be cut; its keys end where those of the old layer do, and the records that go into it
/// are those before the cut.
pub proof fn law_new_layer_covers<L>(
    end_lsn: Lsn,
    layer: LayerDesc,
    records: Result<usize, String>,
)
    ensures
        copy_begun::<L>(end_lsn, layer, true) == PrefixCopy::<L>::Done(Err(Error::ShuttingDown)),
        ({
            let first = copy_begun::<L>(end_lsn, layer, false);
            &&& first is CreateWriter
            &&& first->key_start == layer.key_start
            &&& first->lsn_start == layer.lsn_start
            &&& first->lsn_end == end_lsn
            &&& first->creating.layer == layer
            &&& first->creating.end_lsn == end_lsn
        }),
        after_writer::<L>(CreatingWriter { layer, end_lsn }, Ok(())) == PrefixCopy::<L>::Download(
            Downloading { layer, end_lsn },
        ),
        after_download::<L>(Downloading { layer, end_lsn }, Ok(())) is CopyRecords,
        after_download::<L>(Downloading { layer, end_lsn }, Ok(()))->CopyRecords_end_lsn == end_lsn,
        after_download::<L>(Downloading { layer, end_lsn }, Ok(()))->copying.layer == layer,
        after_records::<L>(CopyingRecords { layer }, records) is Finish <==> records is Ok
            && records->Ok_0 > 0,
        after_records::<L>(CopyingRecords { layer }, records) is Finish ==> after_records::<L>(
            CopyingRecords { layer },
            records,
        )->key_end == layer.key_end,
        records == Ok::<usize, String>(0) ==> after_records::<L>(CopyingRecords { layer }, records)
            == PrefixCopy::<L>::Done(Ok(None)),
{
}

/// Whatever goes wrong while a layer is cut is reported with its reason: what is wrong with the
/// new layer, with the download, and with the upload is told apart.
pub proof fn law_cut_failures<L>(layer: LayerDesc, end_lsn: Lsn, new_layer: L, why: String)
    ensures
        after_writer::<L>(CreatingWriter { layer, end_lsn }, Err(why)) == PrefixCopy::<L>::Done(
            Err(Error::CopyDeltaPrefix(why)),
        ),
        after_download::<L>(Downloading { layer, end_lsn }, Err(why)) == PrefixCopy::<L>::Done(
            Err(Error::RewrittenDeltaDownloadFailed(why)),
        ),
        after_records::<L>(CopyingRecords { layer }, Err(why)) == PrefixCopy::<L>::Done(
            Err(Error::CopyDeltaPrefix(why)),
        ),
        after_finish::<L>(Err(why)) == PrefixCopy::<L>::Done(Err(Error::CopyDeltaPrefix(why))),
        after_finish::<L>(Ok(new_layer)) == PrefixCopy::<L>::Done(Ok(Some(new_layer))),
        after_upload(new_layer, Err(why)) == Cut::<L>::Done(Err(Error::UploadRewritten(why))),
        after_upload(new_layer, Ok(())) == Cut::<L>::Done(Ok(Some(new_layer))),
{
}

/// What the errors of a detach say, and what clients are told. A timeline without an ancestor
/// is a conflict, too many ancestors a bad request; what is being stopped, and a tenant that is
/// held, can be tried again; everything else is an internal error, with its reason.
pub proof fn law_what_errors_say(id: TimelineId, e: FlushLayerError, why: String, name: &'static str)
    ensures
        Error::NoAncestor.message() == "no ancestors"@,
        Error::TooManyAncestors.message() == "too many ancestors"@,
        Error::ShuttingDown.message() == "shutting down, please retry later"@,
        Error::FlushAncestor(e).message() == "flushing failed"@,
        Error::RewrittenDeltaDownloadFailed(why).message() == "layer download failed"@,
        Error::CopyDeltaPrefix(why).message() == "copying LSN prefix locally failed"@,
        Error::UploadRewritten(why).message() == "upload rewritten layer"@,
        Error::OtherTimelineDetachOngoing(id).message()
            == "ancestor is already being detached by: "@ + crate::text::hex_text(
            id.value as int,
            32,
        ),
        Error::CopyFailed(why).message() == "remote copying layer failed"@,
        Error::Unexpected(why).message() == "unexpected error"@,
        Error::Failpoint(name).message() == "failpoint: "@ + name@,
        FlushLayerError::Cancelled.text() == "timeline shutting down"@,
        FlushLayerError::NotRunning(why).text() == why@,
        FlushLayerError::CreateImageLayersError(why).text() == why@,
        FlushLayerError::Other(why).text() == why@,
{
}

/// What clients are told of a failed detach, over all errors.
pub proof fn law_what_clients_are_told(error: Error)
    ensures
        error.told() is Conflict <==> error is NoAncestor,
        error.told() is BadRequest <==> error is TooManyAncestors,
        error.told() is ShuttingDown <==> error is ShuttingDown,
        error.told() is ResourceUnavailable <==> error is OtherTimelineDetachOngoing,
        error.told() is InternalServerError || error.told() is Conflict || error.told()
            is BadRequest || error.told() is ShuttingDown || error.told() is ResourceUnavailable,
        error is NoAncestor ==> error.told()->Conflict_0 == "no ancestors"@,
        error is TooManyAncestors ==> error.told()->BadRequest_0.message == "too many ancestors"@
            && error.told()->BadRequest_0.cause is None,
        error is OtherTimelineDetachOngoing ==> error.told()->ResourceUnavailable_0
            == "other timeline detach is already ongoing"@,
        error.told() matches crate::error::ApiErrorView::InternalServerError(report)
            ==> report.message == error.message() && report.cause == error.cause(),
        error matches Error::FlushAncestor(e) ==> error.cause() == Some(e.text()),
        error matches Error::RewrittenDeltaDownloadFailed(why) ==> error.cause() == Some(why@),
        error matches Error::CopyDeltaPrefix(why) ==> error.cause() == Some(why@),
        error matches Error::UploadRewritten(why) ==> error.cause() == Some(why@),
        error matches Error::CopyFailed(why) ==> error.cause() == Some(why@),
        error matches Error::Unexpected(why) ==> error.cause() == Some(why@),
        error is Failpoint ==> error.cause() is None,
{
}

} // verus!
