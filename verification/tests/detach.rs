use neon_storage::detach::complete::{
    complete, Completion, DeleteProgress, Detaching, ReparentOutcome, TenantTimeline,
};
use neon_storage::detach::error::{Error, FlushLayerError, NotInitialized};
use neon_storage::detach::layers::{adopt, partition_work, Key, LayerDesc, LayerMetadata};
use neon_storage::detach::order::{report_in_order, Branch};
use neon_storage::detach::prepare::{
    begin, finish, AncestorDetached, AncestorFacts, DetachFacts, KnownTimeline, Next,
    OngoingDetach, Options, PreparedTimelineDetach, Progress,
};
use neon_storage::detach::rewrite::{
    copy_lsn_prefix, copy_stepped, remote_copy, upload_rewritten_layer, Cut, PrefixCopy,
};
use neon_storage::error::{ApiError, Report};
use neon_storage::ids::{Generation, Lsn, TimelineId};

fn lsn(value: u64) -> Lsn {
    Lsn { value }
}

fn tl(value: u128) -> TimelineId {
    TimelineId { value }
}

fn key(byte: u8) -> Key {
    Key { bytes: [byte; 18] }
}

fn layer(start: u64, end: u64, is_delta: bool) -> LayerDesc {
    LayerDesc {
        key_start: key(1),
        key_end: key(9),
        lsn_start: lsn(start),
        lsn_end: lsn(end),
        is_delta,
    }
}

fn facts(ancestor: Option<bool>, ancestor_lsn: u64) -> DetachFacts {
    DetachFacts {
        instance: 1,
        timeline_id: tl(7),
        ancestor: ancestor.map(|has_ancestor| AncestorFacts { has_ancestor }),
        ancestor_lsn: lsn(ancestor_lsn),
        options: Options::default(),
    }
}

fn outcome(next: Next<&'static str>) -> Result<Progress<&'static str>, Error> {
    match next {
        Next::Done(outcome) => outcome,
        other => panic!("not done: {other:?}"),
    }
}

/// What a preparation that has claimed the tenant fails with; that frees the tenant.
fn failure(next: Next<&'static str>) -> Error {
    let held = OngoingDetach { timeline_id: tl(7), finished: false };
    let mut slot = Some(held);
    match next {
        Next::ReleaseSlot(releasing) => {
            let outcome = outcome(releasing.release(&mut slot));
            assert_eq!(slot, Some(OngoingDetach { finished: true, ..held }));
            outcome.map(|_| ()).unwrap_err()
        }
        other => panic!("not released: {other:?}"),
    }
}

fn child(id: u128, at: u64, ancestor: usize, reparented: Result<bool, NotInitialized>) -> KnownTimeline {
    KnownTimeline {
        timeline_id: tl(id),
        ancestor: Some(ancestor),
        ancestor_lsn: lsn(at),
        reparented,
    }
}

fn ids(progress: Progress<&'static str>) -> Vec<u128> {
    match progress {
        Progress::Done(done) => done.reparented_timelines.iter().map(|t| t.value).collect(),
        Progress::Prepared(_) => panic!("only prepared"),
    }
}

#[test]
fn options_have_defaults_and_are_never_zero() {
    let options = Options::default();
    assert_eq!(options.rewrite_concurrency(), 2);
    assert_eq!(options.copy_concurrency(), 100);
    assert!(Options::new(0, 1).is_none());
    assert!(Options::new(1, 0).is_none());
    assert!(Options::new(usize::MAX, 1).is_none());
    let options = Options::new(3, 4).unwrap();
    assert_eq!(options.rewrite_concurrency(), 3);
    assert_eq!(options.copy_concurrency(), 4);
}

#[test]
fn reports_are_sorted_by_branch_point_then_identifier() {
    let branches = vec![
        Branch { ancestor_lsn: lsn(30), timeline_id: tl(1) },
        Branch { ancestor_lsn: lsn(10), timeline_id: tl(9) },
        Branch { ancestor_lsn: lsn(10), timeline_id: tl(2) },
    ];
    assert_eq!(report_in_order(&branches), vec![tl(2), tl(9), tl(1)]);
    let other_way = vec![branches[2], branches[0], branches[1]];
    assert_eq!(report_in_order(&other_way), report_in_order(&branches));
    assert_eq!(report_in_order(&Vec::new()), vec![]);
}

#[test]
fn layers_are_partitioned_at_the_branch_point() {
    let layers = vec![
        layer(5, 10, true),   // ends at the branch point: historic
        layer(5, 11, true),   // straddles
        layer(10, 11, true),  // starts at the branch point: straddles
        layer(11, 20, true),  // later
        layer(10, 11, false), // an image is never cut
        layer(3, 30, false),
    ];
    let (later, straddling, rest) = partition_work(lsn(10), &layers);
    assert_eq!(later, 1);
    assert_eq!(
        straddling.iter().map(|l| l.lsn_start.value).collect::<Vec<_>>(),
        vec![5, 10]
    );
    assert_eq!(
        rest.iter().map(|l| (l.lsn_start.value, l.is_delta)).collect::<Vec<_>>(),
        vec![(5, true), (10, false), (3, false)]
    );
    assert_eq!(later + straddling.len() + rest.len(), layers.len());
}

#[test]
fn timelines_without_ancestor_report_an_earlier_detach() {
    let next: Next<&str> = begin(&facts(None, 0));
    let Next::ReadLineage(state) = next else {
        panic!("lineage is not asked for")
    };
    assert!(matches!(
        outcome(state.lineage_read(Err(NotInitialized))),
        Err(Error::ShuttingDown)
    ));
    assert!(matches!(
        outcome(state.lineage_read(Ok(false))),
        Err(Error::NoAncestor)
    ));
    let Next::ReadTimelines(state) = state.lineage_read::<&str>(Ok(true)) else {
        panic!("timelines are not asked for")
    };
    let mut timelines = vec![
        child(3, 50, 1, Ok(true)),
        child(4, 40, 1, Ok(true)),
        child(5, 40, 1, Ok(false)),
        child(6, 40, 2, Ok(true)),
        child(8, 40, 2, Err(NotInitialized)),
    ];
    timelines.push(KnownTimeline { ancestor: None, ..timelines[4] });
    assert_eq!(ids(outcome(state.timelines_read(&timelines)).unwrap()), vec![4, 3]);
    timelines.push(child(9, 1, 1, Err(NotInitialized)));
    assert!(matches!(
        outcome(state.timelines_read(&timelines)),
        Err(Error::ShuttingDown)
    ));
}

#[test]
fn ancestors_have_to_fit() {
    assert!(matches!(outcome(begin(&facts(Some(false), 0))), Err(Error::NoAncestor)));
    assert!(matches!(outcome(begin(&facts(Some(true), 0))), Err(Error::NoAncestor)));
    assert!(matches!(outcome(begin(&facts(Some(true), 10))), Err(Error::TooManyAncestors)));
}

#[test]
fn one_detach_at_a_time() {
    let Next::ClaimSlot(claiming) = begin::<&str>(&facts(Some(false), 10)) else {
        panic!("nothing is claimed")
    };
    let mut slot = None;
    assert!(matches!(claiming.claim::<&str>(&mut slot), Next::EnterGate(_)));
    let claimed = slot.unwrap();
    assert_eq!(claimed, OngoingDetach { timeline_id: tl(7), finished: false });
    assert!(matches!(
        outcome(claiming.claim(&mut slot)),
        Err(Error::OtherTimelineDetachOngoing(id)) if id == tl(7)
    ));
    assert_eq!(slot, Some(claimed));
    slot = Some(OngoingDetach { timeline_id: tl(2), finished: true });
    assert!(matches!(claiming.claim::<&str>(&mut slot), Next::EnterGate(_)));
    assert_eq!(slot, Some(claimed));
}

#[test]
fn a_finished_detach_frees_the_tenant() {
    let Next::ClaimSlot(claiming) = begin::<&str>(&facts(Some(false), 10)) else {
        panic!("nothing is claimed")
    };
    let mut slot = None;
    finish(&mut slot);
    assert_eq!(slot, None);
    assert!(matches!(claiming.claim::<&str>(&mut slot), Next::EnterGate(_)));
    assert!(matches!(
        outcome(claiming.claim(&mut slot)),
        Err(Error::OtherTimelineDetachOngoing(id)) if id == tl(7)
    ));
    finish(&mut slot);
    assert_eq!(slot, Some(OngoingDetach { timeline_id: tl(7), finished: true }));
    assert!(matches!(claiming.claim::<&str>(&mut slot), Next::EnterGate(_)));
}

#[test]
fn a_failed_preparation_frees_the_tenant() {
    let Next::ClaimSlot(claiming) = begin::<&str>(&facts(Some(false), 10)) else {
        panic!("nothing is claimed")
    };
    let mut slot = None;
    let Next::EnterGate(entering) = claiming.claim::<&str>(&mut slot) else {
        panic!("not entered")
    };
    let Next::ReleaseSlot(releasing) = entering.gate_entered::<&str>(false) else {
        panic!("not released")
    };
    assert!(matches!(
        outcome(releasing.release(&mut slot)),
        Err(Error::ShuttingDown)
    ));
    assert!(matches!(claiming.claim::<&str>(&mut slot), Next::EnterGate(_)));
}

#[test]
fn preparing_stops_where_something_is_in_the_way() {
    let Next::ClaimSlot(claiming) = begin::<&str>(&facts(Some(false), 10)) else {
        panic!("nothing is claimed")
    };
    let Next::EnterGate(entering) = claiming.claim::<&str>(&mut None) else {
        panic!("not entered")
    };
    assert!(matches!(failure(entering.gate_entered(false)), Error::ShuttingDown));
    let Next::PassFailpoint(passing) = entering.gate_entered::<&str>(true) else {
        panic!("no failpoint")
    };
    assert!(matches!(
        failure(passing.failpoint_passed(true)),
        Error::Failpoint("timeline-detach-ancestor::before_starting_after_locking")
    ));
    let Next::ReadDiskConsistentLsn(reading) = passing.failpoint_passed::<&str>(false) else {
        panic!("disk consistent position is not asked for")
    };
    assert!(matches!(reading.disk_consistent_lsn_read::<&str>(lsn(11)), Next::ReadLayers(_)));
    let Next::FreezeAndFlush(flushing) = reading.disk_consistent_lsn_read::<&str>(lsn(10)) else {
        panic!("no flush")
    };
    assert!(matches!(
        failure(flushing.flushed(Err(FlushLayerError::Cancelled))),
        Error::ShuttingDown
    ));
    assert!(matches!(
        failure(flushing.flushed(Err(FlushLayerError::NotRunning("x".to_string())))),
        Error::ShuttingDown
    ));
    assert!(matches!(
        failure(flushing.flushed(Err(FlushLayerError::Other("x".to_string())))),
        Error::FlushAncestor(_)
    ));
    assert!(matches!(
        failure(flushing.flushed(Err(FlushLayerError::CreateImageLayersError("x".to_string())))),
        Error::FlushAncestor(_)
    ));
    let Next::ReadLayers(layers) = flushing.flushed::<&str>(Ok(())) else {
        panic!("layers are not asked for")
    };
    assert_eq!(layers.end_lsn, lsn(11));
    assert!(matches!(failure(layers.layers_read(None)), Error::ShuttingDown));
}

fn after_layers(layers: &Vec<LayerDesc>) -> Next<&'static str> {
    let Next::ClaimSlot(claiming) = begin::<&str>(&facts(Some(false), 10)) else {
        panic!("nothing is claimed")
    };
    let Next::EnterGate(entering) = claiming.claim::<&str>(&mut None) else {
        panic!("not entered")
    };
    let Next::PassFailpoint(passing) = entering.gate_entered::<&str>(true) else {
        panic!("no failpoint")
    };
    let Next::ReadDiskConsistentLsn(reading) = passing.failpoint_passed::<&str>(false) else {
        panic!("disk consistent position is not asked for")
    };
    let Next::ReadLayers(reading) = reading.disk_consistent_lsn_read::<&str>(lsn(100)) else {
        panic!("layers are not asked for")
    };
    reading.layers_read(Some(layers))
}

#[test]
fn a_whole_preparation() {
    let layers = vec![layer(5, 20, true), layer(1, 5, true), layer(30, 40, true)];
    let Next::Rewrite { work, end_lsn, limiter, rewriting } = after_layers(&layers) else {
        panic!("nothing is rewritten")
    };
    assert_eq!(work.len(), 1);
    assert_eq!(work[0].lsn_start, lsn(5));
    assert_eq!(end_lsn, lsn(11));
    assert_eq!(limiter.available_permits(), 2);
    let Next::AwaitRewrite(rewriting) = rewriting.rewrite_joined(Some(Ok(Ok(Some("new"))))) else {
        panic!("rewriting has ended")
    };
    let Next::SyncDirectory(syncing) = rewriting.rewrite_joined(None) else {
        panic!("not synced")
    };
    let Next::Copy { work, limiter, copying } = syncing.directory_synced() else {
        panic!("nothing is copied")
    };
    assert_eq!(work.len(), 1);
    assert_eq!(work[0].lsn_end, lsn(5));
    assert_eq!(limiter.available_permits(), 100);
    let Next::AwaitCopy(copying) = copying.copy_joined(Some(Ok(Ok("copy")))) else {
        panic!("copying has ended")
    };
    match outcome(copying.copy_joined(None)).unwrap() {
        Progress::Prepared(prepared) => assert_eq!(prepared.layers, vec!["new", "copy"]),
        Progress::Done(_) => panic!("already done"),
    }
}

#[test]
fn every_layer_is_accounted_for() {
    // two to rewrite, of which one gives nothing, and three to copy
    let layers = vec![
        layer(5, 20, true),
        layer(1, 5, true),
        layer(10, 11, true),
        layer(2, 9, true),
        layer(4, 5, false),
        layer(30, 40, true),
    ];
    let Next::Rewrite { work, mut rewriting, .. } = after_layers(&layers) else {
        panic!("nothing is rewritten")
    };
    assert_eq!(work.len(), 2);
    for answer in [Some("new"), None] {
        rewriting = match rewriting.rewrite_joined(Some(Ok(Ok(answer)))) {
            Next::AwaitRewrite(rewriting) => rewriting,
            other => panic!("rewriting has ended: {other:?}"),
        };
    }
    let Next::SyncDirectory(syncing) = rewriting.rewrite_joined(None) else {
        panic!("not synced")
    };
    let Next::Copy { work, mut copying, .. } = syncing.directory_synced() else {
        panic!("nothing is copied")
    };
    assert_eq!(work.len(), 3);
    for answer in ["a", "b", "c"] {
        copying = match copying.copy_joined(Some(Ok(Ok(answer)))) {
            Next::AwaitCopy(copying) => copying,
            other => panic!("copying has ended: {other:?}"),
        };
    }
    match outcome(copying.copy_joined(None)).unwrap() {
        Progress::Prepared(prepared) => assert_eq!(prepared.layers, vec!["new", "a", "b", "c"]),
        Progress::Done(_) => panic!("already done"),
    }
}

#[test]
fn nothing_rewritten_nothing_synced() {
    let layers = vec![layer(5, 20, true)];
    let Next::Rewrite { rewriting, .. } = after_layers(&layers) else {
        panic!("nothing is rewritten")
    };
    let Next::AwaitRewrite(rewriting) = rewriting.rewrite_joined(Some(Ok(Ok(None)))) else {
        panic!("rewriting has ended")
    };
    let Next::Copy { work, .. } = rewriting.rewrite_joined(None) else {
        panic!("not copied next")
    };
    assert!(work.is_empty());
}

#[test]
fn failing_tasks_end_the_preparation() {
    let layers = vec![layer(5, 20, true)];
    let start = || match after_layers(&layers) {
        Next::Rewrite { rewriting, .. } => rewriting,
        _ => panic!("nothing is rewritten"),
    };
    assert!(matches!(
        failure(start().rewrite_joined(Some(Ok(Err(Error::ShuttingDown))))),
        Error::ShuttingDown
    ));
    assert!(matches!(
        failure(start().rewrite_joined(Some(Err("panic".to_string())))),
        Error::Unexpected(why) if why == "panic"
    ));
    let copying = || match start().rewrite_joined(None) {
        Next::Copy { copying, .. } => copying,
        _ => panic!("not copied next"),
    };
    assert!(matches!(
        failure(copying().copy_joined(Some(Ok(Err(Error::CopyFailed("x".to_string())))))),
        Error::CopyFailed(_)
    ));
    assert!(matches!(
        failure(copying().copy_joined(Some(Err("panic".to_string())))),
        Error::Unexpected(_)
    ));
}

fn copy_outcome(copy: PrefixCopy<&'static str>) -> Result<Option<&'static str>, Error> {
    match copy {
        PrefixCopy::Done(outcome) => outcome,
        other => panic!("not done: {other:?}"),
    }
}

fn cut_outcome(cut: Cut<&'static str>) -> Result<Option<&'static str>, Error> {
    match cut {
        Cut::Done(outcome) => outcome,
        other => panic!("not done: {other:?}"),
    }
}

#[test]
fn a_layer_is_copied_up_to_the_branch_point() {
    let straddling = layer(5, 20, true);
    assert!(matches!(
        copy_outcome(copy_lsn_prefix(lsn(11), &straddling, true)),
        Err(Error::ShuttingDown)
    ));
    let PrefixCopy::CreateWriter { key_start, lsn_start, lsn_end, creating } =
        copy_lsn_prefix::<&str>(lsn(11), &straddling, false)
    else {
        panic!("no writer")
    };
    assert_eq!(key_start.bytes, key(1).bytes);
    assert_eq!((lsn_start, lsn_end), (lsn(5), lsn(11)));
    assert!(matches!(
        copy_outcome(creating.writer_created(Err("w".to_string()))),
        Err(Error::CopyDeltaPrefix(why)) if why == "w"
    ));
    let PrefixCopy::Download(downloading) = creating.writer_created::<&str>(Ok(())) else {
        panic!("no download")
    };
    assert!(matches!(
        copy_outcome(downloading.downloaded(Err("d".to_string()))),
        Err(Error::RewrittenDeltaDownloadFailed(why)) if why == "d"
    ));
    let PrefixCopy::CopyRecords { end_lsn, copying } = downloading.downloaded::<&str>(Ok(()))
    else {
        panic!("nothing is copied")
    };
    assert_eq!(end_lsn, lsn(11));
    assert!(matches!(
        copy_outcome(copying.records_copied(Err("c".to_string()))),
        Err(Error::CopyDeltaPrefix(why)) if why == "c"
    ));
    assert_eq!(copy_outcome(copying.records_copied(Ok(0))).unwrap(), None);
    let PrefixCopy::Finish { key_end, finishing } = copying.records_copied::<&str>(Ok(1)) else {
        panic!("not finished")
    };
    assert_eq!(key_end.bytes, key(9).bytes);
    assert!(matches!(
        copy_outcome(finishing.finished(Err("f".to_string()))),
        Err(Error::CopyDeltaPrefix(why)) if why == "f"
    ));
    // the copy ends with the new layer: nothing is uploaded
    assert_eq!(copy_outcome(finishing.finished(Ok("new"))).unwrap(), Some("new"));
}

#[test]
fn a_layer_is_cut_behind_the_branch_point() {
    let straddling = layer(5, 20, true);
    assert!(matches!(
        cut_outcome(upload_rewritten_layer(lsn(11), &straddling, true)),
        Err(Error::ShuttingDown)
    ));
    let Cut::Copy(PrefixCopy::CreateWriter { lsn_end, creating, .. }) =
        upload_rewritten_layer::<&str>(lsn(11), &straddling, false)
    else {
        panic!("no writer")
    };
    assert_eq!(lsn_end, lsn(11));
    assert!(matches!(
        cut_outcome(copy_stepped(creating.writer_created(Err("w".to_string())))),
        Err(Error::CopyDeltaPrefix(why)) if why == "w"
    ));
    let Cut::Copy(PrefixCopy::Download(downloading)) =
        copy_stepped::<&str>(creating.writer_created(Ok(())))
    else {
        panic!("no download")
    };
    let Cut::Copy(PrefixCopy::CopyRecords { copying, .. }) =
        copy_stepped::<&str>(downloading.downloaded(Ok(())))
    else {
        panic!("nothing is copied")
    };
    assert_eq!(cut_outcome(copy_stepped(copying.records_copied(Ok(0)))).unwrap(), None);
    let Cut::Copy(PrefixCopy::Finish { finishing, .. }) =
        copy_stepped::<&str>(copying.records_copied(Ok(1)))
    else {
        panic!("not finished")
    };
    let Cut::Upload { layer, uploading } = copy_stepped(finishing.finished(Ok("new"))) else {
        panic!("not uploaded")
    };
    assert!(matches!(
        cut_outcome(uploading.uploaded(layer, Err("u".to_string()))),
        Err(Error::UploadRewritten(why)) if why == "u"
    ));
    assert_eq!(cut_outcome(uploading.uploaded(layer, Ok(()))).unwrap(), Some("new"));
}

#[test]
fn adopted_layers_change_their_generation_only() {
    let desc = layer(1, 5, false);
    let metadata = || LayerMetadata { generation: Generation { value: 3 }, rest: "rest" };
    let adopted = adopt(desc, metadata(), Generation { value: 8 });
    assert_eq!(adopted.desc.lsn_end, lsn(5));
    assert_eq!(adopted.metadata.generation, Generation { value: 8 });
    assert_eq!(adopted.metadata.rest, "rest");
    let copy = || remote_copy(&desc, metadata(), Generation { value: 8 });
    assert_eq!(copy().copied(Ok(())).unwrap().metadata.generation.value, 8);
    assert!(matches!(
        copy().copied(Err("x".to_string())),
        Err(Error::CopyFailed(why)) if why == "x"
    ));
}

fn detaching() -> Detaching {
    Detaching {
        instance: 1,
        timeline_id: tl(7),
        ancestor_instance: 0,
        ancestor_id: tl(100),
        ancestor_lsn: lsn(10),
    }
}

fn sibling(instance: usize, at: u64) -> TenantTimeline {
    TenantTimeline {
        instance,
        timeline_id: tl(instance as u128),
        is_active: true,
        ancestor: Some(0),
        ancestor_lsn: lsn(at),
        delete_progress: DeleteProgress::NotStarted,
    }
}

#[test]
fn completing_publishes_first() {
    let prepared = PreparedTimelineDetach { layers: vec!["a", "b"] };
    let Completion::Publish { layers, ancestor, publishing } = complete(&detaching(), prepared)
    else {
        panic!("not published first")
    };
    assert_eq!(layers, vec!["a", "b"]);
    assert_eq!(ancestor, (tl(100), lsn(10)));
    let why = Report { message: "x".to_string(), cause: None };
    match publishing.published::<&str>(Err(why)) {
        Completion::Done { outcome: Err(e), .. } => assert_eq!(e.message, "x"),
        _ => panic!("goes on without the layers"),
    }
    assert!(matches!(publishing.published::<&str>(Ok(())), Completion::ReadSiblings(_)));
}

#[test]
fn earlier_branches_are_reparented() {
    let prepared: PreparedTimelineDetach<&str> = PreparedTimelineDetach { layers: vec![] };
    let Completion::Publish { publishing, .. } = complete(&detaching(), prepared) else {
        panic!("not published first")
    };
    let Completion::ReadSiblings(reading) = publishing.published::<&str>(Ok(())) else {
        panic!("timelines are not asked for")
    };
    let timelines = vec![
        sibling(1, 10),
        sibling(2, 10),
        sibling(3, 9),
        sibling(4, 11),
        TenantTimeline { is_active: false, ..sibling(5, 1) },
        TenantTimeline { ancestor: Some(2), ..sibling(6, 1) },
        TenantTimeline { ancestor: None, ..sibling(8, 1) },
        TenantTimeline { delete_progress: DeleteProgress::Started, ..sibling(9, 1) },
        TenantTimeline { delete_progress: DeleteProgress::Locked, ..sibling(10, 1) },
    ];
    let Completion::Reparent { work, new_parent, reparenting } =
        reading.siblings_read::<&str>(&timelines)
    else {
        panic!("nothing is reparented")
    };
    assert_eq!(new_parent, tl(7));
    assert_eq!(work.iter().map(|b| b.timeline_id.value).collect::<Vec<_>>(), vec![2, 3]);
    let mut state = reparenting;
    for joined in [
        ReparentOutcome::Refused,
        ReparentOutcome::Reparented(work[0]),
        ReparentOutcome::Panicked,
        ReparentOutcome::Lost,
        ReparentOutcome::Reparented(work[1]),
    ] {
        state = match state.reparent_joined::<&str>(Some(joined)) {
            Completion::AwaitReparent(state) => state,
            _ => panic!("reparenting has ended"),
        };
    }
    match state.reparent_joined::<&str>(None) {
        Completion::Done { outcome: Ok(ids), some_failed } => {
            // each of the candidates that were reparented, once
            assert_eq!(ids, vec![tl(3), tl(2)]);
            assert!(!some_failed);
        }
        _ => panic!("not done"),
    }
}

#[test]
fn asking_again_gives_the_same_report() {
    let first = vec![
        Branch { ancestor_lsn: lsn(9), timeline_id: tl(3) },
        Branch { ancestor_lsn: lsn(2), timeline_id: tl(5) },
    ];
    let Next::ReadLineage(state) = begin::<&str>(&facts(None, 0)) else {
        panic!("lineage is not asked for")
    };
    let Next::ReadTimelines(state) = state.lineage_read::<&str>(Ok(true)) else {
        panic!("timelines are not asked for")
    };
    let timelines = vec![child(5, 2, 1, Ok(true)), child(3, 9, 1, Ok(true))];
    let Ok(Progress::Done(again)) = outcome(state.timelines_read(&timelines)) else {
        panic!("no report")
    };
    assert!(again == AncestorDetached { reparented_timelines: report_in_order(&first) });
    assert!(again != AncestorDetached::default());
}

#[test]
fn errors_say_what_went_wrong() {
    let s = || "why".to_string();
    assert_eq!(Error::NoAncestor.to_string(), "no ancestors");
    assert_eq!(Error::TooManyAncestors.to_string(), "too many ancestors");
    assert_eq!(Error::ShuttingDown.to_string(), "shutting down, please retry later");
    assert_eq!(Error::FlushAncestor(FlushLayerError::Cancelled).to_string(), "flushing failed");
    assert_eq!(Error::RewrittenDeltaDownloadFailed(s()).to_string(), "layer download failed");
    assert_eq!(Error::CopyDeltaPrefix(s()).to_string(), "copying LSN prefix locally failed");
    assert_eq!(Error::UploadRewritten(s()).to_string(), "upload rewritten layer");
    assert_eq!(
        Error::OtherTimelineDetachOngoing(tl(255)).to_string(),
        "ancestor is already being detached by: 000000000000000000000000000000ff"
    );
    assert_eq!(Error::CopyFailed(s()).to_string(), "remote copying layer failed");
    assert_eq!(Error::Unexpected(s()).to_string(), "unexpected error");
    assert_eq!(Error::Failpoint("here").to_string(), "failpoint: here");
}

#[test]
fn errors_are_told_to_clients() {
    assert!(matches!(ApiError::from(Error::NoAncestor), ApiError::Conflict(m) if m == "no ancestors"));
    assert!(matches!(
        ApiError::from(Error::TooManyAncestors),
        ApiError::BadRequest(r) if r.message == "too many ancestors" && r.cause.is_none()
    ));
    assert!(matches!(ApiError::from(Error::ShuttingDown), ApiError::ShuttingDown));
    assert!(matches!(
        ApiError::from(Error::OtherTimelineDetachOngoing(tl(1))),
        ApiError::ResourceUnavailable(m) if m == "other timeline detach is already ongoing"
    ));
    assert!(matches!(
        ApiError::from(Error::CopyFailed("why".to_string())),
        ApiError::InternalServerError(r)
            if r.message == "remote copying layer failed" && r.cause == Some("why".to_string())
    ));
    assert!(matches!(
        ApiError::from(Error::Failpoint("x")),
        ApiError::InternalServerError(r) if r.message == "failpoint: x" && r.cause.is_none()
    ));
    assert!(matches!(
        ApiError::from(Error::FlushAncestor(FlushLayerError::Other("why".to_string()))),
        ApiError::InternalServerError(r) if r.cause == Some("why".to_string())
    ));
}
