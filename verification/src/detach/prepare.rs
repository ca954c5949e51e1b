//! The first half of detaching a timeline: everything the timeline needs of its ancestor
//! is copied over to it, without anything being published yet.
//!
//! The preparation is driven from outside. `begin` says what to find out or to do first,
//! in a `Next`; its state takes the answer and says what comes then, until the outcome is
//! known.

use vstd::prelude::*;

use tokio::sync::Semaphore;

use crate::detach::error::{Error, FlushLayerError, NotInitialized};
use crate::detach::layers::{historic, partition_work, straddling, LayerDesc};
use crate::detach::order::{in_order, report_in_order, Branch};
use crate::ids::{Lsn, TimelineId};
use crate::limit::{new_semaphore, permits_made};
use crate::seqs::{lemma_filter_empty, lemma_filter_take};

verus! {

/// The failpoint at which a preparation can be made to stop, once it has claimed the
/// tenant.
pub const BEFORE_STARTING_AFTER_LOCKING: &'static str =
    "timeline-detach-ancestor::before_starting_after_locking";

/// How much of a preparation may run at once.
#[derive(Debug, Clone, Copy)]
pub struct Options {
    rewrite_concurrency: usize,
    copy_concurrency: usize,
}

/// Whether so many tasks can be the limit: at least one, and no more than a semaphore can
/// count.
pub open spec fn is_limit(concurrency: usize) -> bool {
    0 < concurrency <= usize::MAX / 8
}

impl Options {
    /// Something may run, and no more than a semaphore can count.
    #[verifier::type_invariant]
    spec fn wf(self) -> bool {
        is_limit(self.rewrite_concurrency) && is_limit(self.copy_concurrency)
    }

    /// How many layers may be rewritten at once.
    pub closed spec fn spec_rewrite_concurrency(self) -> usize {
        self.rewrite_concurrency
    }

    /// How many layers may be copied at once.
    pub closed spec fn spec_copy_concurrency(self) -> usize {
        self.copy_concurrency
    }

    /// These limits, where they can be limits.
    pub fn new(rewrite_concurrency: usize, copy_concurrency: usize) -> (r: Option<Self>)
        ensures
            r is Some <==> is_limit(rewrite_concurrency) && is_limit(copy_concurrency),
            r matches Some(options) ==> options.spec_rewrite_concurrency() == rewrite_concurrency
                && options.spec_copy_concurrency() == copy_concurrency,
    {
        let max: usize = usize::MAX / 8;
        if 0 < rewrite_concurrency && rewrite_concurrency <= max && 0 < copy_concurrency
            && copy_concurrency <= max {
            Some(Options { rewrite_concurrency, copy_concurrency })
        } else {
            None
        }
    }

    /// How many layers may be rewritten at once.
    pub fn rewrite_concurrency(&self) -> (r: usize)
        ensures
            r == self.spec_rewrite_concurrency(),
            is_limit(r),
    {
        proof {
            use_type_invariant(self);
        }
        self.rewrite_concurrency
    }

    /// How many layers may be copied at once.
    pub fn copy_concurrency(&self) -> (r: usize)
        ensures
            r == self.spec_copy_concurrency(),
            is_limit(r),
    {
        proof {
            use_type_invariant(self);
        }
        self.copy_concurrency
    }
}

impl Default for Options {
    fn default() -> (r: Self)
        ensures
            r.spec_rewrite_concurrency() == 2,
            r.spec_copy_concurrency() == 100,
    {
        Options { rewrite_concurrency: 2, copy_concurrency: 100 }
    }
}

/// What is known of the ancestor of a timeline.
#[derive(Debug, Clone, Copy, PartialEq, Eq, Structural)]
pub struct AncestorFacts {
    /// Whether the ancestor itself has an ancestor.
    pub has_ancestor: bool,
}

/// What is known of the timeline to detach. `instance` tells the timelines of a tenant
/// apart.
#[derive(Debug, Clone, Copy)]
pub struct DetachFacts {
    pub instance: usize,
    pub timeline_id: TimelineId,
    pub ancestor: Option<AncestorFacts>,
    pub ancestor_lsn: Lsn,
    pub options: Options,
}

/// What is known of a timeline of the tenant: the instance of its ancestor, where it
/// branches off, and whether it has been reparented, if its upload queue can say so.
#[derive(Debug, Clone, Copy)]
pub struct KnownTimeline {
    pub timeline_id: TimelineId,
    pub ancestor: Option<usize>,
    pub ancestor_lsn: Lsn,
    pub reparented: Result<bool, NotInitialized>,
}

/// The detach operation that a tenant was last claimed for.
#[derive(Debug, Clone, Copy, PartialEq, Eq, Structural)]
pub struct OngoingDetach {
    pub timeline_id: TimelineId,
    /// Whether that operation has come to its end.
    pub finished: bool,
}

/// The timelines that a detach operation has moved over, in the order in which they are
/// reported.
#[derive(Debug)]
pub struct AncestorDetached {
    pub reparented_timelines: Vec<TimelineId>,
}

impl Default for AncestorDetached {
    fn default() -> (r: Self)
        ensures
            r.reparented_timelines@.len() == 0,
    {
        AncestorDetached { reparented_timelines: Vec::new() }
    }
}

fn same_timelines(a: &Vec<TimelineId>, b: &Vec<TimelineId>) -> (r: bool)
    ensures
        r == (a@ == b@),
{
    if a.len() != b.len() {
        return false;
    }
    for i in 0..a.len()
        invariant
            a.len() == b.len(),
            forall|k: int| 0 <= k < i ==> a[k] == b[k],
    {
        if a[i] != b[i] {
            return false;
        }
    }
    assert(a@ =~= b@);
    true
}

impl vstd::std_specs::cmp::PartialEqSpecImpl for AncestorDetached {
    open spec fn obeys_eq_spec() -> bool {
        true
    }

    open spec fn eq_spec(&self, other: &Self) -> bool {
        self.reparented_timelines@ == other.reparented_timelines@
    }
}

impl PartialEq for AncestorDetached {
    fn eq(&self, other: &Self) -> (r: bool) {
        same_timelines(&self.reparented_timelines, &other.reparented_timelines)
    }
}

/// The layers that a timeline is going to take over.
#[derive(Debug)]
pub struct PreparedTimelineDetach<L> {
    pub layers: Vec<L>,
}

/// How far a detach operation has come.
#[derive(Debug)]
pub enum Progress<L> {
    /// The layers are there; they can be published.
    Prepared(PreparedTimelineDetach<L>),
    /// The timeline had been detached before.
    Done(AncestorDetached),
}

/// What a preparation is about.
#[derive(Debug, Clone, Copy)]
pub struct Job {
    pub timeline_id: TimelineId,
    pub ancestor_lsn: Lsn,
    pub options: Options,
}

/// Waits for what the timeline's own lineage says.
#[derive(Debug, Clone, Copy)]
pub struct ReadingLineage {
    pub instance: usize,
}

/// Waits for the timelines of the tenant.
#[derive(Debug, Clone, Copy)]
pub struct ReadingTimelines {
    pub instance: usize,
}

/// Waits for the tenant to be claimed.
#[derive(Debug, Clone, Copy)]
pub struct Claiming {
    pub job: Job,
}

/// Waits for the timeline's gate to be entered.
#[derive(Debug, Clone, Copy)]
pub struct EnteringGate {
    pub job: Job,
}

/// Waits for the failpoint to be passed.
#[derive(Debug, Clone, Copy)]
pub struct PassingFailpoint {
    pub job: Job,
}

/// Waits for how far the ancestor is on disk.
#[derive(Debug, Clone, Copy)]
pub struct ReadingDiskConsistentLsn {
    pub job: Job,
}

/// Waits for the ancestor to be flushed.
#[derive(Debug, Clone, Copy)]
pub struct Flushing {
    pub job: Job,
}

/// Waits for the ancestor's layers.
#[derive(Debug, Clone, Copy)]
pub struct ReadingLayers {
    pub job: Job,
    pub end_lsn: Lsn,
}

/// Waits for layers to be rewritten.
#[derive(Debug)]
pub struct Rewriting<L> {
    pub job: Job,
    pub to_copy: Vec<LayerDesc>,
    pub new_layers: Vec<L>,
}

/// Waits for the timeline's directory to be synced.
#[derive(Debug)]
pub struct Syncing<L> {
    pub job: Job,
    pub to_copy: Vec<LayerDesc>,
    pub new_layers: Vec<L>,
}

/// Waits for layers to be copied.
#[derive(Debug)]
pub struct Copying<L> {
    pub new_layers: Vec<L>,
}

/// Waits for the tenant to be released.
#[derive(Debug)]
pub struct Releasing {
    pub error: Error,
}

/// What a preparation needs next.
#[derive(Debug)]
pub enum Next<L> {
    /// Whether the timeline has been detached before.
    ReadLineage(ReadingLineage),
    /// The timelines of the tenant.
    ReadTimelines(ReadingTimelines),
    /// To claim the tenant.
    ClaimSlot(Claiming),
    /// To enter the timeline's gate.
    EnterGate(EnteringGate),
    /// To pass the failpoint.
    PassFailpoint(PassingFailpoint),
    /// How far the ancestor is on disk.
    ReadDiskConsistentLsn(ReadingDiskConsistentLsn),
    /// To freeze and flush the ancestor.
    FreezeAndFlush(Flushing),
    /// The ancestor's layers.
    ReadLayers(ReadingLayers),
    /// To cut each of `work` off at `end_lsn`, as many at once as `limiter` permits, and then
    /// the first that is done.
    Rewrite { work: Vec<LayerDesc>, end_lsn: Lsn, limiter: Semaphore, rewriting: Rewriting<L> },
    /// The next layer that is rewritten.
    AwaitRewrite(Rewriting<L>),
    /// To sync the timeline's directory.
    SyncDirectory(Syncing<L>),
    /// To copy each of `work`, as many at once as `limiter` permits, and then the first that
    /// is done.
    Copy { work: Vec<LayerDesc>, limiter: Semaphore, copying: Copying<L> },
    /// The next layer that is copied.
    AwaitCopy(Copying<L>),
    /// To release the tenant, since the preparation has failed.
    ReleaseSlot(Releasing),
    /// Nothing: this is the outcome.
    Done(Result<Progress<L>, Error>),
}

/// A `Progress`, as plain sequences.
pub enum ProgressView<L> {
    Prepared(Seq<L>),
    Done(Seq<TimelineId>),
}

/// A `Next`, as plain sequences.
pub enum NextView<L> {
    ReadLineage(ReadingLineage),
    ReadTimelines(ReadingTimelines),
    ClaimSlot(Claiming),
    EnterGate(EnteringGate),
    PassFailpoint(PassingFailpoint),
    ReadDiskConsistentLsn(ReadingDiskConsistentLsn),
    FreezeAndFlush(Flushing),
    ReadLayers(ReadingLayers),
    Rewrite { work: Seq<LayerDesc>, end_lsn: Lsn, permits: nat, rewriting: RewritingView<L> },
    AwaitRewrite(RewritingView<L>),
    SyncDirectory(RewritingView<L>),
    Copy { work: Seq<LayerDesc>, permits: nat, new_layers: Seq<L> },
    AwaitCopy(Seq<L>),
    ReleaseSlot(Error),
    Done(Result<ProgressView<L>, Error>),
}

/// A `Rewriting`, or a `Syncing`, as plain sequences.
pub struct RewritingView<L> {
    pub job: Job,
    pub to_copy: Seq<LayerDesc>,
    pub new_layers: Seq<L>,
}

impl<L> View for Progress<L> {
    type V = ProgressView<L>;

    open spec fn view(&self) -> ProgressView<L> {
        match *self {
            Progress::Prepared(prepared) => ProgressView::Prepared(prepared.layers@),
            Progress::Done(done) => ProgressView::Done(done.reparented_timelines@),
        }
    }
}

impl<L> View for Rewriting<L> {
    type V = RewritingView<L>;

    open spec fn view(&self) -> RewritingView<L> {
        RewritingView { job: self.job, to_copy: self.to_copy@, new_layers: self.new_layers@ }
    }
}

impl<L> View for Syncing<L> {
    type V = RewritingView<L>;

    open spec fn view(&self) -> RewritingView<L> {
        RewritingView { job: self.job, to_copy: self.to_copy@, new_layers: self.new_layers@ }
    }
}

impl<L> View for Next<L> {
    type V = NextView<L>;

    open spec fn view(&self) -> NextView<L> {
        match *self {
            Next::ReadLineage(state) => NextView::ReadLineage(state),
            Next::ReadTimelines(state) => NextView::ReadTimelines(state),
            Next::ClaimSlot(state) => NextView::ClaimSlot(state),
            Next::EnterGate(state) => NextView::EnterGate(state),
            Next::PassFailpoint(state) => NextView::PassFailpoint(state),
            Next::ReadDiskConsistentLsn(state) => NextView::ReadDiskConsistentLsn(state),
            Next::FreezeAndFlush(state) => NextView::FreezeAndFlush(state),
            Next::ReadLayers(state) => NextView::ReadLayers(state),
            Next::Rewrite { work, end_lsn, limiter, rewriting } => NextView::Rewrite {
                work: work@,
                end_lsn,
                permits: permits_made(limiter),
                rewriting: rewriting@,
            },
            Next::AwaitRewrite(state) => NextView::AwaitRewrite(state@),
            Next::SyncDirectory(state) => NextView::SyncDirectory(state@),
            Next::Copy { work, limiter, copying } => NextView::Copy {
                work: work@,
                permits: permits_made(limiter),
                new_layers: copying.new_layers@,
            },
            Next::AwaitCopy(state) => NextView::AwaitCopy(state.new_layers@),
            Next::ReleaseSlot(state) => NextView::ReleaseSlot(state.error),
            Next::Done(Ok(progress)) => NextView::Done(Ok(progress@)),
            Next::Done(Err(e)) => NextView::Done(Err(e)),
        }
    }
}

// ---------------------------------------------------------------------------
// Each decision
// ---------------------------------------------------------------------------

/// What comes first: a timeline without an ancestor may have been detached before; one
/// with an ancestor needs a valid branch point and an ancestor that is a root.
pub open spec fn begun<L>(facts: DetachFacts) -> NextView<L> {
    match facts.ancestor {
        None => NextView::ReadLineage(ReadingLineage { instance: facts.instance }),
        Some(ancestor) => if !facts.ancestor_lsn.spec_is_valid() {
            NextView::Done(Err(Error::NoAncestor))
        } else if ancestor.has_ancestor {
            NextView::Done(Err(Error::TooManyAncestors))
        } else {
            NextView::ClaimSlot(
                Claiming {
                    job: Job {
                        timeline_id: facts.timeline_id,
                        ancestor_lsn: facts.ancestor_lsn,
                        options: facts.options,
                    },
                },
            )
        },
    }
}

/// What comes after the lineage: only a timeline that was detached before has something
/// to report.
pub open spec fn after_lineage<L>(
    state: ReadingLineage,
    was_detached: Result<bool, NotInitialized>,
) -> NextView<L> {
    match was_detached {
        Err(_) => NextView::Done(Err(Error::ShuttingDown)),
        Ok(false) => NextView::Done(Err(Error::NoAncestor)),
        Ok(true) => NextView::ReadTimelines(ReadingTimelines { instance: state.instance }),
    }
}

/// Whether a timeline is a direct child of `instance`.
pub open spec fn is_child(timeline: KnownTimeline, instance: usize) -> bool {
    timeline.ancestor == Some(instance)
}

/// The branches of those children of `instance` that have been reparented.
pub open spec fn reparented_branches(
    timelines: Seq<KnownTimeline>,
    instance: usize,
) -> Seq<Branch> {
    timelines.filter(
        |t: KnownTimeline| is_child(t, instance) && t.reparented == Ok::<bool, NotInitialized>(true),
    ).map_values(
        |t: KnownTimeline| Branch { ancestor_lsn: t.ancestor_lsn, timeline_id: t.timeline_id },
    )
}

/// Whether some child of `instance` cannot say whether it has been reparented.
pub open spec fn some_child_is_silent(timelines: Seq<KnownTimeline>, instance: usize) -> bool {
    exists|i: int|
        0 <= i < timelines.len() && is_child(#[trigger] timelines[i], instance)
            && timelines[i].reparented is Err
}

/// What comes after the timelines of the tenant: the report, unless a child is silent.
pub open spec fn after_timelines<L>(
    state: ReadingTimelines,
    timelines: Seq<KnownTimeline>,
) -> NextView<L> {
    if some_child_is_silent(timelines, state.instance) {
        NextView::Done(Err(Error::ShuttingDown))
    } else {
        NextView::Done(
            Ok(ProgressView::Done(in_order(reparented_branches(timelines, state.instance)))),
        )
    }
}

/// Whether another detach operation holds the tenant.
pub open spec fn is_held(slot: Option<OngoingDetach>) -> bool {
    slot matches Some(ongoing) && !ongoing.finished
}

/// What comes after claiming: the timeline is entered, unless another operation holds the
/// tenant.
pub open spec fn after_claim<L>(state: Claiming, slot: Option<OngoingDetach>) -> NextView<L> {
    if is_held(slot) {
        NextView::Done(Err(Error::OtherTimelineDetachOngoing(slot->0.timeline_id)))
    } else {
        NextView::EnterGate(EnteringGate { job: state.job })
    }
}

/// What the tenant is claimed for afterwards.
pub open spec fn slot_after_claim(
    state: Claiming,
    slot: Option<OngoingDetach>,
) -> Option<OngoingDetach> {
    if is_held(slot) {
        slot
    } else {
        Some(OngoingDetach { timeline_id: state.job.timeline_id, finished: false })
    }
}

/// What the tenant is claimed for once that operation has come to its end.
pub open spec fn slot_after_finish(slot: Option<OngoingDetach>) -> Option<OngoingDetach> {
    match slot {
        Some(ongoing) => Some(OngoingDetach { finished: true, ..ongoing }),
        None => None,
    }
}

/// What comes after entering the timeline. From here on the tenant is released before a failure
/// is reported.
pub open spec fn after_gate<L>(state: EnteringGate, entered: bool) -> NextView<L> {
    if entered {
        NextView::PassFailpoint(PassingFailpoint { job: state.job })
    } else {
        NextView::ReleaseSlot(Error::ShuttingDown)
    }
}

/// What comes after the failpoint.
pub open spec fn after_failpoint<L>(state: PassingFailpoint, triggered: bool) -> NextView<L> {
    if triggered {
        NextView::ReleaseSlot(Error::Failpoint(BEFORE_STARTING_AFTER_LOCKING))
    } else {
        NextView::ReadDiskConsistentLsn(ReadingDiskConsistentLsn { job: state.job })
    }
}

/// The position right behind `lsn`.
pub open spec fn behind(lsn: Lsn) -> Lsn {
    Lsn { value: (lsn.value + 1) as u64 }
}

/// What comes after the disk consistent position: a flush, if the branch point is not yet
/// on disk.
pub open spec fn after_disk_consistent_lsn<L>(
    state: ReadingDiskConsistentLsn,
    disk_consistent_lsn: Lsn,
) -> NextView<L> {
    if state.job.ancestor_lsn.value >= disk_consistent_lsn.value {
        NextView::FreezeAndFlush(Flushing { job: state.job })
    } else {
        NextView::ReadLayers(
            ReadingLayers { job: state.job, end_lsn: behind(state.job.ancestor_lsn) },
        )
    }
}

/// The error that a failed flush becomes.
pub open spec fn flush_error(e: FlushLayerError) -> Error {
    match e {
        FlushLayerError::Cancelled => Error::ShuttingDown,
        FlushLayerError::NotRunning(_) => Error::ShuttingDown,
        _ => Error::FlushAncestor(e),
    }
}

/// What comes after the flush.
pub open spec fn after_flush<L>(state: Flushing, flushed: Result<(), FlushLayerError>) -> NextView<
    L,
> {
    match flushed {
        Err(e) => NextView::ReleaseSlot(flush_error(e)),
        Ok(_) => NextView::ReadLayers(
            ReadingLayers { job: state.job, end_lsn: behind(state.job.ancestor_lsn) },
        ),
    }
}

/// What comes after the ancestor's layers: those that straddle the branch point are cut.
/// `None` stands for a timeline that is being stopped.
pub open spec fn after_layers<L>(
    state: ReadingLayers,
    layers: Option<Seq<LayerDesc>>,
) -> NextView<L> {
    match layers {
        None => NextView::ReleaseSlot(Error::ShuttingDown),
        Some(layers) => NextView::Rewrite {
            work: straddling(layers, state.job.ancestor_lsn),
            end_lsn: state.end_lsn,
            permits: state.job.options.spec_rewrite_concurrency() as nat,
            rewriting: RewritingView {
                job: state.job,
                to_copy: historic(layers, state.job.ancestor_lsn),
                new_layers: Seq::empty(),
            },
        },
    }
}

/// What comes once all rewrites are done: the rest of the layers is copied, after a sync
/// if anything was written.
pub open spec fn after_rewrites<L>(state: RewritingView<L>) -> NextView<L> {
    if state.new_layers.len() > 0 {
        NextView::SyncDirectory(state)
    } else {
        after_sync(state)
    }
}

/// What comes after a rewrite, or after the last of them. An outer `Err` is a task that
/// came to no end, an inner `None` a layer with nothing before the branch point.
pub open spec fn after_rewrite<L>(
    state: RewritingView<L>,
    joined: Option<Result<Result<Option<L>, Error>, String>>,
) -> NextView<L> {
    match joined {
        None => after_rewrites(state),
        Some(Ok(Ok(Some(layer)))) => NextView::AwaitRewrite(
            RewritingView { new_layers: state.new_layers.push(layer), ..state },
        ),
        Some(Ok(Ok(None))) => NextView::AwaitRewrite(state),
        Some(Ok(Err(e))) => NextView::ReleaseSlot(e),
        Some(Err(why)) => NextView::ReleaseSlot(Error::Unexpected(why)),
    }
}

/// What comes after the sync.
pub open spec fn after_sync<L>(state: RewritingView<L>) -> NextView<L> {
    NextView::Copy {
        work: state.to_copy,
        permits: state.job.options.spec_copy_concurrency() as nat,
        new_layers: state.new_layers,
    }
}

/// What comes after a copy, or after the last of them.
pub open spec fn after_copy<L>(
    new_layers: Seq<L>,
    joined: Option<Result<Result<L, Error>, String>>,
) -> NextView<L> {
    match joined {
        None => NextView::Done(Ok(ProgressView::Prepared(new_layers))),
        Some(Ok(Ok(layer))) => NextView::AwaitCopy(new_layers.push(layer)),
        Some(Ok(Err(e))) => NextView::ReleaseSlot(e),
        Some(Err(why)) => NextView::ReleaseSlot(Error::Unexpected(why)),
    }
}

/// Begins to prepare detaching a timeline.
pub fn begin<L>(facts: &DetachFacts) -> (r: Next<L>)
    ensures
        r@ == begun::<L>(*facts),
{
    let ancestor = match facts.ancestor {
        None => {
            return Next::ReadLineage(ReadingLineage { instance: facts.instance });
        },
        Some(ancestor) => ancestor,
    };
    if !facts.ancestor_lsn.is_valid() {
        // rare case, probably wouldn't even load
        return Next::Done(Err(Error::NoAncestor));
    }
    if ancestor.has_ancestor {
        // non-technical requirement; we could flatten N ancestors just as easily but we chose
        // not to, at least initially
        return Next::Done(Err(Error::TooManyAncestors));
    }
    Next::ClaimSlot(
        Claiming {
            job: Job {
                timeline_id: facts.timeline_id,
                ancestor_lsn: facts.ancestor_lsn,
                options: facts.options,
            },
        },
    )
}

impl ReadingLineage {
    /// Takes whether the timeline has been detached before.
    pub fn lineage_read<L>(self, was_detached: Result<bool, NotInitialized>) -> (r: Next<L>)
        ensures
            r@ == after_lineage::<L>(self, was_detached),
    {
        match was_detached {
            Err(e) => Next::Done(Err(Error::from(e))),
            Ok(false) => Next::Done(Err(Error::NoAncestor)),
            Ok(true) => Next::ReadTimelines(ReadingTimelines { instance: self.instance }),
        }
    }
}

impl ReadingTimelines {
    /// Takes the timelines of the tenant, and reports those which have been reparented by
    /// the earlier detach.
    pub fn timelines_read<L>(self, timelines: &Vec<KnownTimeline>) -> (r: Next<L>)
        ensures
            r@ == after_timelines::<L>(self, timelines@),
    {
        let mut any_shutdown = false;
        let mut reparented: Vec<Branch> = Vec::new();
        let ghost instance = self.instance;
        let ghost keep = |t: KnownTimeline|
            is_child(t, instance) && t.reparented == Ok::<bool, NotInitialized>(true);
        let ghost branch = |t: KnownTimeline|
            Branch { ancestor_lsn: t.ancestor_lsn, timeline_id: t.timeline_id };
        proof {
            lemma_filter_empty(timelines@.take(0), keep);
        }
        for i in 0..timelines.len()
            invariant
                keep == (|t: KnownTimeline|
                    is_child(t, instance) && t.reparented == Ok::<bool, NotInitialized>(true)),
                branch == (|t: KnownTimeline|
                    Branch { ancestor_lsn: t.ancestor_lsn, timeline_id: t.timeline_id }),
                self.instance == instance,
                any_shutdown == some_child_is_silent(timelines@.take(i as int), instance),
                reparented@ == timelines@.take(i as int).filter(keep).map_values(branch),
        {
            proof {
                lemma_filter_take(timelines@, keep, i as int);
                let now = timelines@.take(i as int);
                let then = timelines@.take(i + 1);
                assert(forall|k: int| 0 <= k < i ==> now[k] == then[k]);
                if some_child_is_silent(now, instance) {
                    let k = choose|k: int|
                        0 <= k < now.len() && is_child(#[trigger] now[k], instance)
                            && now[k].reparented is Err;
                    assert(is_child(then[k], instance));
                }
                if some_child_is_silent(then, instance) {
                    let k = choose|k: int|
                        0 <= k < then.len() && is_child(#[trigger] then[k], instance)
                            && then[k].reparented is Err;
                    if k < i {
                        assert(is_child(now[k], instance));
                    }
                }
            }
            let tl = timelines[i];
            let child = match tl.ancestor {
                Some(ancestor) => ancestor == self.instance,
                None => false,
            };
            if child {
                match tl.reparented {
                    Ok(true) => {
                        reparented.push(
                            Branch { ancestor_lsn: tl.ancestor_lsn, timeline_id: tl.timeline_id },
                        );
                    },
                    Ok(false) => {},
                    Err(_) => {
                        // not 100% a shutdown, but let's bail early not to give inconsistent
                        // results in sharded environment.
                        assert(is_child(timelines@.take(i + 1)[i as int], instance));
                        any_shutdown = true;
                    },
                }
            }
            assert(reparented@ =~= timelines@.take(i + 1).filter(keep).map_values(branch));
        }
        assert(timelines@.take(timelines.len() as int) =~= timelines@);
        if any_shutdown {
            // it could be one or many being deleted; have client retry
            return Next::Done(Err(Error::ShuttingDown));
        }
        Next::Done(
            Ok(
                Progress::Done(
                    AncestorDetached { reparented_timelines: report_in_order(&reparented) },
                ),
            ),
        )
    }
}

impl Claiming {
    /// Claims the tenant, unless another detach operation holds it. This keeps two branches
    /// from trying to reparent earlier branches at the same time.
    pub fn claim<L>(self, slot: &mut Option<OngoingDetach>) -> (r: Next<L>)
        ensures
            r@ == after_claim::<L>(self, *old(slot)),
            *final(slot) == slot_after_claim(self, *old(slot)),
    {
        if let Some(ongoing) = *slot {
            if !ongoing.finished {
                return Next::Done(Err(Error::OtherTimelineDetachOngoing(ongoing.timeline_id)));
            }
        }
        *slot = Some(OngoingDetach { timeline_id: self.job.timeline_id, finished: false });
        Next::EnterGate(EnteringGate { job: self.job })
    }
}

/// Ends the detach operation that holds the tenant, which is then free for others.
pub fn finish(slot: &mut Option<OngoingDetach>)
    ensures
        *final(slot) == slot_after_finish(*old(slot)),
{
    if let Some(ongoing) = *slot {
        *slot = Some(OngoingDetach { timeline_id: ongoing.timeline_id, finished: true });
    }
}

impl Releasing {
    /// Releases the tenant, and reports what went wrong.
    pub fn release<L>(self, slot: &mut Option<OngoingDetach>) -> (r: Next<L>)
        ensures
            r@ == NextView::<L>::Done(Err(self.error)),
            *final(slot) == slot_after_finish(*old(slot)),
    {
        finish(slot);
        Next::Done(Err(self.error))
    }
}

impl EnteringGate {
    /// Takes whether the timeline's gate was entered.
    pub fn gate_entered<L>(self, entered: bool) -> (r: Next<L>)
        ensures
            r@ == after_gate::<L>(self, entered),
    {
        if entered {
            Next::PassFailpoint(PassingFailpoint { job: self.job })
        } else {
            Next::ReleaseSlot(Releasing { error: Error::ShuttingDown })
        }
    }
}

impl PassingFailpoint {
    /// Takes whether the failpoint was triggered.
    pub fn failpoint_passed<L>(self, triggered: bool) -> (r: Next<L>)
        ensures
            r@ == after_failpoint::<L>(self, triggered),
    {
        if triggered {
            Next::ReleaseSlot(Releasing { error: Error::Failpoint(BEFORE_STARTING_AFTER_LOCKING) })
        } else {
            Next::ReadDiskConsistentLsn(ReadingDiskConsistentLsn { job: self.job })
        }
    }
}

impl ReadingDiskConsistentLsn {
    /// Takes how far the ancestor is on disk.
    pub fn disk_consistent_lsn_read<L>(self, disk_consistent_lsn: Lsn) -> (r: Next<L>)
        ensures
            r@ == after_disk_consistent_lsn::<L>(self, disk_consistent_lsn),
    {
        if self.job.ancestor_lsn.value >= disk_consistent_lsn.value {
            Next::FreezeAndFlush(Flushing { job: self.job })
        } else {
            Next::ReadLayers(
                ReadingLayers {
                    job: self.job,
                    end_lsn: Lsn { value: self.job.ancestor_lsn.value + 1 },
                },
            )
        }
    }
}

impl Flushing {
    /// Takes how the flush went. There has to be a position behind the branch point.
    pub fn flushed<L>(self, flushed: Result<(), FlushLayerError>) -> (r: Next<L>)
        requires
            flushed is Ok ==> self.job.ancestor_lsn.value < u64::MAX,
        ensures
            r@ == after_flush::<L>(self, flushed),
    {
        match flushed {
            Err(e) => Next::ReleaseSlot(Releasing { error: Error::from(e) }),
            Ok(_) => Next::ReadLayers(
                ReadingLayers {
                    job: self.job,
                    end_lsn: Lsn { value: self.job.ancestor_lsn.value + 1 },
                },
            ),
        }
    }
}

impl ReadingLayers {
    /// Takes the ancestor's layers, or nothing where one of the timelines is being stopped.
    ///
    /// The timeline's own layers do not matter: they can only be layers that come *after*
    /// the branch point.
    pub fn layers_read<L>(self, layers: Option<&Vec<LayerDesc>>) -> (r: Next<L>)
        ensures
            r@ == after_layers::<L>(
                self,
                match layers {
                    Some(layers) => Some(layers@),
                    None => None,
                },
            ),
    {
        match layers {
            None => Next::ReleaseSlot(Releasing { error: Error::ShuttingDown }),
            Some(layers) => {
                let (_filtered, straddling_branchpoint, rest_of_historic) = partition_work(
                    self.job.ancestor_lsn,
                    layers,
                );
                let new_layers: Vec<L> = Vec::new();
                assert(new_layers@ =~= Seq::empty());
                Next::Rewrite {
                    work: straddling_branchpoint,
                    end_lsn: self.end_lsn,
                    limiter: new_semaphore(self.job.options.rewrite_concurrency(), None),
                    rewriting: Rewriting { job: self.job, to_copy: rest_of_historic, new_layers },
                }
            },
        }
    }
}

impl<L> Rewriting<L> {
    /// Takes the next layer that was rewritten, or nothing where all of them are done.
    pub fn rewrite_joined(
        self,
        joined: Option<Result<Result<Option<L>, Error>, String>>,
    ) -> (r: Next<L>)
        ensures
            r@ == after_rewrite::<L>(self@, joined),
    {
        match joined {
            None => {
                if self.new_layers.len() > 0 {
                    Next::SyncDirectory(
                        Syncing {
                            job: self.job,
                            to_copy: self.to_copy,
                            new_layers: self.new_layers,
                        },
                    )
                } else {
                    Next::Copy {
                        work: self.to_copy,
                        limiter: new_semaphore(self.job.options.copy_concurrency(), None),
                        copying: Copying { new_layers: self.new_layers },
                    }
                }
            },
            Some(Ok(Ok(Some(copied)))) => {
                let mut new_layers = self.new_layers;
                new_layers.push(copied);
                Next::AwaitRewrite(Rewriting { job: self.job, to_copy: self.to_copy, new_layers })
            },
            Some(Ok(Ok(None))) => Next::AwaitRewrite(self),
            Some(Ok(Err(e))) => Next::ReleaseSlot(Releasing { error: e }),
            Some(Err(why)) => Next::ReleaseSlot(Releasing { error: Error::Unexpected(why) }),
        }
    }
}

impl<L> Syncing<L> {
    /// Goes on once the timeline's directory is synced.
    pub fn directory_synced(self) -> (r: Next<L>)
        ensures
            r@ == after_sync::<L>(self@),
    {
        Next::Copy {
            work: self.to_copy,
            limiter: new_semaphore(self.job.options.copy_concurrency(), None),
            copying: Copying { new_layers: self.new_layers },
        }
    }
}

impl<L> Copying<L> {
    /// Takes the next layer that was copied, or nothing where all of them are done.
    pub fn copy_joined(self, joined: Option<Result<Result<L, Error>, String>>) -> (r: Next<L>)
        ensures
            r@ == after_copy::<L>(self.new_layers@, joined),
    {
        match joined {
            None => Next::Done(
                Ok(Progress::Prepared(PreparedTimelineDetach { layers: self.new_layers })),
            ),
            Some(Ok(Ok(owned))) => {
                let mut new_layers = self.new_layers;
                new_layers.push(owned);
                Next::AwaitCopy(Copying { new_layers })
            },
            Some(Ok(Err(failed))) => Next::ReleaseSlot(Releasing { error: failed }),
            Some(Err(why)) => Next::ReleaseSlot(Releasing { error: Error::Unexpected(why) }),
        }
    }
}

} // verus!
