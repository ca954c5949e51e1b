//! Moving one layer of the ancestor over to the detached timeline: a layer that straddles
//! the branch point is cut off behind it and uploaded, any other is copied on the remote
//! storage.

use vstd::prelude::*;

use crate::detach::error::Error;
use crate::detach::layers::{adopt, AdoptedLayer, Key, LayerDesc, LayerMetadata};
use crate::ids::{Generation, Lsn};

verus! {

/// Waits for a writer of the new layer.
#[derive(Debug, Clone, Copy)]
pub struct CreatingWriter {
    pub layer: LayerDesc,
    pub end_lsn: Lsn,
}

/// Waits for the layer to be downloaded.
#[derive(Debug, Clone, Copy)]
pub struct Downloading {
    pub layer: LayerDesc,
    pub end_lsn: Lsn,
}

/// Waits for records to be copied.
#[derive(Debug, Clone, Copy)]
pub struct CopyingRecords {
    pub layer: LayerDesc,
}

/// Waits for the new layer to be written out.
#[derive(Debug, Clone, Copy)]
pub struct Finishing;

/// What copying what a layer holds before some position needs next.
#[derive(Debug)]
pub enum PrefixCopy<L> {
    /// A writer of a layer from `key_start`, with changes from `lsn_start` up to but not
    /// including `lsn_end`.
    CreateWriter { key_start: Key, lsn_start: Lsn, lsn_end: Lsn, creating: CreatingWriter },
    /// The layer, on the local disk.
    Download(Downloading),
    /// To copy all changes before `end_lsn`.
    CopyRecords { end_lsn: Lsn, copying: CopyingRecords },
    /// To write the new layer out, up to `key_end`.
    Finish { key_end: Key, finishing: Finishing },
    /// Nothing: this is the outcome. There is no new layer where nothing was copied.
    Done(Result<Option<L>, Error>),
}

/// What comes first.
pub open spec fn copy_begun<L>(end_lsn: Lsn, layer: LayerDesc, is_cancelled: bool) -> PrefixCopy<L> {
    if is_cancelled {
        PrefixCopy::Done(Err(Error::ShuttingDown))
    } else {
        PrefixCopy::CreateWriter {
            key_start: layer.key_start,
            lsn_start: layer.lsn_start,
            lsn_end: end_lsn,
            creating: CreatingWriter { layer, end_lsn },
        }
    }
}

/// What comes after the writer.
pub open spec fn after_writer<L>(state: CreatingWriter, created: Result<(), String>) -> PrefixCopy<
    L,
> {
    match created {
        Err(why) => PrefixCopy::Done(Err(Error::CopyDeltaPrefix(why))),
        Ok(_) => PrefixCopy::Download(Downloading { layer: state.layer, end_lsn: state.end_lsn }),
    }
}

/// What comes after the download.
pub open spec fn after_download<L>(
    state: Downloading,
    downloaded: Result<(), String>,
) -> PrefixCopy<L> {
    match downloaded {
        Err(why) => PrefixCopy::Done(Err(Error::RewrittenDeltaDownloadFailed(why))),
        Ok(_) => PrefixCopy::CopyRecords {
            end_lsn: state.end_lsn,
            copying: CopyingRecords { layer: state.layer },
        },
    }
}

/// What comes after the records. The highest key is reused instead of adding more holes
/// between layers by using the real highest key in the layer.
pub open spec fn after_records<L>(
    state: CopyingRecords,
    records: Result<usize, String>,
) -> PrefixCopy<L> {
    match records {
        Err(why) => PrefixCopy::Done(Err(Error::CopyDeltaPrefix(why))),
        Ok(records) => if records == 0 {
            PrefixCopy::Done(Ok(None))
        } else {
            PrefixCopy::Finish { key_end: state.layer.key_end, finishing: Finishing }
        },
    }
}

/// What comes after the new layer is written out: that is the end.
pub open spec fn after_finish<L>(finished: Result<L, String>) -> PrefixCopy<L> {
    match finished {
        Err(why) => PrefixCopy::Done(Err(Error::CopyDeltaPrefix(why))),
        Ok(layer) => PrefixCopy::Done(Ok(Some(layer))),
    }
}

/// Begins to copy what `layer` holds before `end_lsn`.
pub fn copy_lsn_prefix<L>(end_lsn: Lsn, layer: &LayerDesc, is_cancelled: bool) -> (r: PrefixCopy<L>)
    ensures
        r == copy_begun::<L>(end_lsn, *layer, is_cancelled),
{
    if is_cancelled {
        return PrefixCopy::Done(Err(Error::ShuttingDown));
    }
    PrefixCopy::CreateWriter {
        key_start: layer.key_start,
        lsn_start: layer.lsn_start,
        lsn_end: end_lsn,
        creating: CreatingWriter { layer: *layer, end_lsn },
    }
}

impl CreatingWriter {
    /// Takes whether there is a writer.
    pub fn writer_created<L>(self, created: Result<(), String>) -> (r: PrefixCopy<L>)
        ensures
            r == after_writer::<L>(self, created),
    {
        match created {
            Err(why) => PrefixCopy::Done(Err(Error::CopyDeltaPrefix(why))),
            Ok(_) => PrefixCopy::Download(
                Downloading { layer: self.layer, end_lsn: self.end_lsn },
            ),
        }
    }
}

impl Downloading {
    /// Takes whether the layer was downloaded.
    pub fn downloaded<L>(self, downloaded: Result<(), String>) -> (r: PrefixCopy<L>)
        ensures
            r == after_download::<L>(self, downloaded),
    {
        match downloaded {
            // likely shutdown
            Err(why) => PrefixCopy::Done(Err(Error::RewrittenDeltaDownloadFailed(why))),
            Ok(_) => PrefixCopy::CopyRecords {
                end_lsn: self.end_lsn,
                copying: CopyingRecords { layer: self.layer },
            },
        }
    }
}

impl CopyingRecords {
    /// Takes how many records were copied.
    pub fn records_copied<L>(self, records: Result<usize, String>) -> (r: PrefixCopy<L>)
        ensures
            r == after_records::<L>(self, records),
    {
        match records {
            Err(why) => PrefixCopy::Done(Err(Error::CopyDeltaPrefix(why))),
            Ok(records) => {
                if records == 0 {
                    PrefixCopy::Done(Ok(None))
                } else {
                    PrefixCopy::Finish { key_end: self.layer.key_end, finishing: Finishing }
                }
            },
        }
    }
}

impl Finishing {
    /// Takes the new layer.
    pub fn finished<L>(self, finished: Result<L, String>) -> (r: PrefixCopy<L>)
        ensures
            r == after_finish::<L>(finished),
    {
        match finished {
            Err(why) => PrefixCopy::Done(Err(Error::CopyDeltaPrefix(why))),
            Ok(layer) => PrefixCopy::Done(Ok(Some(layer))),
        }
    }
}

/// Everything that copying what a layer holds before some position may be told.
pub struct CopyAnswers<L> {
    pub is_cancelled: bool,
    pub created: Result<(), String>,
    pub downloaded: Result<(), String>,
    pub records: Result<usize, String>,
    pub finished: Result<L, String>,
}

/// How many questions may still follow.
pub open spec fn copy_stage<L>(copy: PrefixCopy<L>) -> nat {
    match copy {
        PrefixCopy::CreateWriter { .. } => 4,
        PrefixCopy::Download(_) => 3,
        PrefixCopy::CopyRecords { .. } => 2,
        PrefixCopy::Finish { .. } => 1,
        PrefixCopy::Done(_) => 0,
    }
}

/// What follows a step of copying that is answered by `a`.
pub open spec fn copy_step<L>(copy: PrefixCopy<L>, a: CopyAnswers<L>) -> PrefixCopy<L> {
    match copy {
        PrefixCopy::CreateWriter { creating, .. } => after_writer(creating, a.created),
        PrefixCopy::Download(state) => after_download(state, a.downloaded),
        PrefixCopy::CopyRecords { copying, .. } => after_records(copying, a.records),
        PrefixCopy::Finish { .. } => after_finish(a.finished),
        PrefixCopy::Done(_) => copy,
    }
}

/// What copying comes to that has reached `copy` and is answered by `a`.
pub open spec fn copy_run<L>(copy: PrefixCopy<L>, a: CopyAnswers<L>) -> Result<Option<L>, Error>
    decreases copy_stage(copy),
{
    match copy {
        PrefixCopy::Done(outcome) => outcome,
        _ => copy_run(copy_step(copy, a), a),
    }
}

/// What copying comes to: the new layer if every step succeeds, nothing if there is nothing
/// before the position, and else the error of the first step that fails.
pub open spec fn copy_outcome<L>(a: CopyAnswers<L>) -> Result<Option<L>, Error> {
    if a.is_cancelled {
        Err(Error::ShuttingDown)
    } else if a.created is Err {
        Err(Error::CopyDeltaPrefix(a.created->Err_0))
    } else if a.downloaded is Err {
        Err(Error::RewrittenDeltaDownloadFailed(a.downloaded->Err_0))
    } else if a.records is Err {
        Err(Error::CopyDeltaPrefix(a.records->Err_0))
    } else if a.records->Ok_0 == 0 {
        Ok(None)
    } else if a.finished is Err {
        Err(Error::CopyDeltaPrefix(a.finished->Err_0))
    } else {
        Ok(Some(a.finished->Ok_0))
    }
}

/// Copying what a layer holds before some position comes to `copy_outcome`; nothing is
/// uploaded.
pub proof fn law_copy_prefix<L>(end_lsn: Lsn, layer: LayerDesc, a: CopyAnswers<L>)
    ensures
        copy_run(copy_begun(end_lsn, layer, a.is_cancelled), a) == copy_outcome(a),
{
    reveal_with_fuel(copy_run, 5);
}

/// A layer that straddles the branch point is cut to a range that is not empty, that ends
/// right behind the branch point, and that the layer covers.
pub proof fn law_cut_range(layer: LayerDesc, ancestor_lsn: Lsn)
    requires
        layer.straddles(ancestor_lsn),
    ensures
        ({
            let end_lsn = crate::detach::prepare::behind(ancestor_lsn);
            &&& copy_begun::<()>(end_lsn, layer, false)->lsn_start == layer.lsn_start
            &&& copy_begun::<()>(end_lsn, layer, false)->lsn_end == end_lsn
            &&& layer.lsn_start.value < end_lsn.value <= layer.lsn_end.value
            &&& end_lsn.value == ancestor_lsn.value + 1
        }),
{
}

// ---------------------------------------------------------------------------
// Copying and uploading
// ---------------------------------------------------------------------------

/// Waits for the new layer to be uploaded.
#[derive(Debug, Clone, Copy)]
pub struct Uploading;

/// What cutting a layer off and uploading what is left of it needs next.
#[derive(Debug)]
pub enum Cut<L> {
    /// A step of copying.
    Copy(PrefixCopy<L>),
    /// To upload the new layer.
    Upload { layer: L, uploading: Uploading },
    /// Nothing: this is the outcome. There is no new layer where nothing was copied.
    Done(Result<Option<L>, Error>),
}

/// What comes after a step of copying: where that is done, a new layer is uploaded.
pub open spec fn after_copy_step<L>(copy: PrefixCopy<L>) -> Cut<L> {
    match copy {
        PrefixCopy::Done(Err(e)) => Cut::Done(Err(e)),
        PrefixCopy::Done(Ok(None)) => Cut::Done(Ok(None)),
        PrefixCopy::Done(Ok(Some(layer))) => Cut::Upload { layer, uploading: Uploading },
        _ => Cut::Copy(copy),
    }
}

/// What comes after the upload.
pub open spec fn after_upload<L>(layer: L, uploaded: Result<(), String>) -> Cut<L> {
    match uploaded {
        Err(why) => Cut::Done(Err(Error::UploadRewritten(why))),
        Ok(_) => Cut::Done(Ok(Some(layer))),
    }
}

/// Begins to cut `layer` off at `end_lsn` and to upload what is left of it.
pub fn upload_rewritten_layer<L>(end_lsn: Lsn, layer: &LayerDesc, is_cancelled: bool) -> (r: Cut<L>)
    ensures
        r == after_copy_step(copy_begun::<L>(end_lsn, *layer, is_cancelled)),
{
    copy_stepped(copy_lsn_prefix(end_lsn, layer, is_cancelled))
}

/// Goes on after a step of copying.
pub fn copy_stepped<L>(copy: PrefixCopy<L>) -> (r: Cut<L>)
    ensures
        r == after_copy_step(copy),
{
    match copy {
        PrefixCopy::Done(Err(e)) => Cut::Done(Err(e)),
        PrefixCopy::Done(Ok(None)) => Cut::Done(Ok(None)),
        PrefixCopy::Done(Ok(Some(layer))) => Cut::Upload { layer, uploading: Uploading },
        step => Cut::Copy(step),
    }
}

impl Uploading {
    /// Takes whether `layer` was uploaded.
    pub fn uploaded<L>(self, layer: L, uploaded: Result<(), String>) -> (r: Cut<L>)
        ensures
            r == after_upload::<L>(layer, uploaded),
    {
        match uploaded {
            Err(why) => Cut::Done(Err(Error::UploadRewritten(why))),
            Ok(_) => Cut::Done(Ok(Some(layer))),
        }
    }
}

/// How many questions may still follow.
pub open spec fn cut_stage<L>(cut: Cut<L>) -> nat {
    match cut {
        Cut::Copy(copy) => 2 + copy_stage(copy),
        Cut::Upload { .. } => 1,
        Cut::Done(_) => 0,
    }
}

/// What cutting a layer off comes to that has reached `cut` and is answered by `a`, and of the
/// upload by `uploaded`. A copy that is done is no step of it.
pub open spec fn cut_run<L>(cut: Cut<L>, a: CopyAnswers<L>, uploaded: Result<(), String>) -> Result<
    Option<L>,
    Error,
>
    decreases cut_stage(cut),
{
    match cut {
        Cut::Copy(PrefixCopy::Done(outcome)) => outcome,
        Cut::Copy(copy) => cut_run(after_copy_step(copy_step(copy, a)), a, uploaded),
        Cut::Upload { layer, .. } => cut_run(after_upload(layer, uploaded), a, uploaded),
        Cut::Done(outcome) => outcome,
    }
}

/// Cutting a layer off comes to what copying comes to, but that a new layer also has to be
/// uploaded.
pub proof fn law_cut<L>(
    end_lsn: Lsn,
    layer: LayerDesc,
    a: CopyAnswers<L>,
    uploaded: Result<(), String>,
)
    ensures
        cut_run(after_copy_step(copy_begun(end_lsn, layer, a.is_cancelled)), a, uploaded) == match (
            copy_outcome(a),
            uploaded,
        ) {
            (Ok(Some(_)), Err(why)) => Err(Error::UploadRewritten(why)),
            (outcome, _) => outcome,
        },
{
    reveal_with_fuel(cut_run, 7);
}

// ---------------------------------------------------------------------------
// Copying on the remote storage
// ---------------------------------------------------------------------------

/// Waits for a layer to be copied on the remote storage.
#[derive(Debug)]
pub struct RemoteCopy<R> {
    /// The new layer, which is found on the remote storage once the copy is there.
    pub owned: AdoptedLayer<R>,
}

/// Begins to copy the layer `adopted` on the remote storage, without it being added to any
/// index. A layer is only adopted by a timeline of its own generation or a later one.
pub fn remote_copy<R>(adopted: &LayerDesc, metadata: LayerMetadata<R>, generation: Generation) -> (r:
    RemoteCopy<R>)
    requires
        metadata.generation.value <= generation.value,
    ensures
        r.owned.desc == *adopted,
        r.owned.metadata.generation == generation,
        r.owned.metadata.rest == metadata.rest,
{
    RemoteCopy { owned: adopt(*adopted, metadata, generation) }
}

impl<R> RemoteCopy<R> {
    /// Takes whether the layer was copied.
    pub fn copied(self, copied: Result<(), String>) -> (r: Result<AdoptedLayer<R>, Error>)
        ensures
            r == match copied {
                Ok(_) => Ok(self.owned),
                Err(why) => Err(Error::CopyFailed(why)),
            },
    {
        match copied {
            Ok(_) => Ok(self.owned),
            Err(why) => Err(Error::CopyFailed(why)),
        }
    }
}

} // verus!
