//! How detaching fails.

use vstd::prelude::*;

use crate::error::{ApiError, ApiErrorView, Report, ReportView};
use crate::ids::TimelineId;
use crate::text::{concat2, owned};

verus! {

/// Why flushing a timeline to disk failed.
#[derive(Debug)]
pub enum FlushLayerError {
    /// The timeline is being stopped.
    Cancelled,
    /// The flush loop does not run.
    NotRunning(String),
    /// Image layers could not be made.
    CreateImageLayersError(String),
    /// Anything else.
    Other(String),
}

/// The upload queue of a timeline is not initialized, which happens around shutdown.
#[derive(Debug, Clone, Copy, PartialEq, Eq, Structural)]
pub struct NotInitialized;

/// Why a timeline could not be detached from its ancestor.
#[derive(Debug)]
pub enum Error {
    NoAncestor,
    TooManyAncestors,
    ShuttingDown,
    FlushAncestor(FlushLayerError),
    RewrittenDeltaDownloadFailed(String),
    CopyDeltaPrefix(String),
    UploadRewritten(String),
    OtherTimelineDetachOngoing(TimelineId),
    CopyFailed(String),
    Unexpected(String),
    Failpoint(&'static str),
}

impl FlushLayerError {
    /// What this error says.
    pub open spec fn text(self) -> Seq<char> {
        match self {
            FlushLayerError::Cancelled => "timeline shutting down"@,
            FlushLayerError::NotRunning(why) => why@,
            FlushLayerError::CreateImageLayersError(why) => why@,
            FlushLayerError::Other(why) => why@,
        }
    }

    /// Writes what this error says.
    pub fn to_string(&self) -> (r: String)
        ensures
            r@ == self.text(),
    {
        match self {
            FlushLayerError::Cancelled => owned("timeline shutting down"),
            FlushLayerError::NotRunning(why) => why.clone(),
            FlushLayerError::CreateImageLayersError(why) => why.clone(),
            FlushLayerError::Other(why) => why.clone(),
        }
    }
}

impl Error {
    /// What this error says.
    pub open spec fn message(self) -> Seq<char> {
        match self {
            Error::NoAncestor => "no ancestors"@,
            Error::TooManyAncestors => "too many ancestors"@,
            Error::ShuttingDown => "shutting down, please retry later"@,
            Error::FlushAncestor(_) => "flushing failed"@,
            Error::RewrittenDeltaDownloadFailed(_) => "layer download failed"@,
            Error::CopyDeltaPrefix(_) => "copying LSN prefix locally failed"@,
            Error::UploadRewritten(_) => "upload rewritten layer"@,
            Error::OtherTimelineDetachOngoing(id) => "ancestor is already being detached by: "@
                + id.text(),
            Error::CopyFailed(_) => "remote copying layer failed"@,
            Error::Unexpected(_) => "unexpected error"@,
            Error::Failpoint(name) => "failpoint: "@ + name@,
        }
    }

    /// What caused this error.
    pub open spec fn cause(self) -> Option<Seq<char>> {
        match self {
            Error::FlushAncestor(e) => Some(e.text()),
            Error::RewrittenDeltaDownloadFailed(why) => Some(why@),
            Error::CopyDeltaPrefix(why) => Some(why@),
            Error::UploadRewritten(why) => Some(why@),
            Error::CopyFailed(why) => Some(why@),
            Error::Unexpected(why) => Some(why@),
            _ => None,
        }
    }

    /// What a client is told of this error.
    pub open spec fn told(self) -> ApiErrorView {
        match self {
            Error::NoAncestor => ApiErrorView::Conflict(self.message()),
            Error::TooManyAncestors => ApiErrorView::BadRequest(
                crate::error::plain(self.message()),
            ),
            Error::ShuttingDown => ApiErrorView::ShuttingDown,
            Error::OtherTimelineDetachOngoing(_) => ApiErrorView::ResourceUnavailable(
                "other timeline detach is already ongoing"@,
            ),
            _ => ApiErrorView::InternalServerError(
                ReportView { message: self.message(), cause: self.cause() },
            ),
        }
    }

    /// Writes what this error says.
    pub fn to_string(&self) -> (r: String)
        ensures
            r@ == self.message(),
    {
        match self {
            Error::NoAncestor => owned("no ancestors"),
            Error::TooManyAncestors => owned("too many ancestors"),
            Error::ShuttingDown => owned("shutting down, please retry later"),
            Error::FlushAncestor(_) => owned("flushing failed"),
            Error::RewrittenDeltaDownloadFailed(_) => owned("layer download failed"),
            Error::CopyDeltaPrefix(_) => owned("copying LSN prefix locally failed"),
            Error::UploadRewritten(_) => owned("upload rewritten layer"),
            Error::OtherTimelineDetachOngoing(id) => {
                let id = id.to_string();
                concat2("ancestor is already being detached by: ", id.as_str())
            },
            Error::CopyFailed(_) => owned("remote copying layer failed"),
            Error::Unexpected(_) => owned("unexpected error"),
            Error::Failpoint(name) => concat2("failpoint: ", name),
        }
    }

    fn to_report(&self) -> (r: Report)
        ensures
            r@ == (ReportView { message: self.message(), cause: self.cause() }),
    {
        let message = self.to_string();
        let cause = match self {
            Error::FlushAncestor(e) => Some(e.to_string()),
            Error::RewrittenDeltaDownloadFailed(why) => Some(why.clone()),
            Error::CopyDeltaPrefix(why) => Some(why.clone()),
            Error::UploadRewritten(why) => Some(why.clone()),
            Error::CopyFailed(why) => Some(why.clone()),
            Error::Unexpected(why) => Some(why.clone()),
            _ => None,
        };
        Report { message, cause }
    }
}

impl vstd::std_specs::convert::FromSpecImpl<Error> for ApiError {
    open spec fn obeys_from_spec() -> bool {
        false
    }

    open spec fn from_spec(value: Error) -> Self {
        arbitrary()
    }
}

impl From<Error> for ApiError {
    fn from(value: Error) -> (r: Self)
        ensures
            r@ == value.told(),
    {
        match value {
            Error::NoAncestor => ApiError::Conflict(value.to_string()),
            Error::TooManyAncestors => ApiError::BadRequest(Report::plain(value.to_string())),
            Error::ShuttingDown => ApiError::ShuttingDown,
            Error::OtherTimelineDetachOngoing(_) => ApiError::ResourceUnavailable(
                owned("other timeline detach is already ongoing"),
            ),
            // All of these contain shutdown errors, in fact, it's the most common
            _ => ApiError::InternalServerError(value.to_report()),
        }
    }
}

impl vstd::std_specs::convert::FromSpecImpl<NotInitialized> for Error {
    open spec fn obeys_from_spec() -> bool {
        true
    }

    open spec fn from_spec(value: NotInitialized) -> Self {
        Error::ShuttingDown
    }
}

impl From<NotInitialized> for Error {
    /// Treats all as shutting down signals, even though that is not entirely correct
    /// (uninitialized state).
    fn from(value: NotInitialized) -> (r: Self) {
        Error::ShuttingDown
    }
}

impl vstd::std_specs::convert::FromSpecImpl<FlushLayerError> for Error {
    open spec fn obeys_from_spec() -> bool {
        true
    }

    open spec fn from_spec(value: FlushLayerError) -> Self {
        match value {
            FlushLayerError::Cancelled => Error::ShuttingDown,
            FlushLayerError::NotRunning(_) => Error::ShuttingDown,
            _ => Error::FlushAncestor(value),
        }
    }
}

impl From<FlushLayerError> for Error {
    fn from(value: FlushLayerError) -> (r: Self) {
        match value {
            FlushLayerError::Cancelled => Error::ShuttingDown,
            FlushLayerError::NotRunning(_) => Error::ShuttingDown,
            FlushLayerError::CreateImageLayersError(_) => Error::FlushAncestor(value),
            FlushLayerError::Other(_) => Error::FlushAncestor(value),
        }
    }
}

} // verus!
