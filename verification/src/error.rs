//! Errors that a client of the HTTP API is told.

use vstd::prelude::*;

verus! {

/// An error message, and what caused it.
#[derive(Debug)]
pub struct Report {
    pub message: String,
    pub cause: Option<String>,
}

/// The texts of a `Report`.
pub struct ReportView {
    pub message: Seq<char>,
    pub cause: Option<Seq<char>>,
}

/// The text of an optional string.
pub open spec fn opt_text(s: Option<String>) -> Option<Seq<char>> {
    match s {
        Some(text) => Some(text@),
        None => None,
    }
}

impl View for Report {
    type V = ReportView;

    open spec fn view(&self) -> ReportView {
        ReportView { message: self.message@, cause: opt_text(self.cause) }
    }
}

/// Why a request is refused or failed.
#[derive(Debug)]
pub enum ApiError {
    BadRequest(Report),
    Forbidden(String),
    Conflict(String),
    ShuttingDown,
    ResourceUnavailable(String),
    Timeout(String),
    InternalServerError(Report),
}

/// The texts of an `ApiError`.
pub enum ApiErrorView {
    BadRequest(ReportView),
    Forbidden(Seq<char>),
    Conflict(Seq<char>),
    ShuttingDown,
    ResourceUnavailable(Seq<char>),
    Timeout(Seq<char>),
    InternalServerError(ReportView),
}

impl View for ApiError {
    type V = ApiErrorView;

    open spec fn view(&self) -> ApiErrorView {
        match *self {
            ApiError::BadRequest(report) => ApiErrorView::BadRequest(report@),
            ApiError::Forbidden(why) => ApiErrorView::Forbidden(why@),
            ApiError::Conflict(why) => ApiErrorView::Conflict(why@),
            ApiError::ShuttingDown => ApiErrorView::ShuttingDown,
            ApiError::ResourceUnavailable(why) => ApiErrorView::ResourceUnavailable(why@),
            ApiError::Timeout(why) => ApiErrorView::Timeout(why@),
            ApiError::InternalServerError(report) => ApiErrorView::InternalServerError(report@),
        }
    }
}

/// A report without a cause.
pub open spec fn plain(message: Seq<char>) -> ReportView {
    ReportView { message, cause: None }
}

impl Report {
    /// A report without a cause.
    pub fn plain(message: String) -> (r: Report)
        ensures
            r@ == plain(message@),
    {
        Report { message, cause: None }
    }
}

/// What an error tells is what it holds, under the same heading.
pub proof fn law_errors_tell_what_they_hold(report: Report, why: String)
    ensures
        report@.message == report.message@,
        report.cause is None <==> report@.cause is None,
        report.cause is Some ==> report@.cause == Some(report.cause->0@),
        plain(why@).message == why@,
        plain(why@).cause is None,
        ApiError::BadRequest(report)@ == ApiErrorView::BadRequest(report@),
        ApiError::Forbidden(why)@ == ApiErrorView::Forbidden(why@),
        ApiError::Conflict(why)@ == ApiErrorView::Conflict(why@),
        ApiError::ShuttingDown@ == ApiErrorView::ShuttingDown,
        ApiError::ResourceUnavailable(why)@ == ApiErrorView::ResourceUnavailable(why@),
        ApiError::Timeout(why)@ == ApiErrorView::Timeout(why@),
        ApiError::InternalServerError(report)@ == ApiErrorView::InternalServerError(report@),
{
}

} // verus!
