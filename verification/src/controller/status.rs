//! Status codes of responses.

use vstd::prelude::*;

use crate::controller::endpoint::Success;
use crate::error::{ApiError, ApiErrorView, Report, ReportView};
use crate::text::owned;

verus! {

/// A status code: a number of three digits.
#[derive(Debug, Clone, Copy, PartialEq, Eq, Structural)]
pub struct StatusCode {
    code: u16,
}

/// Whether a number is a status code.
pub open spec fn is_status(code: u16) -> bool {
    100 <= code < 1000
}

/// `StatusCode::from_u16` of the HTTP library: takes the numbers from 100 to 999, and says
/// `invalid status code` of any other.
#[verifier::external_body]
fn http_status(code: u16) -> (r: Result<u16, String>)
    ensures
        r is Ok <==> is_status(code),
        r matches Ok(same) ==> same == code,
        r matches Err(why) ==> why@ == "invalid status code"@,
{
    match hyper::StatusCode::from_u16(code) {
        Ok(status) => Ok(status.as_u16()),
        Err(e) => Err(e.to_string()),
    }
}

impl StatusCode {
    #[verifier::type_invariant]
    spec fn wf(self) -> bool {
        is_status(self.code)
    }

    /// The number.
    pub closed spec fn spec_code(self) -> u16 {
        self.code
    }

    /// The number.
    pub fn as_u16(&self) -> (r: u16)
        ensures
            r == self.spec_code(),
            is_status(r),
    {
        proof {
            use_type_invariant(self);
        }
        self.code
    }

    /// The request was served.
    pub fn ok() -> (r: Self)
        ensures
            r.spec_code() == 200,
    {
        StatusCode { code: 200 }
    }

    /// Something was made.
    pub fn created() -> (r: Self)
        ensures
            r.spec_code() == 201,
    {
        StatusCode { code: 201 }
    }

    /// The request is being worked on.
    pub fn accepted() -> (r: Self)
        ensures
            r.spec_code() == 202,
    {
        StatusCode { code: 202 }
    }

    /// The request conflicts with something that goes on.
    pub fn conflict() -> (r: Self)
        ensures
            r.spec_code() == 409,
    {
        StatusCode { code: 409 }
    }

    /// The service cannot be used right now.
    pub fn service_unavailable() -> (r: Self)
        ensures
            r.spec_code() == 503,
    {
        StatusCode { code: 503 }
    }
}

/// What is said of a number that is no status code.
pub open spec fn invalid_status() -> ApiErrorView {
    ApiErrorView::InternalServerError(
        ReportView { message: "invalid status code"@, cause: Some("invalid status code"@) },
    )
}

/// The status of a pageserver's response, as a status to respond with.
pub fn map_reqwest_hyper_status(status: u16) -> (r: Result<StatusCode, ApiError>)
    ensures
        r is Ok <==> is_status(status),
        r matches Ok(code) ==> code.spec_code() == status,
        r matches Err(e) ==> e@ == invalid_status(),
{
    match http_status(status) {
        Ok(code) => Ok(StatusCode { code }),
        Err(why) => Err(
            ApiError::InternalServerError(
                Report { message: owned("invalid status code"), cause: Some(why) },
            ),
        ),
    }
}

/// The status to respond with when a tenant was deleted: the pageserver uses 404 for
/// successful deletion, but we use 200.
pub open spec fn deletion_status(status: u16) -> u16 {
    if status == 404 {
        200
    } else {
        status
    }
}

/// The status to respond with when a tenant was deleted: the pageserver uses 404 for
/// successful deletion, but we use 200.
pub fn tenant_delete_status(status: StatusCode) -> (r: StatusCode)
    ensures
        r.spec_code() == if status.spec_code() == 404 {
            200
        } else {
            status.spec_code()
        },
        r.spec_code() == deletion_status(status.spec_code()),
{
    if status.as_u16() == 404 {
        StatusCode::ok()
    } else {
        status
    }
}

/// The answer to a request to delete a tenant, given the pageserver's status.
pub fn handle_tenant_delete(status: Result<u16, ApiError>) -> (r: Result<StatusCode, ApiError>)
    ensures
        match status {
            Err(e) => r == Err::<StatusCode, ApiError>(e),
            Ok(status) => {
                &&& r is Ok <==> is_status(status)
                &&& r matches Ok(code) ==> code.spec_code() == if status == 404 {
                    200
                } else {
                    status
                }
                &&& r matches Ok(code) ==> code.spec_code() == deletion_status(status)
                &&& r matches Err(e) ==> e@ == invalid_status()
            },
        },
{
    match status {
        Err(e) => Err(e),
        Ok(status) => match map_reqwest_hyper_status(status) {
            Err(e) => Err(e),
            Ok(status) => Ok(tenant_delete_status(status)),
        },
    }
}

impl Success {
    /// The status of such an answer, where it does not depend on anything else.
    pub open spec fn spec_status(self) -> Option<u16> {
        match self {
            Success::Served => Some(200),
            Success::Created => Some(201),
            Success::Accepted => Some(202),
            _ => None,
        }
    }

    /// The status of such an answer, where it does not depend on anything else.
    pub fn status(self) -> (r: Option<StatusCode>)
        ensures
            (match r {
                Some(status) => Some(status.spec_code()),
                None => None,
            }) == self.spec_status(),
    {
        match self {
            Success::Served => Some(StatusCode::ok()),
            Success::Created => Some(StatusCode::created()),
            Success::Accepted => Some(StatusCode::accepted()),
            _ => None,
        }
    }
}

/// The answer of the readiness endpoint, which indicates when we're done doing startup I/O
/// (e.g. reconciling with remote pageserver nodes).
pub fn handle_ready(startup_complete: bool) -> (r: StatusCode)
    ensures
        r.spec_code() == if startup_complete {
            200u16
        } else {
            503u16
        },
{
    if startup_complete {
        StatusCode::ok()
    } else {
        StatusCode::service_unavailable()
    }
}

/// The answer of the status endpoint, which is just used for checking that our HTTP
/// listener is up.
pub fn handle_status() -> (r: StatusCode)
    ensures
        r.spec_code() == 200,
{
    StatusCode::ok()
}

/// A status has three digits. What is served, made and accepted is answered with 200, 201 and
/// 202, and a number that is no status is an internal error that says so.
pub proof fn law_statuses(code: u16)
    ensures
        is_status(code) <==> 100 <= code && code <= 999,
        Success::Served.spec_status() == Some(200u16),
        Success::Created.spec_status() == Some(201u16),
        Success::Accepted.spec_status() == Some(202u16),
        Success::AsServed.spec_status() is None,
        Success::ByReadiness.spec_status() is None,
        Success::ByPageserver.spec_status() is None,
        Success::TenantDeletion.spec_status() is None,
        Success::TimelineDeletion.spec_status() is None,
        invalid_status() matches ApiErrorView::InternalServerError(report) && report.message
            == "invalid status code"@ && report.cause == Some("invalid status code"@),
{
}

/// A tenant that is gone is a success; any other answer to its deletion is passed on. Nothing
/// else but a success becomes a success.
pub proof fn law_deletion_status(status: u16)
    ensures
        deletion_status(404) == 200,
        status != 404 ==> deletion_status(status) == status,
        deletion_status(status) == 200 ==> status == 200 || status == 404,
{
}

} // verus!
