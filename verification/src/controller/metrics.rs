//! Counting requests, and reporting the counts.

use vstd::prelude::*;

use crate::controller::endpoint::Method;

verus! {

/// The format of the metrics.
pub const TEXT_FORMAT: &'static str = "text/plain; version=0.0.4";

/// What is noted of a request when it comes in.
#[derive(Debug, Clone, Copy)]
pub struct RequestMeta {
    pub method: Method,
}

/// Under what an answered request is counted and its time observed.
#[derive(Debug, Clone, Copy)]
pub struct Observation {
    pub path: &'static str,
    pub method: Method,
    pub status: u16,
}

/// Under what an answered request is counted: nothing is counted unless the request has got
/// its name and its method was noted.
pub fn epilogue_metrics(name: Option<&'static str>, meta: &Option<RequestMeta>, status: u16) -> (r:
    Option<Observation>)
    ensures
        r is Some <==> name is Some && meta is Some,
        r matches Some(seen) ==> seen.path == name->0 && seen.method == meta->0.method
            && seen.status == status,
{
    let request_name = match name {
        Some(name) => name,
        None => {
            return None;
        },
    };
    match meta {
        Some(meta) => Some(Observation { path: request_name, method: meta.method, status }),
        None => None,
    }
}

/// What is noted of a request when it comes in.
pub fn prologue_metrics(method: Method) -> (r: RequestMeta)
    ensures
        r.method == method,
{
    RequestMeta { method }
}

/// A response that holds the metrics.
#[derive(Debug)]
pub struct MetricsResponse {
    pub status: u16,
    pub content_type: &'static str,
    pub body: Vec<u8>,
}

/// The response that holds the metrics, which have been encoded as `payload`.
pub fn measured_metrics_handler(payload: Vec<u8>) -> (r: MetricsResponse)
    ensures
        r.status == 200,
        r.content_type@ == TEXT_FORMAT@,
        r.body == payload,
{
    MetricsResponse { status: 200, content_type: TEXT_FORMAT, body: payload }
}

/// Metrics are plain text in the format of Prometheus.
pub proof fn law_text_format()
    ensures
        TEXT_FORMAT@ == "text/plain; version=0.0.4"@,
{
}

} // verus!
