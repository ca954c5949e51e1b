//! How a request is handled: what has to be gone through, in order, before it is served.
//!
//! Handling is driven from outside. `begin` names the first stage; its state takes how the
//! stage went and names the next one. The first stage that fails is the end.

use vstd::prelude::*;

use crate::controller::auth::Scope;
use crate::controller::endpoint::{Check, Endpoint, PathParam, TimeParam};
use crate::error::{plain, ApiError, ApiErrorView, Report};
use crate::ids::NodeId;
use crate::text::{concat2, concat3, debug_string, in_quotes, is_unescaped, owned};

verus! {

/// A stage of handling a request.
#[derive(Debug, Clone, Copy, PartialEq, Eq, Structural)]
pub enum Stage {
    /// To wait until startup is complete.
    WaitForStartup,
    /// To note the name under which the request is counted.
    Name,
    /// To read a parameter of the path.
    Param(PathParam),
    /// To look at the token.
    Permission(Scope),
    /// To read the body.
    Body,
    /// To make a check of this endpoint.
    Check(Check),
    /// To have the request served.
    Serve,
}

/// The stage that reads a parameter, if there is one.
pub open spec fn param_stage(param: Option<PathParam>) -> Seq<Stage> {
    match param {
        Some(param) => seq![Stage::Param(param)],
        None => Seq::empty(),
    }
}

/// The stage that looks at the token, if there is one.
pub open spec fn permission_stage(scope: Option<Scope>) -> Seq<Stage> {
    match scope {
        Some(scope) => seq![Stage::Permission(scope)],
        None => Seq::empty(),
    }
}

/// The stage that makes a check, if there is one.
pub open spec fn check_stage(check: Option<Check>) -> Seq<Stage> {
    match check {
        Some(check) => seq![Stage::Check(check)],
        None => Seq::empty(),
    }
}

/// A stage that may be missing.
pub open spec fn optional_stage(present: bool, stage: Stage) -> Seq<Stage> {
    if present {
        seq![stage]
    } else {
        Seq::empty()
    }
}

/// What comes before a token is looked at.
pub open spec fn stages_before_permission(endpoint: Endpoint) -> Seq<Stage> {
    optional_stage(endpoint.spec_waits_for_startup(), Stage::WaitForStartup) + optional_stage(
        endpoint.spec_request_name() is Some,
        Stage::Name,
    ) + param_stage(endpoint.spec_param_before_permission())
}

/// What comes after a token was looked at, before the request is served.
pub open spec fn stages_after_permission(endpoint: Endpoint) -> Seq<Stage> {
    param_stage(endpoint.spec_param_after_permission()) + optional_stage(
        endpoint.spec_has_body(),
        Stage::Body,
    ) + check_stage(endpoint.spec_checks().0) + check_stage(endpoint.spec_checks().1)
}

/// The stages of handling a request to `endpoint`.
pub open spec fn stages(endpoint: Endpoint) -> Seq<Stage> {
    (stages_before_permission(endpoint) + permission_stage(endpoint.spec_required_scope())
        + stages_after_permission(endpoint)).push(Stage::Serve)
}

fn push_if(list: &mut Vec<Stage>, present: bool, stage: Stage)
    ensures
        final(list)@ == old(list)@ + optional_stage(present, stage),
{
    if present {
        list.push(stage);
    }
    assert(list@ =~= old(list)@ + optional_stage(present, stage));
}

fn push_param(list: &mut Vec<Stage>, param: Option<PathParam>)
    ensures
        final(list)@ == old(list)@ + param_stage(param),
{
    if let Some(param) = param {
        list.push(Stage::Param(param));
    }
    assert(list@ =~= old(list)@ + param_stage(param));
}

fn push_permission(list: &mut Vec<Stage>, scope: Option<Scope>)
    ensures
        final(list)@ == old(list)@ + permission_stage(scope),
{
    if let Some(scope) = scope {
        list.push(Stage::Permission(scope));
    }
    assert(list@ =~= old(list)@ + permission_stage(scope));
}

fn push_check(list: &mut Vec<Stage>, check: Option<Check>)
    ensures
        final(list)@ == old(list)@ + check_stage(check),
{
    if let Some(check) = check {
        list.push(Stage::Check(check));
    }
    assert(list@ =~= old(list)@ + check_stage(check));
}

/// The stages of handling a request to `endpoint`.
pub fn stages_of(endpoint: Endpoint) -> (r: Vec<Stage>)
    ensures
        r@ == stages(endpoint),
{
    let mut list: Vec<Stage> = Vec::new();
    push_if(&mut list, endpoint.waits_for_startup(), Stage::WaitForStartup);
    push_if(&mut list, endpoint.request_name().is_some(), Stage::Name);
    push_param(&mut list, endpoint.param_before_permission());
    assert(list@ =~= stages_before_permission(endpoint));
    push_permission(&mut list, endpoint.required_scope());
    let ghost so_far = list@;
    push_param(&mut list, endpoint.param_after_permission());
    push_if(&mut list, endpoint.has_body(), Stage::Body);
    let (first, second) = endpoint.checks();
    push_check(&mut list, first);
    push_check(&mut list, second);
    assert(list@ =~= so_far + stages_after_permission(endpoint));
    list.push(Stage::Serve);
    list
}

/// A request that is being handled.
#[derive(Debug)]
pub struct Handling {
    endpoint: Endpoint,
    at: usize,
}

/// What follows a stage.
#[derive(Debug)]
pub enum Next {
    /// To go through another stage.
    Stage { stage: Stage, handling: Handling },
    /// Nothing: the request was served, or there is an error to answer with.
    Done(Result<(), ApiError>),
}

/// A `Next`, with the stage by its number.
pub enum NextView {
    Stage { stage: Stage, endpoint: Endpoint, at: nat },
    Done(Result<(), ApiError>),
}

impl View for Next {
    type V = NextView;

    open spec fn view(&self) -> NextView {
        match *self {
            Next::Stage { stage, handling } => NextView::Stage {
                stage,
                endpoint: handling.spec_endpoint(),
                at: handling.spec_at(),
            },
            Next::Done(outcome) => NextView::Done(outcome),
        }
    }
}

/// What follows stage `at`.
pub open spec fn after_stage(endpoint: Endpoint, at: nat, outcome: Result<(), ApiError>) -> NextView {
    match outcome {
        Err(e) => NextView::Done(Err(e)),
        Ok(_) => if at + 1 < stages(endpoint).len() {
            NextView::Stage { stage: stages(endpoint)[(at + 1) as int], endpoint, at: at + 1 }
        } else {
            NextView::Done(Ok(()))
        },
    }
}

/// Begins to handle a request to `endpoint`.
pub fn begin(endpoint: Endpoint) -> (r: Next)
    ensures
        r@ == (NextView::Stage { stage: stages(endpoint)[0], endpoint, at: 0 }),
{
    let list = stages_of(endpoint);
    Next::Stage { stage: list[0], handling: Handling { endpoint, at: 0 } }
}

impl Handling {
    #[verifier::type_invariant]
    spec fn wf(self) -> bool {
        self.at < stages(self.endpoint).len()
    }

    /// Where the request goes.
    pub closed spec fn spec_endpoint(self) -> Endpoint {
        self.endpoint
    }

    /// The number of the stage that the request is in.
    pub closed spec fn spec_at(self) -> nat {
        self.at as nat
    }

    /// Takes how the stage went.
    pub fn stage_done(self, outcome: Result<(), ApiError>) -> (r: Next)
        ensures
            r@ == after_stage(self.spec_endpoint(), self.spec_at(), outcome),
    {
        proof {
            use_type_invariant(&self);
        }
        match outcome {
            Err(e) => Next::Done(Err(e)),
            Ok(_) => {
                let list = stages_of(self.endpoint);
                if self.at + 1 < list.len() {
                    Next::Stage {
                        stage: list[self.at + 1],
                        handling: Handling { endpoint: self.endpoint, at: self.at + 1 },
                    }
                } else {
                    Next::Done(Ok(()))
                }
            },
        }
    }
}

// ---------------------------------------------------------------------------
// Single stages
// ---------------------------------------------------------------------------

/// How waiting for startup went: it shouldn't take too long, as it is the responsibility of
/// startup to use appropriate timeouts around its remote calls, to bound its runtime.
pub fn startup_waited(completed_in_time: bool) -> (r: Result<(), ApiError>)
    ensures
        r is Ok <==> completed_in_time,
        r matches Err(e) ==> e@ == ApiErrorView::Timeout(
            "Timed out waiting for service readiness"@,
        ),
{
    if completed_in_time {
        Ok(())
    } else {
        Err(ApiError::Timeout(owned("Timed out waiting for service readiness")))
    }
}

/// Whether path and body name the same node.
pub open spec fn name_same_node(in_path: NodeId, in_body: NodeId) -> bool {
    in_path == in_body
}

/// Whether path and body name the same node.
pub fn same_node_id(in_path: NodeId, in_body: NodeId) -> (r: Result<(), ApiError>)
    ensures
        r is Ok <==> in_path == in_body,
        r matches Err(e) ==> e@ == ApiErrorView::BadRequest(plain("Path and body node_id differ"@)),
        r is Ok <==> name_same_node(in_path, in_body),
{
    if in_path.value != in_body.value {
        return Err(ApiError::BadRequest(Report::plain(owned("Path and body node_id differ"))));
    }
    Ok(())
}

/// The path that a request is to be passed on with.
pub fn path_to_pass_on(path_and_query: Option<String>) -> (r: Result<String, ApiError>)
    ensures
        match path_and_query {
            Some(path) => r == Ok::<String, ApiError>(path),
            None => r is Err && r->Err_0@ == ApiErrorView::BadRequest(plain("Missing path"@)),
        },
{
    match path_and_query {
        Some(path) => Ok(path),
        // This should never happen, our request router only calls us if there is a path
        None => Err(ApiError::BadRequest(Report::plain(owned("Missing path")))),
    }
}

/// Whether the time library reads a text as a point in time.
pub uninterp spec fn is_rfc3339_time(text: Seq<char>) -> bool;

/// `humantime::parse_rfc3339`, of which only matters whether it succeeds. The contract only
/// says that this depends on the text alone.
#[verifier::external_body]
fn parses_as_rfc3339(text: &str) -> (r: bool)
    ensures
        r == is_rfc3339_time(text@),
{
    humantime::parse_rfc3339(text).is_ok()
}

/// What is said of a parameter that is no point in time.
pub open spec fn invalid_time(param: Seq<char>, raw: Seq<char>) -> ApiErrorView {
    ApiErrorView::BadRequest(
        plain("Invalid time for "@ + param + ": "@ + crate::text::debug_text(raw)),
    )
}

/// The outcome of checking a time parameter, given whether its value was read as a point in
/// time.
pub fn time_checked(param: TimeParam, raw: &str, is_time: bool) -> (r: Result<(), ApiError>)
    ensures
        r is Ok <==> is_time,
        r matches Err(e) ==> e@ == invalid_time(param.spec_name(), raw@),
        r matches Err(e) ==> is_unescaped(raw@) ==> e@ == ApiErrorView::BadRequest(
            plain("Invalid time for "@ + param.spec_name() + ": "@ + in_quotes(raw@)),
        ),
{
    if is_time {
        return Ok(());
    }
    let raw = debug_string(raw);
    let head = concat3("Invalid time for ", param.name(), ": ");
    Err(ApiError::BadRequest(Report::plain(concat2(head.as_str(), raw.as_str()))))
}

/// Whether the value of a time parameter is a point in time.
pub fn check_time(param: TimeParam, raw: &str) -> (r: Result<(), ApiError>)
    ensures
        r is Ok <==> is_rfc3339_time(raw@),
        r matches Err(e) ==> e@ == invalid_time(param.spec_name(), raw@),
        r matches Err(e) ==> is_unescaped(raw@) ==> e@ == ApiErrorView::BadRequest(
            plain("Invalid time for "@ + param.spec_name() + ": "@ + in_quotes(raw@)),
        ),
{
    let is_time = parses_as_rfc3339(raw);
    time_checked(param, raw, is_time)
}

/// What the attach hook gives: whatever goes wrong there is an internal error.
pub fn handle_attach_hook<T>(attached: Result<T, Report>) -> (r: Result<T, ApiError>)
    ensures
        r == match attached {
            Ok(response) => Ok(response),
            Err(report) => Err(ApiError::InternalServerError(report)),
        },
{
    match attached {
        Ok(response) => Ok(response),
        Err(report) => Err(ApiError::InternalServerError(report)),
    }
}

/// A reconciliation that failed.
#[derive(Debug)]
pub struct ReconcileError {
    pub message: String,
}

impl vstd::std_specs::convert::FromSpecImpl<ReconcileError> for ApiError {
    open spec fn obeys_from_spec() -> bool {
        false
    }

    open spec fn from_spec(value: ReconcileError) -> Self {
        arbitrary()
    }
}

impl From<ReconcileError> for ApiError {
    fn from(value: ReconcileError) -> (r: Self)
        ensures
            r@ == ApiErrorView::Conflict("Reconciliation error: "@ + value.message@),
    {
        ApiError::Conflict(concat2("Reconciliation error: ", value.message.as_str()))
    }
}

// ---------------------------------------------------------------------------
// Laws
// ---------------------------------------------------------------------------

/// What handling a request comes to that is in stage `at`, where stage `k` goes as
/// `outcomes(k)` says.
pub open spec fn handling_run(
    endpoint: Endpoint,
    at: nat,
    outcomes: spec_fn(nat) -> Result<(), ApiError>,
) -> Result<(), ApiError>
    decreases stages(endpoint).len() - at,
{
    match after_stage(endpoint, at, outcomes(at)) {
        NextView::Done(outcome) => outcome,
        NextView::Stage { at: next, .. } => handling_run(endpoint, next, outcomes),
    }
}

proof fn lemma_handling(
    endpoint: Endpoint,
    at: nat,
    outcomes: spec_fn(nat) -> Result<(), ApiError>,
)
    requires
        at < stages(endpoint).len(),
    ensures
        forall|k: nat|
            at <= k < stages(endpoint).len() && #[trigger] outcomes(k) is Err && (forall|j: nat|
                at <= j < k ==> #[trigger] outcomes(j) is Ok) ==> handling_run(
                endpoint,
                at,
                outcomes,
            ) == outcomes(k),
        (forall|j: nat| at <= j < stages(endpoint).len() ==> #[trigger] outcomes(j) is Ok)
            ==> handling_run(endpoint, at, outcomes) == Ok::<(), ApiError>(()),
    decreases stages(endpoint).len() - at,
{
    if at + 1 < stages(endpoint).len() {
        lemma_handling(endpoint, at + 1, outcomes);
    }
    assert forall|k: nat|
        at <= k < stages(endpoint).len() && #[trigger] outcomes(k) is Err && (forall|j: nat|
            at <= j < k ==> #[trigger] outcomes(j) is Ok) implies handling_run(
        endpoint,
        at,
        outcomes,
    ) == outcomes(k) by {
        if k > at {
            assert(outcomes(at) is Ok);
            assert forall|j: nat| at + 1 <= j < k implies #[trigger] outcomes(j) is Ok by {}
        }
    }
    if forall|j: nat| at <= j < stages(endpoint).len() ==> #[trigger] outcomes(j) is Ok {
        assert(outcomes(at) is Ok);
    }
}

/// A request is answered with the error of the first stage that fails, and is a success if
/// none does.
pub proof fn law_first_failure_answers(
    endpoint: Endpoint,
    outcomes: spec_fn(nat) -> Result<(), ApiError>,
)
    ensures
        forall|k: nat|
            k < stages(endpoint).len() && #[trigger] outcomes(k) is Err && (forall|j: nat|
                j < k ==> #[trigger] outcomes(j) is Ok) ==> handling_run(endpoint, 0, outcomes)
                == outcomes(k),
        (forall|j: nat| j < stages(endpoint).len() ==> #[trigger] outcomes(j) is Ok)
            ==> handling_run(endpoint, 0, outcomes) == Ok::<(), ApiError>(()),
{
    lemma_handling(endpoint, 0, outcomes);
    assert forall|k: nat|
        k < stages(endpoint).len() && #[trigger] outcomes(k) is Err && (forall|j: nat|
            j < k ==> #[trigger] outcomes(j) is Ok) implies handling_run(endpoint, 0, outcomes)
        == outcomes(k) by {
        assert forall|j: nat| 0 <= j < k implies #[trigger] outcomes(j) is Ok by {}
    }
}

/// Serving comes last, and only once.
pub proof fn law_serving_comes_last(endpoint: Endpoint, i: int)
    requires
        0 <= i < stages(endpoint).len(),
    ensures
        stages(endpoint)[i] == Stage::Serve <==> i == stages(endpoint).len() - 1,
{
}

/// Where an endpoint asks for a scope, nothing is served and no body is read before a token
/// with that scope was presented.
pub proof fn law_permission_first(endpoint: Endpoint, i: int)
    requires
        endpoint.spec_required_scope() is Some,
        0 <= i < stages(endpoint).len(),
        stages(endpoint)[i] == Stage::Body || stages(endpoint)[i] == Stage::Serve,
    ensures
        exists|p: int|
            0 <= p < i && #[trigger] stages(endpoint)[p] == Stage::Permission(
                endpoint.spec_required_scope()->0,
            ),
{
    let p = stages_before_permission(endpoint).len() as int;
    assert(stages(endpoint)[p] == Stage::Permission(endpoint.spec_required_scope()->0));
}

/// An endpoint that operates on tenants first waits for startup, and a request that waits in
/// vain is not even counted.
pub proof fn law_startup_first(endpoint: Endpoint)
    requires
        endpoint.spec_waits_for_startup(),
    ensures
        stages(endpoint)[0] == Stage::WaitForStartup,
        stages(endpoint)[1] == Stage::Name,
{
}

/// Apart from waiting, being counted comes before everything else, so that refused requests
/// are counted too.
pub proof fn law_refused_requests_are_counted(endpoint: Endpoint, i: int)
    requires
        endpoint.spec_request_name() is Some,
        0 <= i < stages(endpoint).len(),
        stages(endpoint)[i] != Stage::WaitForStartup,
        stages(endpoint)[i] != Stage::Name,
    ensures
        exists|n: int| 0 <= n < i && #[trigger] stages(endpoint)[n] == Stage::Name,
{
    let n: int = if endpoint.spec_waits_for_startup() {
        1
    } else {
        0
    };
    assert(stages(endpoint)[n] == Stage::Name);
}

/// The endpoints that ask for no scope are the metrics, the status, the readiness, the
/// failpoints and the download of secondary locations.
pub proof fn law_open_endpoints(endpoint: Endpoint)
    ensures
        endpoint.spec_required_scope() is None <==> {
            ||| endpoint == Endpoint::Metrics
            ||| endpoint == Endpoint::Status
            ||| endpoint == Endpoint::Ready
            ||| endpoint == Endpoint::Failpoints
            ||| endpoint == Endpoint::TenantSecondaryDownload
        },
{
}

/// A stage that went well is followed by the next, and the last by nothing; one that failed is
/// followed by nothing, and its error is the answer.
pub proof fn law_stage_by_stage(endpoint: Endpoint, at: nat, outcome: Result<(), ApiError>)
    requires
        at < stages(endpoint).len(),
    ensures
        outcome matches Err(e) ==> after_stage(endpoint, at, outcome) == NextView::Done(Err(e)),
        outcome is Ok && at == stages(endpoint).len() - 1 ==> after_stage(endpoint, at, outcome)
            == NextView::Done(Ok(())),
        outcome is Ok && at < stages(endpoint).len() - 1 ==> (after_stage(endpoint, at, outcome)
            matches NextView::Stage { stage, endpoint: same, at: next } && stage == stages(
            endpoint,
        )[(at + 1) as int] && same == endpoint && next == at + 1),
{
}

/// What is said of a time that cannot be read names the parameter and quotes its value.
pub proof fn law_invalid_time(param: Seq<char>, raw: Seq<char>)
    ensures
        invalid_time(param, raw) matches ApiErrorView::BadRequest(report) && report.message
            == "Invalid time for "@ + param + ": "@ + crate::text::debug_text(raw)
            && report.cause is None,
{
}

/// Path and body name the same node exactly if their numbers are the same.
pub proof fn law_same_node(in_path: NodeId, in_body: NodeId)
    ensures
        name_same_node(in_path, in_body) <==> in_path.value == in_body.value,
{
}

} // verus!
