//! Which requests are taken, and in which order the routes are tried.

use vstd::prelude::*;

use crate::controller::auth::Scope;
use crate::controller::endpoint::{Endpoint, Method};

verus! {

/// What every request goes through.
#[derive(Debug, Clone, Copy, PartialEq, Eq, Structural)]
pub enum Middleware {
    /// Notes the method and the time of the request.
    PrologueMetrics,
    /// Counts the request once it is answered.
    EpilogueMetrics,
    /// Checks the token.
    Auth,
}

/// Requests with this method and path go to this endpoint.
#[derive(Debug, Clone, Copy)]
pub struct Route {
    pub method: Method,
    pub path: &'static str,
    pub endpoint: Endpoint,
}

/// What a router is made of. Routes are tried in order.
#[derive(Debug)]
pub struct Router {
    pub middleware: Vec<Middleware>,
    pub routes: Vec<Route>,
}

/// All endpoints, in the order in which their routes are tried. The endpoint for anything
/// else about a tenant must be last in the list to avoid taking precedence over other GET
/// methods we might implement by hand.
pub open spec fn endpoints() -> Seq<Endpoint> {
    seq![
        Endpoint::Metrics,
        Endpoint::Status,
        Endpoint::Ready,
        Endpoint::ReAttach,
        Endpoint::Validate,
        Endpoint::AttachHook,
        Endpoint::Inspect,
        Endpoint::TenantDrop,
        Endpoint::NodeDrop,
        Endpoint::TenantImport,
        Endpoint::TenantsDump,
        Endpoint::TenantLocate,
        Endpoint::SchedulerDump,
        Endpoint::ConsistencyCheck,
        Endpoint::ReconcileAll,
        Endpoint::Failpoints,
        Endpoint::NodeRegister,
        Endpoint::NodeDelete,
        Endpoint::NodeList,
        Endpoint::NodeConfigure,
        Endpoint::NodeStatus,
        Endpoint::NodeDrain,
        Endpoint::CancelNodeDrain,
        Endpoint::NodeFill,
        Endpoint::CancelNodeFill,
        Endpoint::TenantShardMigrate,
        Endpoint::TenantShardSplit,
        Endpoint::TenantDescribe,
        Endpoint::TenantList,
        Endpoint::TenantUpdatePolicy,
        Endpoint::TenantCreate,
        Endpoint::TenantDelete,
        Endpoint::TenantConfigSet,
        Endpoint::TenantConfigGet,
        Endpoint::TenantLocationConfig,
        Endpoint::TenantTimeTravel,
        Endpoint::TenantSecondaryDownload,
        Endpoint::TimelineDelete,
        Endpoint::TimelineCreate,
        Endpoint::TimelineDetachAncestor,
        Endpoint::TenantPassthrough,
        Endpoint::TenantWildcardPassthrough,
    ]
}

/// Where an endpoint stands among all of them.
pub open spec fn position(endpoint: Endpoint) -> int {
    match endpoint {
        Endpoint::Metrics => 0,
        Endpoint::Status => 1,
        Endpoint::Ready => 2,
        Endpoint::ReAttach => 3,
        Endpoint::Validate => 4,
        Endpoint::AttachHook => 5,
        Endpoint::Inspect => 6,
        Endpoint::TenantDrop => 7,
        Endpoint::NodeDrop => 8,
        Endpoint::TenantImport => 9,
        Endpoint::TenantsDump => 10,
        Endpoint::TenantLocate => 11,
        Endpoint::SchedulerDump => 12,
        Endpoint::ConsistencyCheck => 13,
        Endpoint::ReconcileAll => 14,
        Endpoint::Failpoints => 15,
        Endpoint::NodeRegister => 16,
        Endpoint::NodeDelete => 17,
        Endpoint::NodeList => 18,
        Endpoint::NodeConfigure => 19,
        Endpoint::NodeStatus => 20,
        Endpoint::NodeDrain => 21,
        Endpoint::CancelNodeDrain => 22,
        Endpoint::NodeFill => 23,
        Endpoint::CancelNodeFill => 24,
        Endpoint::TenantShardMigrate => 25,
        Endpoint::TenantShardSplit => 26,
        Endpoint::TenantDescribe => 27,
        Endpoint::TenantList => 28,
        Endpoint::TenantUpdatePolicy => 29,
        Endpoint::TenantCreate => 30,
        Endpoint::TenantDelete => 31,
        Endpoint::TenantConfigSet => 32,
        Endpoint::TenantConfigGet => 33,
        Endpoint::TenantLocationConfig => 34,
        Endpoint::TenantTimeTravel => 35,
        Endpoint::TenantSecondaryDownload => 36,
        Endpoint::TimelineDelete => 37,
        Endpoint::TimelineCreate => 38,
        Endpoint::TimelineDetachAncestor => 39,
        Endpoint::TenantPassthrough => 40,
        Endpoint::TenantWildcardPassthrough => 41,
    }
}

/// Whether a route is that of an endpoint.
pub open spec fn is_route_of(route: Route, endpoint: Endpoint) -> bool {
    route.endpoint == endpoint && route.method == endpoint.spec_method() && route.path@
        == endpoint.spec_path()
}

fn list_endpoints() -> (r: Vec<Endpoint>)
    ensures
        r@ == endpoints(),
{
    let mut endpoints: Vec<Endpoint> = Vec::new();
    endpoints.push(Endpoint::Metrics);
    endpoints.push(Endpoint::Status);
    endpoints.push(Endpoint::Ready);
    endpoints.push(Endpoint::ReAttach);
    endpoints.push(Endpoint::Validate);
    endpoints.push(Endpoint::AttachHook);
    endpoints.push(Endpoint::Inspect);
    endpoints.push(Endpoint::TenantDrop);
    endpoints.push(Endpoint::NodeDrop);
    endpoints.push(Endpoint::TenantImport);
    endpoints.push(Endpoint::TenantsDump);
    endpoints.push(Endpoint::TenantLocate);
    endpoints.push(Endpoint::SchedulerDump);
    endpoints.push(Endpoint::ConsistencyCheck);
    endpoints.push(Endpoint::ReconcileAll);
    endpoints.push(Endpoint::Failpoints);
    endpoints.push(Endpoint::NodeRegister);
    endpoints.push(Endpoint::NodeDelete);
    endpoints.push(Endpoint::NodeList);
    endpoints.push(Endpoint::NodeConfigure);
    endpoints.push(Endpoint::NodeStatus);
    endpoints.push(Endpoint::NodeDrain);
    endpoints.push(Endpoint::CancelNodeDrain);
    endpoints.push(Endpoint::NodeFill);
    endpoints.push(Endpoint::CancelNodeFill);
    endpoints.push(Endpoint::TenantShardMigrate);
    endpoints.push(Endpoint::TenantShardSplit);
    endpoints.push(Endpoint::TenantDescribe);
    endpoints.push(Endpoint::TenantList);
    endpoints.push(Endpoint::TenantUpdatePolicy);
    endpoints.push(Endpoint::TenantCreate);
    endpoints.push(Endpoint::TenantDelete);
    endpoints.push(Endpoint::TenantConfigSet);
    endpoints.push(Endpoint::TenantConfigGet);
    endpoints.push(Endpoint::TenantLocationConfig);
    endpoints.push(Endpoint::TenantTimeTravel);
    endpoints.push(Endpoint::TenantSecondaryDownload);
    endpoints.push(Endpoint::TimelineDelete);
    endpoints.push(Endpoint::TimelineCreate);
    endpoints.push(Endpoint::TimelineDetachAncestor);
    endpoints.push(Endpoint::TenantPassthrough);
    endpoints.push(Endpoint::TenantWildcardPassthrough);
    assert(endpoints@ =~= self::endpoints());
    endpoints
}

/// The router of the HTTP API. Tokens are only checked where there is something to check
/// them with.
pub fn make_router(has_auth: bool) -> (r: Router)
    ensures
        r.middleware@ == if has_auth {
            seq![Middleware::PrologueMetrics, Middleware::EpilogueMetrics, Middleware::Auth]
        } else {
            seq![Middleware::PrologueMetrics, Middleware::EpilogueMetrics]
        },
        r.routes@.len() == endpoints().len(),
        forall|i: int|
            0 <= i < r.routes@.len() ==> is_route_of(#[trigger] r.routes@[i], endpoints()[i]),
{
    let mut middleware: Vec<Middleware> = Vec::new();
    middleware.push(Middleware::PrologueMetrics);
    middleware.push(Middleware::EpilogueMetrics);
    if has_auth {
        middleware.push(Middleware::Auth);
    }
    let list = list_endpoints();
    let mut routes: Vec<Route> = Vec::new();
    for i in 0..list.len()
        invariant
            list@ == endpoints(),
            routes@.len() == i,
            forall|k: int|
                0 <= k < i ==> is_route_of(#[trigger] routes@[k], endpoints()[k]),
    {
        let endpoint = list[i];
        routes.push(Route { method: endpoint.method(), path: endpoint.path(), endpoint });
    }
    Router { middleware, routes }
}

// ---------------------------------------------------------------------------
// Laws
// ---------------------------------------------------------------------------

/// Every endpoint has exactly one route.
pub proof fn law_one_route_each(endpoint: Endpoint, i: int)
    requires
        0 <= i < endpoints().len(),
    ensures
        0 <= position(endpoint) < endpoints().len(),
        endpoints()[position(endpoint)] == endpoint,
        endpoints()[i] == endpoint ==> i == position(endpoint),
{
    lemma_position(i);
}

proof fn lemma_position(i: int)
    requires
        0 <= i < endpoints().len(),
    ensures
        position(endpoints()[i]) == i,
{
}

/// The route for anything else about a tenant is the last.
pub proof fn law_wildcard_is_last()
    ensures
        endpoints().last() == Endpoint::TenantWildcardPassthrough,
        forall|i: int|
            0 <= i < endpoints().len() - 1 ==> #[trigger] endpoints()[i]
                != Endpoint::TenantWildcardPassthrough,
{
    assert forall|i: int| 0 <= i < endpoints().len() - 1 implies #[trigger] endpoints()[i]
        != Endpoint::TenantWildcardPassthrough by {
        lemma_position(i);
    }
}

/// Whether `text` begins with `start`.
pub open spec fn begins_with(text: Seq<char>, start: Seq<char>) -> bool {
    start.is_prefix_of(text)
}

/// The endpoints under `/v1/` act as a "Virtual Pageserver", enabling shard-naive clients to
/// call into this service to manage tenants that actually consist of many tenant shards, as
/// if they are a single entity: all of them wait for startup, and none asks for more than
/// the scope of a pageserver's API.
pub proof fn law_virtual_pageserver(endpoint: Endpoint)
    requires
        begins_with(endpoint.spec_path(), "/v1/"@),
    ensures
        endpoint.spec_waits_for_startup(),
        endpoint.spec_required_scope() == Some(Scope::PageServerApi)
            || endpoint.spec_required_scope() == None::<Scope>,
{
    reveal_strlit("/v1/");
    lemma_path_shape(endpoint);
    assert(endpoint.spec_path()[1] == "/v1/"@[1]);
}

/// Nodes and tenants are controlled by administrators only; the one thing that the scrubber
/// may do is to look at a tenant.
pub proof fn law_control_needs_admin(endpoint: Endpoint)
    requires
        begins_with(endpoint.spec_path(), "/control/v1/"@),
    ensures
        endpoint.spec_required_scope() == Some(
            if endpoint == Endpoint::TenantDescribe {
                Scope::Scrubber
            } else {
                Scope::Admin
            },
        ),
{
    reveal_strlit("/control/v1/");
    lemma_path_shape(endpoint);
    assert(endpoint.spec_path()[1] == "/control/v1/"@[1]);
}

/// The endpoints that are reached without a token, because their paths are allowlisted, are
/// those for the status, for the readiness and for the metrics; all of them only read, and
/// none of them asks for a scope.
pub proof fn law_allowlisted_endpoints(endpoint: Endpoint)
    ensures
        crate::controller::uri::allowlisted_paths().contains(endpoint.spec_path()) <==> {
            ||| endpoint == Endpoint::Metrics
            ||| endpoint == Endpoint::Status
            ||| endpoint == Endpoint::Ready
        },
        crate::controller::uri::allowlisted_paths().contains(endpoint.spec_path())
            ==> endpoint.spec_method() == Method::Get && endpoint.spec_required_scope()
            == None::<Scope>,
{
    let listed = crate::controller::uri::allowlisted_paths();
    lemma_path_shape(endpoint);
    lemma_path_shape(Endpoint::Metrics);
    lemma_path_shape(Endpoint::Status);
    lemma_path_shape(Endpoint::Ready);
    assert(listed[0] == Endpoint::Status.spec_path());
    assert(listed[1] == Endpoint::Ready.spec_path());
    assert(listed[2] == Endpoint::Metrics.spec_path());
    if listed.contains(endpoint.spec_path()) {
        let k = choose|k: int| 0 <= k < listed.len() && listed[k] == endpoint.spec_path();
        assert(k == 0 || k == 1 || k == 2);
    }
}

/// The length of an endpoint's path, and its first letter.
spec fn path_shape(endpoint: Endpoint) -> (nat, char) {
    match endpoint {
        Endpoint::Metrics => (8, 'm'),
        Endpoint::Status => (7, 's'),
        Endpoint::Ready => (6, 'r'),
        Endpoint::ReAttach => (20, 'u'),
        Endpoint::Validate => (19, 'u'),
        Endpoint::AttachHook => (21, 'd'),
        Endpoint::Inspect => (17, 'd'),
        Endpoint::TenantDrop => (32, 'd'),
        Endpoint::NodeDrop => (28, 'd'),
        Endpoint::TenantImport => (34, 'd'),
        Endpoint::TenantsDump => (16, 'd'),
        Endpoint::TenantLocate => (34, 'd'),
        Endpoint::SchedulerDump => (19, 'd'),
        Endpoint::ConsistencyCheck => (27, 'd'),
        Endpoint::ReconcileAll => (23, 'd'),
        Endpoint::Failpoints => (20, 'd'),
        Endpoint::NodeRegister => (16, 'c'),
        Endpoint::NodeDelete => (25, 'c'),
        Endpoint::NodeList => (16, 'c'),
        Endpoint::NodeConfigure => (32, 'c'),
        Endpoint::NodeStatus => (25, 'c'),
        Endpoint::NodeDrain => (31, 'c'),
        Endpoint::CancelNodeDrain => (31, 'c'),
        Endpoint::NodeFill => (30, 'c'),
        Endpoint::CancelNodeFill => (30, 'c'),
        Endpoint::TenantShardMigrate => (43, 'c'),
        Endpoint::TenantShardSplit => (41, 'c'),
        Endpoint::TenantDescribe => (29, 'c'),
        Endpoint::TenantList => (18, 'c'),
        Endpoint::TenantUpdatePolicy => (36, 'c'),
        Endpoint::TenantCreate => (10, 'v'),
        Endpoint::TenantDelete => (21, 'v'),
        Endpoint::TenantConfigSet => (17, 'v'),
        Endpoint::TenantConfigGet => (28, 'v'),
        Endpoint::TenantLocationConfig => (43, 'v'),
        Endpoint::TenantTimeTravel => (48, 'v'),
        Endpoint::TenantSecondaryDownload => (40, 'v'),
        Endpoint::TimelineDelete => (43, 'v'),
        Endpoint::TimelineCreate => (30, 'v'),
        Endpoint::TimelineDetachAncestor => (59, 'v'),
        Endpoint::TenantPassthrough => (21, 'v'),
        Endpoint::TenantWildcardPassthrough => (23, 'v'),
    }
}

proof fn lemma_path_shape(endpoint: Endpoint)
    ensures
        endpoint.spec_path().len() == path_shape(endpoint).0,
        endpoint.spec_path()[1] == path_shape(endpoint).1,
{
    reveal_strlit("/control/v1/node");
    reveal_strlit("/control/v1/node/:node_id");
    reveal_strlit("/control/v1/node/:node_id/config");
    reveal_strlit("/control/v1/node/:node_id/drain");
    reveal_strlit("/control/v1/node/:node_id/fill");
    reveal_strlit("/control/v1/tenant");
    reveal_strlit("/control/v1/tenant/:tenant_id");
    reveal_strlit("/control/v1/tenant/:tenant_id/policy");
    reveal_strlit("/control/v1/tenant/:tenant_id/shard_split");
    reveal_strlit("/control/v1/tenant/:tenant_shard_id/migrate");
    reveal_strlit("/debug/v1/attach-hook");
    reveal_strlit("/debug/v1/consistency_check");
    reveal_strlit("/debug/v1/failpoints");
    reveal_strlit("/debug/v1/inspect");
    reveal_strlit("/debug/v1/node/:node_id/drop");
    reveal_strlit("/debug/v1/reconcile_all");
    reveal_strlit("/debug/v1/scheduler");
    reveal_strlit("/debug/v1/tenant");
    reveal_strlit("/debug/v1/tenant/:tenant_id/drop");
    reveal_strlit("/debug/v1/tenant/:tenant_id/import");
    reveal_strlit("/debug/v1/tenant/:tenant_id/locate");
    reveal_strlit("/metrics");
    reveal_strlit("/ready");
    reveal_strlit("/status");
    reveal_strlit("/upcall/v1/re-attach");
    reveal_strlit("/upcall/v1/validate");
    reveal_strlit("/v1/tenant");
    reveal_strlit("/v1/tenant/:tenant_id");
    reveal_strlit("/v1/tenant/:tenant_id/*");
    reveal_strlit("/v1/tenant/:tenant_id/config");
    reveal_strlit("/v1/tenant/:tenant_id/secondary/download");
    reveal_strlit("/v1/tenant/:tenant_id/time_travel_remote_storage");
    reveal_strlit("/v1/tenant/:tenant_id/timeline");
    reveal_strlit("/v1/tenant/:tenant_id/timeline/:timeline_id");
    reveal_strlit("/v1/tenant/:tenant_id/timeline/:timeline_id/detach_ancestor");
    reveal_strlit("/v1/tenant/:tenant_shard_id/location_config");
    reveal_strlit("/v1/tenant/config");
}

/// No two routes take the same method and path.
pub proof fn law_routes_differ(a: Endpoint, b: Endpoint)
    requires
        a != b,
        a.spec_method() == b.spec_method(),
    ensures
        a.spec_path() != b.spec_path(),
{
    lemma_path_shape(a);
    lemma_path_shape(b);
    assert(path_shape(a) != path_shape(b));
}

} // verus!
