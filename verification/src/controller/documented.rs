//! The HTTP API as its clients know it: which requests there are, what each goes through, and
//! how it is answered. Everything is said in the very words of the API, so that it holds of the
//! service and not only of how the service describes itself.

use vstd::prelude::*;

use crate::controller::auth::{is_permitted, Claims, Scope};
use crate::controller::endpoint::{Check, Endpoint, Method, PathParam, Success, TimeParam};
use crate::controller::handler::{check_stage, optional_stage, param_stage, permission_stage, stages, Stage};
use crate::controller::router::{endpoints, is_route_of, Route};

verus! {

/// Whether requests with this method and path go to this endpoint by this route.
pub open spec fn leads(route: Route, method: Method, path: Seq<char>, endpoint: Endpoint) -> bool {
    route.method == method && route.path@ == path && route.endpoint == endpoint
}

/// Every request that clients know has a route with its method and its path, in this order,
/// and there are no other routes.
pub proof fn law_requests_are_routed(routes: Seq<Route>)
    requires
        routes.len() == endpoints().len(),
        forall|i: int|
            0 <= i < routes.len() ==> is_route_of(#[trigger] routes[i], endpoints()[i]),
    ensures
        routes.len() == 42,
        leads(routes[0], Method::Get, "/metrics"@, Endpoint::Metrics),
        leads(routes[1], Method::Get, "/status"@, Endpoint::Status),
        leads(routes[2], Method::Get, "/ready"@, Endpoint::Ready),
        leads(routes[3], Method::Post, "/upcall/v1/re-attach"@, Endpoint::ReAttach),
        leads(routes[4], Method::Post, "/upcall/v1/validate"@, Endpoint::Validate),
        leads(routes[5], Method::Post, "/debug/v1/attach-hook"@, Endpoint::AttachHook),
        leads(routes[6], Method::Post, "/debug/v1/inspect"@, Endpoint::Inspect),
        leads(routes[7], Method::Post, "/debug/v1/tenant/:tenant_id/drop"@, Endpoint::TenantDrop),
        leads(routes[8], Method::Post, "/debug/v1/node/:node_id/drop"@, Endpoint::NodeDrop),
        leads(routes[9], Method::Post, "/debug/v1/tenant/:tenant_id/import"@, Endpoint::TenantImport),
        leads(routes[10], Method::Get, "/debug/v1/tenant"@, Endpoint::TenantsDump),
        leads(routes[11], Method::Get, "/debug/v1/tenant/:tenant_id/locate"@, Endpoint::TenantLocate),
        leads(routes[12], Method::Get, "/debug/v1/scheduler"@, Endpoint::SchedulerDump),
        leads(routes[13], Method::Post, "/debug/v1/consistency_check"@, Endpoint::ConsistencyCheck),
        leads(routes[14], Method::Post, "/debug/v1/reconcile_all"@, Endpoint::ReconcileAll),
        leads(routes[15], Method::Put, "/debug/v1/failpoints"@, Endpoint::Failpoints),
        leads(routes[16], Method::Post, "/control/v1/node"@, Endpoint::NodeRegister),
        leads(routes[17], Method::Delete, "/control/v1/node/:node_id"@, Endpoint::NodeDelete),
        leads(routes[18], Method::Get, "/control/v1/node"@, Endpoint::NodeList),
        leads(routes[19], Method::Put, "/control/v1/node/:node_id/config"@, Endpoint::NodeConfigure),
        leads(routes[20], Method::Get, "/control/v1/node/:node_id"@, Endpoint::NodeStatus),
        leads(routes[21], Method::Put, "/control/v1/node/:node_id/drain"@, Endpoint::NodeDrain),
        leads(routes[22], Method::Delete, "/control/v1/node/:node_id/drain"@, Endpoint::CancelNodeDrain),
        leads(routes[23], Method::Put, "/control/v1/node/:node_id/fill"@, Endpoint::NodeFill),
        leads(routes[24], Method::Delete, "/control/v1/node/:node_id/fill"@, Endpoint::CancelNodeFill),
        leads(routes[25], Method::Put, "/control/v1/tenant/:tenant_shard_id/migrate"@, Endpoint::TenantShardMigrate),
        leads(routes[26], Method::Put, "/control/v1/tenant/:tenant_id/shard_split"@, Endpoint::TenantShardSplit),
        leads(routes[27], Method::Get, "/control/v1/tenant/:tenant_id"@, Endpoint::TenantDescribe),
        leads(routes[28], Method::Get, "/control/v1/tenant"@, Endpoint::TenantList),
        leads(routes[29], Method::Put, "/control/v1/tenant/:tenant_id/policy"@, Endpoint::TenantUpdatePolicy),
        leads(routes[30], Method::Post, "/v1/tenant"@, Endpoint::TenantCreate),
        leads(routes[31], Method::Delete, "/v1/tenant/:tenant_id"@, Endpoint::TenantDelete),
        leads(routes[32], Method::Put, "/v1/tenant/config"@, Endpoint::TenantConfigSet),
        leads(routes[33], Method::Get, "/v1/tenant/:tenant_id/config"@, Endpoint::TenantConfigGet),
        leads(routes[34], Method::Put, "/v1/tenant/:tenant_shard_id/location_config"@, Endpoint::TenantLocationConfig),
        leads(routes[35], Method::Put, "/v1/tenant/:tenant_id/time_travel_remote_storage"@, Endpoint::TenantTimeTravel),
        leads(routes[36], Method::Post, "/v1/tenant/:tenant_id/secondary/download"@, Endpoint::TenantSecondaryDownload),
        leads(routes[37], Method::Delete, "/v1/tenant/:tenant_id/timeline/:timeline_id"@, Endpoint::TimelineDelete),
        leads(routes[38], Method::Post, "/v1/tenant/:tenant_id/timeline"@, Endpoint::TimelineCreate),
        leads(routes[39], Method::Put, "/v1/tenant/:tenant_id/timeline/:timeline_id/detach_ancestor"@, Endpoint::TimelineDetachAncestor),
        leads(routes[40], Method::Get, "/v1/tenant/:tenant_id"@, Endpoint::TenantPassthrough),
        leads(routes[41], Method::Get, "/v1/tenant/:tenant_id/*"@, Endpoint::TenantWildcardPassthrough),
{
    assert(is_route_of(routes[0], endpoints()[0]));
    assert(is_route_of(routes[1], endpoints()[1]));
    assert(is_route_of(routes[2], endpoints()[2]));
    assert(is_route_of(routes[3], endpoints()[3]));
    assert(is_route_of(routes[4], endpoints()[4]));
    assert(is_route_of(routes[5], endpoints()[5]));
    assert(is_route_of(routes[6], endpoints()[6]));
    assert(is_route_of(routes[7], endpoints()[7]));
    assert(is_route_of(routes[8], endpoints()[8]));
    assert(is_route_of(routes[9], endpoints()[9]));
    assert(is_route_of(routes[10], endpoints()[10]));
    assert(is_route_of(routes[11], endpoints()[11]));
    assert(is_route_of(routes[12], endpoints()[12]));
    assert(is_route_of(routes[13], endpoints()[13]));
    assert(is_route_of(routes[14], endpoints()[14]));
    assert(is_route_of(routes[15], endpoints()[15]));
    assert(is_route_of(routes[16], endpoints()[16]));
    assert(is_route_of(routes[17], endpoints()[17]));
    assert(is_route_of(routes[18], endpoints()[18]));
    assert(is_route_of(routes[19], endpoints()[19]));
    assert(is_route_of(routes[20], endpoints()[20]));
    assert(is_route_of(routes[21], endpoints()[21]));
    assert(is_route_of(routes[22], endpoints()[22]));
    assert(is_route_of(routes[23], endpoints()[23]));
    assert(is_route_of(routes[24], endpoints()[24]));
    assert(is_route_of(routes[25], endpoints()[25]));
    assert(is_route_of(routes[26], endpoints()[26]));
    assert(is_route_of(routes[27], endpoints()[27]));
    assert(is_route_of(routes[28], endpoints()[28]));
    assert(is_route_of(routes[29], endpoints()[29]));
    assert(is_route_of(routes[30], endpoints()[30]));
    assert(is_route_of(routes[31], endpoints()[31]));
    assert(is_route_of(routes[32], endpoints()[32]));
    assert(is_route_of(routes[33], endpoints()[33]));
    assert(is_route_of(routes[34], endpoints()[34]));
    assert(is_route_of(routes[35], endpoints()[35]));
    assert(is_route_of(routes[36], endpoints()[36]));
    assert(is_route_of(routes[37], endpoints()[37]));
    assert(is_route_of(routes[38], endpoints()[38]));
    assert(is_route_of(routes[39], endpoints()[39]));
    assert(is_route_of(routes[40], endpoints()[40]));
    assert(is_route_of(routes[41], endpoints()[41]));
}

/// What a request goes through before it is answered, endpoint by endpoint: whether it waits
/// for startup, whether it is counted, which parameters are read, which token it needs, whether
/// its body is read, and which checks are made, in this order.
pub proof fn law_what_requests_go_through()
    ensures
        stages(Endpoint::Metrics) == seq![Stage::Name, Stage::Serve],
        stages(Endpoint::Status) == seq![Stage::Name, Stage::Serve],
        stages(Endpoint::Ready) == seq![Stage::Name, Stage::Serve],
        stages(Endpoint::ReAttach) == seq![Stage::Name, Stage::Permission(Scope::GenerationsApi), Stage::Body, Stage::Serve],
        stages(Endpoint::Validate) == seq![Stage::Name, Stage::Permission(Scope::GenerationsApi), Stage::Body, Stage::Serve],
        stages(Endpoint::AttachHook) == seq![Stage::Name, Stage::Permission(Scope::Admin), Stage::Body, Stage::Serve],
        stages(Endpoint::Inspect) == seq![Stage::Name, Stage::Permission(Scope::Admin), Stage::Body, Stage::Serve],
        stages(Endpoint::TenantDrop) == seq![Stage::Name, Stage::Param(PathParam::TenantId), Stage::Permission(Scope::PageServerApi), Stage::Serve],
        stages(Endpoint::NodeDrop) == seq![Stage::Name, Stage::Permission(Scope::Admin), Stage::Param(PathParam::NodeId), Stage::Serve],
        stages(Endpoint::TenantImport) == seq![Stage::Name, Stage::Param(PathParam::TenantId), Stage::Permission(Scope::PageServerApi), Stage::Serve],
        stages(Endpoint::TenantsDump) == seq![Stage::Name, Stage::Permission(Scope::Admin), Stage::Serve],
        stages(Endpoint::TenantLocate) == seq![Stage::WaitForStartup, Stage::Name, Stage::Permission(Scope::Admin), Stage::Param(PathParam::TenantId), Stage::Serve],
        stages(Endpoint::SchedulerDump) == seq![Stage::Name, Stage::Permission(Scope::Admin), Stage::Serve],
        stages(Endpoint::ConsistencyCheck) == seq![Stage::Name, Stage::Permission(Scope::Admin), Stage::Serve],
        stages(Endpoint::ReconcileAll) == seq![Stage::Permission(Scope::Admin), Stage::Serve],
        stages(Endpoint::Failpoints) == seq![Stage::Serve],
        stages(Endpoint::NodeRegister) == seq![Stage::Name, Stage::Permission(Scope::Admin), Stage::Body, Stage::Serve],
        stages(Endpoint::NodeDelete) == seq![Stage::Name, Stage::Permission(Scope::Admin), Stage::Param(PathParam::NodeId), Stage::Serve],
        stages(Endpoint::NodeList) == seq![Stage::Name, Stage::Permission(Scope::Admin), Stage::Serve],
        stages(Endpoint::NodeConfigure) == seq![Stage::Name, Stage::Permission(Scope::Admin), Stage::Param(PathParam::NodeId), Stage::Body, Stage::Check(Check::SameNodeId), Stage::Serve],
        stages(Endpoint::NodeStatus) == seq![Stage::Name, Stage::Permission(Scope::Admin), Stage::Param(PathParam::NodeId), Stage::Serve],
        stages(Endpoint::NodeDrain) == seq![Stage::Name, Stage::Permission(Scope::Admin), Stage::Param(PathParam::NodeId), Stage::Serve],
        stages(Endpoint::CancelNodeDrain) == seq![Stage::Name, Stage::Permission(Scope::Admin), Stage::Param(PathParam::NodeId), Stage::Serve],
        stages(Endpoint::NodeFill) == seq![Stage::Name, Stage::Permission(Scope::Admin), Stage::Param(PathParam::NodeId), Stage::Serve],
        stages(Endpoint::CancelNodeFill) == seq![Stage::Name, Stage::Permission(Scope::Admin), Stage::Param(PathParam::NodeId), Stage::Serve],
        stages(Endpoint::TenantShardMigrate) == seq![Stage::WaitForStartup, Stage::Name, Stage::Permission(Scope::Admin), Stage::Param(PathParam::TenantShardId), Stage::Body, Stage::Serve],
        stages(Endpoint::TenantShardSplit) == seq![Stage::WaitForStartup, Stage::Name, Stage::Permission(Scope::Admin), Stage::Param(PathParam::TenantId), Stage::Body, Stage::Serve],
        stages(Endpoint::TenantDescribe) == seq![Stage::WaitForStartup, Stage::Name, Stage::Permission(Scope::Scrubber), Stage::Param(PathParam::TenantId), Stage::Serve],
        stages(Endpoint::TenantList) == seq![Stage::WaitForStartup, Stage::Name, Stage::Permission(Scope::Admin), Stage::Serve],
        stages(Endpoint::TenantUpdatePolicy) == seq![Stage::Name, Stage::Permission(Scope::Admin), Stage::Param(PathParam::TenantId), Stage::Body, Stage::Serve],
        stages(Endpoint::TenantCreate) == seq![Stage::WaitForStartup, Stage::Name, Stage::Permission(Scope::PageServerApi), Stage::Body, Stage::Serve],
        stages(Endpoint::TenantDelete) == seq![Stage::WaitForStartup, Stage::Name, Stage::Param(PathParam::TenantId), Stage::Permission(Scope::PageServerApi), Stage::Serve],
        stages(Endpoint::TenantConfigSet) == seq![Stage::WaitForStartup, Stage::Name, Stage::Permission(Scope::PageServerApi), Stage::Body, Stage::Serve],
        stages(Endpoint::TenantConfigGet) == seq![Stage::WaitForStartup, Stage::Name, Stage::Param(PathParam::TenantId), Stage::Permission(Scope::PageServerApi), Stage::Serve],
        stages(Endpoint::TenantLocationConfig) == seq![Stage::WaitForStartup, Stage::Name, Stage::Param(PathParam::TenantShardId), Stage::Permission(Scope::PageServerApi), Stage::Body, Stage::Serve],
        stages(Endpoint::TenantTimeTravel) == seq![Stage::WaitForStartup, Stage::Name, Stage::Param(PathParam::TenantId), Stage::Permission(Scope::PageServerApi), Stage::Body, Stage::Check(Check::Time(TimeParam::TravelTo)), Stage::Check(Check::Time(TimeParam::DoneIfAfter)), Stage::Serve],
        stages(Endpoint::TenantSecondaryDownload) == seq![Stage::WaitForStartup, Stage::Name, Stage::Param(PathParam::TenantId), Stage::Check(Check::WaitMs), Stage::Serve],
        stages(Endpoint::TimelineDelete) == seq![Stage::WaitForStartup, Stage::Name, Stage::Param(PathParam::TenantId), Stage::Permission(Scope::PageServerApi), Stage::Param(PathParam::TimelineId), Stage::Serve],
        stages(Endpoint::TimelineCreate) == seq![Stage::WaitForStartup, Stage::Name, Stage::Param(PathParam::TenantId), Stage::Permission(Scope::PageServerApi), Stage::Body, Stage::Serve],
        stages(Endpoint::TimelineDetachAncestor) == seq![Stage::WaitForStartup, Stage::Name, Stage::Param(PathParam::TenantId), Stage::Permission(Scope::PageServerApi), Stage::Param(PathParam::TimelineId), Stage::Serve],
        stages(Endpoint::TenantPassthrough) == seq![Stage::WaitForStartup, Stage::Name, Stage::Param(PathParam::TenantId), Stage::Permission(Scope::PageServerApi), Stage::Check(Check::PathAndQuery), Stage::Serve],
        stages(Endpoint::TenantWildcardPassthrough) == seq![Stage::WaitForStartup, Stage::Name, Stage::Param(PathParam::TenantId), Stage::Permission(Scope::PageServerApi), Stage::Check(Check::PathAndQuery), Stage::Serve],
{
    assert(stages(Endpoint::Metrics) =~= seq![Stage::Name, Stage::Serve]);
    assert(stages(Endpoint::Status) =~= seq![Stage::Name, Stage::Serve]);
    assert(stages(Endpoint::Ready) =~= seq![Stage::Name, Stage::Serve]);
    assert(stages(Endpoint::ReAttach) =~= seq![Stage::Name, Stage::Permission(Scope::GenerationsApi), Stage::Body, Stage::Serve]);
    assert(stages(Endpoint::Validate) =~= seq![Stage::Name, Stage::Permission(Scope::GenerationsApi), Stage::Body, Stage::Serve]);
    assert(stages(Endpoint::AttachHook) =~= seq![Stage::Name, Stage::Permission(Scope::Admin), Stage::Body, Stage::Serve]);
    assert(stages(Endpoint::Inspect) =~= seq![Stage::Name, Stage::Permission(Scope::Admin), Stage::Body, Stage::Serve]);
    assert(stages(Endpoint::TenantDrop) =~= seq![Stage::Name, Stage::Param(PathParam::TenantId), Stage::Permission(Scope::PageServerApi), Stage::Serve]);
    assert(stages(Endpoint::NodeDrop) =~= seq![Stage::Name, Stage::Permission(Scope::Admin), Stage::Param(PathParam::NodeId), Stage::Serve]);
    assert(stages(Endpoint::TenantImport) =~= seq![Stage::Name, Stage::Param(PathParam::TenantId), Stage::Permission(Scope::PageServerApi), Stage::Serve]);
    assert(stages(Endpoint::TenantsDump) =~= seq![Stage::Name, Stage::Permission(Scope::Admin), Stage::Serve]);
    assert(stages(Endpoint::TenantLocate) =~= seq![Stage::WaitForStartup, Stage::Name, Stage::Permission(Scope::Admin), Stage::Param(PathParam::TenantId), Stage::Serve]);
    assert(stages(Endpoint::SchedulerDump) =~= seq![Stage::Name, Stage::Permission(Scope::Admin), Stage::Serve]);
    assert(stages(Endpoint::ConsistencyCheck) =~= seq![Stage::Name, Stage::Permission(Scope::Admin), Stage::Serve]);
    assert(stages(Endpoint::ReconcileAll) =~= seq![Stage::Permission(Scope::Admin), Stage::Serve]);
    assert(stages(Endpoint::Failpoints) =~= seq![Stage::Serve]);
    assert(stages(Endpoint::NodeRegister) =~= seq![Stage::Name, Stage::Permission(Scope::Admin), Stage::Body, Stage::Serve]);
    assert(stages(Endpoint::NodeDelete) =~= seq![Stage::Name, Stage::Permission(Scope::Admin), Stage::Param(PathParam::NodeId), Stage::Serve]);
    assert(stages(Endpoint::NodeList) =~= seq![Stage::Name, Stage::Permission(Scope::Admin), Stage::Serve]);
    assert(stages(Endpoint::NodeConfigure) =~= seq![Stage::Name, Stage::Permission(Scope::Admin), Stage::Param(PathParam::NodeId), Stage::Body, Stage::Check(Check::SameNodeId), Stage::Serve]);
    assert(stages(Endpoint::NodeStatus) =~= seq![Stage::Name, Stage::Permission(Scope::Admin), Stage::Param(PathParam::NodeId), Stage::Serve]);
    assert(stages(Endpoint::NodeDrain) =~= seq![Stage::Name, Stage::Permission(Scope::Admin), Stage::Param(PathParam::NodeId), Stage::Serve]);
    assert(stages(Endpoint::CancelNodeDrain) =~= seq![Stage::Name, Stage::Permission(Scope::Admin), Stage::Param(PathParam::NodeId), Stage::Serve]);
    assert(stages(Endpoint::NodeFill) =~= seq![Stage::Name, Stage::Permission(Scope::Admin), Stage::Param(PathParam::NodeId), Stage::Serve]);
    assert(stages(Endpoint::CancelNodeFill) =~= seq![Stage::Name, Stage::Permission(Scope::Admin), Stage::Param(PathParam::NodeId), Stage::Serve]);
    assert(stages(Endpoint::TenantShardMigrate) =~= seq![Stage::WaitForStartup, Stage::Name, Stage::Permission(Scope::Admin), Stage::Param(PathParam::TenantShardId), Stage::Body, Stage::Serve]);
    assert(stages(Endpoint::TenantShardSplit) =~= seq![Stage::WaitForStartup, Stage::Name, Stage::Permission(Scope::Admin), Stage::Param(PathParam::TenantId), Stage::Body, Stage::Serve]);
    assert(stages(Endpoint::TenantDescribe) =~= seq![Stage::WaitForStartup, Stage::Name, Stage::Permission(Scope::Scrubber), Stage::Param(PathParam::TenantId), Stage::Serve]);
    assert(stages(Endpoint::TenantList) =~= seq![Stage::WaitForStartup, Stage::Name, Stage::Permission(Scope::Admin), Stage::Serve]);
    assert(stages(Endpoint::TenantUpdatePolicy) =~= seq![Stage::Name, Stage::Permission(Scope::Admin), Stage::Param(PathParam::TenantId), Stage::Body, Stage::Serve]);
    assert(stages(Endpoint::TenantCreate) =~= seq![Stage::WaitForStartup, Stage::Name, Stage::Permission(Scope::PageServerApi), Stage::Body, Stage::Serve]);
    assert(stages(Endpoint::TenantDelete) =~= seq![Stage::WaitForStartup, Stage::Name, Stage::Param(PathParam::TenantId), Stage::Permission(Scope::PageServerApi), Stage::Serve]);
    assert(stages(Endpoint::TenantConfigSet) =~= seq![Stage::WaitForStartup, Stage::Name, Stage::Permission(Scope::PageServerApi), Stage::Body, Stage::Serve]);
    assert(stages(Endpoint::TenantConfigGet) =~= seq![Stage::WaitForStartup, Stage::Name, Stage::Param(PathParam::TenantId), Stage::Permission(Scope::PageServerApi), Stage::Serve]);
    assert(stages(Endpoint::TenantLocationConfig) =~= seq![Stage::WaitForStartup, Stage::Name, Stage::Param(PathParam::TenantShardId), Stage::Permission(Scope::PageServerApi), Stage::Body, Stage::Serve]);
    assert(stages(Endpoint::TenantTimeTravel) =~= seq![Stage::WaitForStartup, Stage::Name, Stage::Param(PathParam::TenantId), Stage::Permission(Scope::PageServerApi), Stage::Body, Stage::Check(Check::Time(TimeParam::TravelTo)), Stage::Check(Check::Time(TimeParam::DoneIfAfter)), Stage::Serve]);
    assert(stages(Endpoint::TenantSecondaryDownload) =~= seq![Stage::WaitForStartup, Stage::Name, Stage::Param(PathParam::TenantId), Stage::Check(Check::WaitMs), Stage::Serve]);
    assert(stages(Endpoint::TimelineDelete) =~= seq![Stage::WaitForStartup, Stage::Name, Stage::Param(PathParam::TenantId), Stage::Permission(Scope::PageServerApi), Stage::Param(PathParam::TimelineId), Stage::Serve]);
    assert(stages(Endpoint::TimelineCreate) =~= seq![Stage::WaitForStartup, Stage::Name, Stage::Param(PathParam::TenantId), Stage::Permission(Scope::PageServerApi), Stage::Body, Stage::Serve]);
    assert(stages(Endpoint::TimelineDetachAncestor) =~= seq![Stage::WaitForStartup, Stage::Name, Stage::Param(PathParam::TenantId), Stage::Permission(Scope::PageServerApi), Stage::Param(PathParam::TimelineId), Stage::Serve]);
    assert(stages(Endpoint::TenantPassthrough) =~= seq![Stage::WaitForStartup, Stage::Name, Stage::Param(PathParam::TenantId), Stage::Permission(Scope::PageServerApi), Stage::Check(Check::PathAndQuery), Stage::Serve]);
    assert(stages(Endpoint::TenantWildcardPassthrough) =~= seq![Stage::WaitForStartup, Stage::Name, Stage::Param(PathParam::TenantId), Stage::Permission(Scope::PageServerApi), Stage::Check(Check::PathAndQuery), Stage::Serve]);
}

proof fn lemma_concat_contains(a: Seq<Stage>, b: Seq<Stage>, x: Stage)
    ensures
        (a + b).contains(x) <==> a.contains(x) || b.contains(x),
{
    let both = a + b;
    if both.contains(x) {
        let i = choose|i: int| 0 <= i < both.len() && both[i] == x;
        if i < a.len() {
            assert(a[i] == x);
        } else {
            assert(b[i - a.len()] == x);
        }
    }
    if a.contains(x) {
        let i = choose|i: int| 0 <= i < a.len() && a[i] == x;
        assert(both[i] == x);
    }
    if b.contains(x) {
        let i = choose|i: int| 0 <= i < b.len() && b[i] == x;
        assert(both[a.len() + i] == x);
    }
}

proof fn lemma_push_contains(all: Seq<Stage>, x: Stage)
    requires
        x != Stage::Serve,
    ensures
        all.push(Stage::Serve).contains(x) <==> all.contains(x),
        all.contains(x) <==> exists|i: int|
            0 <= i < all.push(Stage::Serve).len() - 1 && #[trigger] all.push(Stage::Serve)[i] == x,
{
    let list = all.push(Stage::Serve);
    if all.contains(x) {
        let i = choose|i: int| 0 <= i < all.len() && all[i] == x;
        assert(list[i] == x);
    }
    if list.contains(x) {
        let i = choose|i: int| 0 <= i < list.len() && list[i] == x;
        assert(all[i] == x);
    }
    if exists|i: int| 0 <= i < list.len() - 1 && #[trigger] list[i] == x {
        let i = choose|i: int| 0 <= i < list.len() - 1 && #[trigger] list[i] == x;
        assert(all[i] == x);
    }
}

proof fn lemma_optional_contains(present: bool, stage: Stage, x: Stage)
    ensures
        optional_stage(present, stage).contains(x) <==> present && x == stage,
{
    if present {
        assert(optional_stage(present, stage)[0] == stage);
    }
}

proof fn lemma_part_contains(
    param: Option<PathParam>,
    scope: Option<Scope>,
    check: Option<Check>,
    x: Stage,
)
    ensures
        param_stage(param).contains(x) <==> param is Some && x == Stage::Param(param->0),
        permission_stage(scope).contains(x) <==> scope is Some && x == Stage::Permission(scope->0),
        check_stage(check).contains(x) <==> check is Some && x == Stage::Check(check->0),
{
    if param is Some {
        assert(param_stage(param)[0] == Stage::Param(param->0));
    }
    if scope is Some {
        assert(permission_stage(scope)[0] == Stage::Permission(scope->0));
    }
    if check is Some {
        assert(check_stage(check)[0] == Stage::Check(check->0));
    }
}

/// A stage other than serving stands among the stages exactly if it stands in one of their
/// parts, and then it comes before the request is served.
proof fn lemma_stage_parts(
    wait: bool,
    name: bool,
    before: Option<PathParam>,
    scope: Option<Scope>,
    after: Option<PathParam>,
    body: bool,
    checks: (Option<Check>, Option<Check>),
    x: Stage,
)
    requires
        x != Stage::Serve,
    ensures
        ({
            let list = (optional_stage(wait, Stage::WaitForStartup) + optional_stage(
                name,
                Stage::Name,
            ) + param_stage(before) + permission_stage(scope) + (param_stage(after)
                + optional_stage(body, Stage::Body) + check_stage(checks.0) + check_stage(
                checks.1,
            ))).push(Stage::Serve);
            let is_part = match x {
                Stage::WaitForStartup => wait,
                Stage::Name => name,
                Stage::Param(param) => before == Some(param) || after == Some(param),
                Stage::Permission(s) => scope == Some(s),
                Stage::Body => body,
                Stage::Check(check) => checks.0 == Some(check) || checks.1 == Some(check),
                Stage::Serve => false,
            };
            &&& list.contains(x) <==> is_part
            &&& is_part <==> exists|i: int| 0 <= i < list.len() - 1 && #[trigger] list[i] == x
        }),
{
    let a = optional_stage(wait, Stage::WaitForStartup);
    let b = optional_stage(name, Stage::Name);
    let c = param_stage(before);
    let d = permission_stage(scope);
    let e = param_stage(after);
    let f = optional_stage(body, Stage::Body);
    let g = check_stage(checks.0);
    let h = check_stage(checks.1);
    lemma_optional_contains(wait, Stage::WaitForStartup, x);
    lemma_optional_contains(name, Stage::Name, x);
    lemma_optional_contains(body, Stage::Body, x);
    lemma_part_contains(before, scope, checks.0, x);
    lemma_part_contains(after, scope, checks.1, x);
    lemma_concat_contains(a, b, x);
    lemma_concat_contains(a + b, c, x);
    lemma_concat_contains(a + b + c, d, x);
    lemma_concat_contains(e, f, x);
    lemma_concat_contains(e + f, g, x);
    lemma_concat_contains(e + f + g, h, x);
    lemma_concat_contains(a + b + c + d, e + f + g + h, x);
    lemma_push_contains(a + b + c + d + (e + f + g + h), x);
}

/// What the stages of an endpoint hold is what it asks for, and it comes before serving.
proof fn lemma_stage(endpoint: Endpoint, x: Stage)
    requires
        x != Stage::Serve,
    ensures
        ({
            let is_part = match x {
                Stage::WaitForStartup => endpoint.spec_waits_for_startup(),
                Stage::Name => endpoint.spec_request_name() is Some,
                Stage::Param(param) => endpoint.spec_param_before_permission() == Some(param)
                    || endpoint.spec_param_after_permission() == Some(param),
                Stage::Permission(scope) => endpoint.spec_required_scope() == Some(scope),
                Stage::Body => endpoint.spec_has_body(),
                Stage::Check(check) => endpoint.spec_checks().0 == Some(check)
                    || endpoint.spec_checks().1 == Some(check),
                Stage::Serve => false,
            };
            &&& stages(endpoint).contains(x) <==> is_part
            &&& is_part <==> exists|i: int|
                0 <= i < stages(endpoint).len() - 1 && #[trigger] stages(endpoint)[i] == x
        }),
{
    lemma_stage_parts(
        endpoint.spec_waits_for_startup(),
        endpoint.spec_request_name() is Some,
        endpoint.spec_param_before_permission(),
        endpoint.spec_required_scope(),
        endpoint.spec_param_after_permission(),
        endpoint.spec_has_body(),
        endpoint.spec_checks(),
        x,
    );
}

/// The body of a request is read exactly where the request says what is to be attached,
/// validated, inspected, registered, configured, moved, split, created or travelled to; and it
/// is read before the request is served.
pub proof fn law_which_bodies_are_read(endpoint: Endpoint)
    ensures
        stages(endpoint).contains(Stage::Body) <==> {
            ||| endpoint == Endpoint::ReAttach
            ||| endpoint == Endpoint::Validate
            ||| endpoint == Endpoint::AttachHook
            ||| endpoint == Endpoint::Inspect
            ||| endpoint == Endpoint::NodeRegister
            ||| endpoint == Endpoint::NodeConfigure
            ||| endpoint == Endpoint::TenantShardMigrate
            ||| endpoint == Endpoint::TenantShardSplit
            ||| endpoint == Endpoint::TenantUpdatePolicy
            ||| endpoint == Endpoint::TenantCreate
            ||| endpoint == Endpoint::TenantConfigSet
            ||| endpoint == Endpoint::TenantLocationConfig
            ||| endpoint == Endpoint::TenantTimeTravel
            ||| endpoint == Endpoint::TimelineCreate
        },
        (exists|i: int| 0 <= i < stages(endpoint).len() - 1 && #[trigger] stages(endpoint)[i] == Stage::Body) <==> {
            ||| endpoint == Endpoint::ReAttach
            ||| endpoint == Endpoint::Validate
            ||| endpoint == Endpoint::AttachHook
            ||| endpoint == Endpoint::Inspect
            ||| endpoint == Endpoint::NodeRegister
            ||| endpoint == Endpoint::NodeConfigure
            ||| endpoint == Endpoint::TenantShardMigrate
            ||| endpoint == Endpoint::TenantShardSplit
            ||| endpoint == Endpoint::TenantUpdatePolicy
            ||| endpoint == Endpoint::TenantCreate
            ||| endpoint == Endpoint::TenantConfigSet
            ||| endpoint == Endpoint::TenantLocationConfig
            ||| endpoint == Endpoint::TenantTimeTravel
            ||| endpoint == Endpoint::TimelineCreate
        },
{
    lemma_stage(endpoint, Stage::Body);
}

/// Generations are for those with that scope, a tenant may be looked at by the scrubber, what
/// a pageserver offers needs the scope of its API, and the rest needs an administrator.
pub proof fn law_which_tokens_are_needed(endpoint: Endpoint)
    ensures
        stages(endpoint).contains(Stage::Permission(Scope::GenerationsApi)) <==> {
            ||| endpoint == Endpoint::ReAttach
            ||| endpoint == Endpoint::Validate
        },
        stages(endpoint).contains(Stage::Permission(Scope::Scrubber)) <==> {
            ||| endpoint == Endpoint::TenantDescribe
        },
        stages(endpoint).contains(Stage::Permission(Scope::PageServerApi)) <==> {
            ||| endpoint == Endpoint::TenantDrop
            ||| endpoint == Endpoint::TenantImport
            ||| endpoint == Endpoint::TenantCreate
            ||| endpoint == Endpoint::TenantDelete
            ||| endpoint == Endpoint::TenantConfigSet
            ||| endpoint == Endpoint::TenantConfigGet
            ||| endpoint == Endpoint::TenantLocationConfig
            ||| endpoint == Endpoint::TenantTimeTravel
            ||| endpoint == Endpoint::TimelineDelete
            ||| endpoint == Endpoint::TimelineCreate
            ||| endpoint == Endpoint::TimelineDetachAncestor
            ||| endpoint == Endpoint::TenantPassthrough
            ||| endpoint == Endpoint::TenantWildcardPassthrough
        },
        stages(endpoint).contains(Stage::Permission(Scope::Admin)) <==> {
            ||| endpoint == Endpoint::AttachHook
            ||| endpoint == Endpoint::Inspect
            ||| endpoint == Endpoint::NodeDrop
            ||| endpoint == Endpoint::TenantsDump
            ||| endpoint == Endpoint::TenantLocate
            ||| endpoint == Endpoint::SchedulerDump
            ||| endpoint == Endpoint::ConsistencyCheck
            ||| endpoint == Endpoint::ReconcileAll
            ||| endpoint == Endpoint::NodeRegister
            ||| endpoint == Endpoint::NodeDelete
            ||| endpoint == Endpoint::NodeList
            ||| endpoint == Endpoint::NodeConfigure
            ||| endpoint == Endpoint::NodeStatus
            ||| endpoint == Endpoint::NodeDrain
            ||| endpoint == Endpoint::CancelNodeDrain
            ||| endpoint == Endpoint::NodeFill
            ||| endpoint == Endpoint::CancelNodeFill
            ||| endpoint == Endpoint::TenantShardMigrate
            ||| endpoint == Endpoint::TenantShardSplit
            ||| endpoint == Endpoint::TenantList
            ||| endpoint == Endpoint::TenantUpdatePolicy
        },
{
    lemma_stage(endpoint, Stage::Permission(Scope::GenerationsApi));
    lemma_stage(endpoint, Stage::Permission(Scope::Scrubber));
    lemma_stage(endpoint, Stage::Permission(Scope::PageServerApi));
    lemma_stage(endpoint, Stage::Permission(Scope::Admin));
}

/// Which tenants, shards, timelines and nodes are read from the path.
pub proof fn law_which_parameters_are_read(endpoint: Endpoint)
    ensures
        stages(endpoint).contains(Stage::Param(PathParam::TenantId)) <==> {
            ||| endpoint == Endpoint::TenantDrop
            ||| endpoint == Endpoint::TenantImport
            ||| endpoint == Endpoint::TenantLocate
            ||| endpoint == Endpoint::TenantShardSplit
            ||| endpoint == Endpoint::TenantDescribe
            ||| endpoint == Endpoint::TenantUpdatePolicy
            ||| endpoint == Endpoint::TenantDelete
            ||| endpoint == Endpoint::TenantConfigGet
            ||| endpoint == Endpoint::TenantTimeTravel
            ||| endpoint == Endpoint::TenantSecondaryDownload
            ||| endpoint == Endpoint::TimelineDelete
            ||| endpoint == Endpoint::TimelineCreate
            ||| endpoint == Endpoint::TimelineDetachAncestor
            ||| endpoint == Endpoint::TenantPassthrough
            ||| endpoint == Endpoint::TenantWildcardPassthrough
        },
        stages(endpoint).contains(Stage::Param(PathParam::TenantShardId)) <==> {
            ||| endpoint == Endpoint::TenantShardMigrate
            ||| endpoint == Endpoint::TenantLocationConfig
        },
        stages(endpoint).contains(Stage::Param(PathParam::TimelineId)) <==> {
            ||| endpoint == Endpoint::TimelineDelete
            ||| endpoint == Endpoint::TimelineDetachAncestor
        },
        stages(endpoint).contains(Stage::Param(PathParam::NodeId)) <==> {
            ||| endpoint == Endpoint::NodeDrop
            ||| endpoint == Endpoint::NodeDelete
            ||| endpoint == Endpoint::NodeConfigure
            ||| endpoint == Endpoint::NodeStatus
            ||| endpoint == Endpoint::NodeDrain
            ||| endpoint == Endpoint::CancelNodeDrain
            ||| endpoint == Endpoint::NodeFill
            ||| endpoint == Endpoint::CancelNodeFill
        },
{
    lemma_stage(endpoint, Stage::Param(PathParam::TenantId));
    lemma_stage(endpoint, Stage::Param(PathParam::TenantShardId));
    lemma_stage(endpoint, Stage::Param(PathParam::TimelineId));
    lemma_stage(endpoint, Stage::Param(PathParam::NodeId));
}

/// Which requests wait for startup: those that operate on tenants.
pub proof fn law_which_requests_wait(endpoint: Endpoint)
    ensures
        stages(endpoint).contains(Stage::WaitForStartup) <==> {
            ||| endpoint == Endpoint::TenantLocate
            ||| endpoint == Endpoint::TenantShardMigrate
            ||| endpoint == Endpoint::TenantShardSplit
            ||| endpoint == Endpoint::TenantDescribe
            ||| endpoint == Endpoint::TenantList
            ||| endpoint == Endpoint::TenantCreate
            ||| endpoint == Endpoint::TenantDelete
            ||| endpoint == Endpoint::TenantConfigSet
            ||| endpoint == Endpoint::TenantConfigGet
            ||| endpoint == Endpoint::TenantLocationConfig
            ||| endpoint == Endpoint::TenantTimeTravel
            ||| endpoint == Endpoint::TenantSecondaryDownload
            ||| endpoint == Endpoint::TimelineDelete
            ||| endpoint == Endpoint::TimelineCreate
            ||| endpoint == Endpoint::TimelineDetachAncestor
            ||| endpoint == Endpoint::TenantPassthrough
            ||| endpoint == Endpoint::TenantWildcardPassthrough
        },
{
    lemma_stage(endpoint, Stage::WaitForStartup);
}

/// Which checks are made before a request is served.
pub proof fn law_which_checks_are_made(endpoint: Endpoint)
    ensures
        stages(endpoint).contains(Stage::Check(Check::WaitMs)) <==> {
            ||| endpoint == Endpoint::TenantSecondaryDownload
        },
        stages(endpoint).contains(Stage::Check(Check::Time(TimeParam::TravelTo))) <==> {
            ||| endpoint == Endpoint::TenantTimeTravel
        },
        stages(endpoint).contains(Stage::Check(Check::Time(TimeParam::DoneIfAfter))) <==> {
            ||| endpoint == Endpoint::TenantTimeTravel
        },
        stages(endpoint).contains(Stage::Check(Check::SameNodeId)) <==> {
            ||| endpoint == Endpoint::NodeConfigure
        },
        stages(endpoint).contains(Stage::Check(Check::PathAndQuery)) <==> {
            ||| endpoint == Endpoint::TenantPassthrough
            ||| endpoint == Endpoint::TenantWildcardPassthrough
        },
{
    lemma_stage(endpoint, Stage::Check(Check::WaitMs));
    lemma_stage(endpoint, Stage::Check(Check::Time(TimeParam::TravelTo)));
    lemma_stage(endpoint, Stage::Check(Check::Time(TimeParam::DoneIfAfter)));
    lemma_stage(endpoint, Stage::Check(Check::SameNodeId));
    lemma_stage(endpoint, Stage::Check(Check::PathAndQuery));
}

/// Under which names requests are counted.
pub proof fn law_request_names()
    ensures
        Endpoint::Metrics.spec_request_name() == Some("metrics"@),
        Endpoint::Status.spec_request_name() == Some("status"@),
        Endpoint::Ready.spec_request_name() == Some("ready"@),
        Endpoint::ReAttach.spec_request_name() == Some("upcall_v1_reattach"@),
        Endpoint::Validate.spec_request_name() == Some("upcall_v1_validate"@),
        Endpoint::AttachHook.spec_request_name() == Some("debug_v1_attach_hook"@),
        Endpoint::Inspect.spec_request_name() == Some("debug_v1_inspect"@),
        Endpoint::TenantDrop.spec_request_name() == Some("debug_v1_tenant_drop"@),
        Endpoint::NodeDrop.spec_request_name() == Some("debug_v1_node_drop"@),
        Endpoint::TenantImport.spec_request_name() == Some("debug_v1_tenant_import"@),
        Endpoint::TenantsDump.spec_request_name() == Some("debug_v1_tenant"@),
        Endpoint::TenantLocate.spec_request_name() == Some("debug_v1_tenant_locate"@),
        Endpoint::SchedulerDump.spec_request_name() == Some("debug_v1_scheduler"@),
        Endpoint::ConsistencyCheck.spec_request_name() == Some("debug_v1_consistency_check"@),
        Endpoint::ReconcileAll.spec_request_name() == None::<Seq<char>>,
        Endpoint::Failpoints.spec_request_name() == None::<Seq<char>>,
        Endpoint::NodeRegister.spec_request_name() == Some("control_v1_node"@),
        Endpoint::NodeDelete.spec_request_name() == Some("control_v1_node_delete"@),
        Endpoint::NodeList.spec_request_name() == Some("control_v1_node"@),
        Endpoint::NodeConfigure.spec_request_name() == Some("control_v1_node_config"@),
        Endpoint::NodeStatus.spec_request_name() == Some("control_v1_node_status"@),
        Endpoint::NodeDrain.spec_request_name() == Some("control_v1_node_drain"@),
        Endpoint::CancelNodeDrain.spec_request_name() == Some("control_v1_cancel_node_drain"@),
        Endpoint::NodeFill.spec_request_name() == Some("control_v1_node_fill"@),
        Endpoint::CancelNodeFill.spec_request_name() == Some("control_v1_cancel_node_fill"@),
        Endpoint::TenantShardMigrate.spec_request_name() == Some("control_v1_tenant_migrate"@),
        Endpoint::TenantShardSplit.spec_request_name() == Some("control_v1_tenant_shard_split"@),
        Endpoint::TenantDescribe.spec_request_name() == Some("control_v1_tenant_describe"@),
        Endpoint::TenantList.spec_request_name() == Some("control_v1_tenant_list"@),
        Endpoint::TenantUpdatePolicy.spec_request_name() == Some("control_v1_tenant_policy"@),
        Endpoint::TenantCreate.spec_request_name() == Some("v1_tenant"@),
        Endpoint::TenantDelete.spec_request_name() == Some("v1_tenant"@),
        Endpoint::TenantConfigSet.spec_request_name() == Some("v1_tenant_config"@),
        Endpoint::TenantConfigGet.spec_request_name() == Some("v1_tenant_config"@),
        Endpoint::TenantLocationConfig.spec_request_name() == Some("v1_tenant_location_config"@),
        Endpoint::TenantTimeTravel.spec_request_name() == Some("v1_tenant_time_travel_remote_storage"@),
        Endpoint::TenantSecondaryDownload.spec_request_name() == Some("v1_tenant_secondary_download"@),
        Endpoint::TimelineDelete.spec_request_name() == Some("v1_tenant_timeline"@),
        Endpoint::TimelineCreate.spec_request_name() == Some("v1_tenant_timeline"@),
        Endpoint::TimelineDetachAncestor.spec_request_name() == Some("v1_tenant_timeline_detach_ancestor"@),
        Endpoint::TenantPassthrough.spec_request_name() == Some("v1_tenant_passthrough"@),
        Endpoint::TenantWildcardPassthrough.spec_request_name() == Some("v1_tenant_passthrough"@),
{
}

/// What is created is answered with 201, what is only begun with 202, and what is done with 200;
/// deletions, readiness and what others answer are answered as they go.
pub proof fn law_how_requests_are_answered(endpoint: Endpoint)
    ensures
        endpoint.spec_success().spec_status() == Some(201u16) <==> {
            ||| endpoint == Endpoint::TenantCreate
            ||| endpoint == Endpoint::TimelineCreate
        },
        endpoint.spec_success().spec_status() == Some(202u16) <==> {
            ||| endpoint == Endpoint::NodeDrain
            ||| endpoint == Endpoint::CancelNodeDrain
            ||| endpoint == Endpoint::NodeFill
            ||| endpoint == Endpoint::CancelNodeFill
        },
        endpoint.spec_success().spec_status() == Some(200u16) <==> {
            ||| endpoint == Endpoint::Status
            ||| endpoint == Endpoint::ReAttach
            ||| endpoint == Endpoint::Validate
            ||| endpoint == Endpoint::AttachHook
            ||| endpoint == Endpoint::Inspect
            ||| endpoint == Endpoint::TenantDrop
            ||| endpoint == Endpoint::NodeDrop
            ||| endpoint == Endpoint::TenantImport
            ||| endpoint == Endpoint::TenantLocate
            ||| endpoint == Endpoint::ConsistencyCheck
            ||| endpoint == Endpoint::ReconcileAll
            ||| endpoint == Endpoint::NodeRegister
            ||| endpoint == Endpoint::NodeDelete
            ||| endpoint == Endpoint::NodeList
            ||| endpoint == Endpoint::NodeConfigure
            ||| endpoint == Endpoint::NodeStatus
            ||| endpoint == Endpoint::TenantShardMigrate
            ||| endpoint == Endpoint::TenantShardSplit
            ||| endpoint == Endpoint::TenantDescribe
            ||| endpoint == Endpoint::TenantList
            ||| endpoint == Endpoint::TenantUpdatePolicy
            ||| endpoint == Endpoint::TenantConfigSet
            ||| endpoint == Endpoint::TenantConfigGet
            ||| endpoint == Endpoint::TenantLocationConfig
            ||| endpoint == Endpoint::TenantTimeTravel
            ||| endpoint == Endpoint::TimelineDetachAncestor
        },
        endpoint.spec_success() == Success::AsServed <==> {
            ||| endpoint == Endpoint::Metrics
            ||| endpoint == Endpoint::TenantsDump
            ||| endpoint == Endpoint::SchedulerDump
            ||| endpoint == Endpoint::Failpoints
            ||| endpoint == Endpoint::TenantPassthrough
            ||| endpoint == Endpoint::TenantWildcardPassthrough
        },
        endpoint.spec_success() == Success::ByReadiness <==> {
            ||| endpoint == Endpoint::Ready
        },
        endpoint.spec_success() == Success::ByPageserver <==> {
            ||| endpoint == Endpoint::TenantSecondaryDownload
        },
        endpoint.spec_success() == Success::TenantDeletion <==> {
            ||| endpoint == Endpoint::TenantDelete
        },
        endpoint.spec_success() == Success::TimelineDeletion <==> {
            ||| endpoint == Endpoint::TimelineDelete
        },
{
}

/// Requests that only read or delete carry no body.
pub proof fn law_reading_and_deleting_carry_no_body(endpoint: Endpoint)
    requires
        endpoint.spec_method() == Method::Get || endpoint.spec_method() == Method::Delete,
    ensures
        !stages(endpoint).contains(Stage::Body),
{
    lemma_stage(endpoint, Stage::Body);
}

/// What the parameters of requests are called.
pub proof fn law_parameter_names()
    ensures
        PathParam::TenantId.spec_name() == "tenant_id"@,
        PathParam::TenantShardId.spec_name() == "tenant_shard_id"@,
        PathParam::TimelineId.spec_name() == "timeline_id"@,
        PathParam::NodeId.spec_name() == "node_id"@,
        TimeParam::TravelTo.spec_name() == "travel_to"@,
        TimeParam::DoneIfAfter.spec_name() == "done_if_after"@,
{
}

/// A token permits what asks for its own scope, that of an administrator permits everything,
/// and nothing else is permitted. Without claims everything is.
pub proof fn law_tokens(claims: Option<Claims>, required: Scope)
    ensures
        is_permitted(claims, required) <==> claims is None || claims->0.scope == required
            || claims->0.scope == Scope::Admin,
{
}

} // verus!
