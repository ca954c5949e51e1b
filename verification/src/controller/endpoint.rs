//! The endpoints of the HTTP API: where each is found, and what it needs.

use vstd::prelude::*;

use crate::controller::auth::Scope;

verus! {

/// The method of a request.
#[derive(Debug, Clone, Copy, PartialEq, Eq, Structural)]
pub enum Method {
    Get,
    Post,
    Put,
    Delete,
}

/// A parameter in the path of a request.
#[derive(Debug, Clone, Copy, PartialEq, Eq, Structural)]
pub enum PathParam {
    TenantId,
    TenantShardId,
    TimelineId,
    NodeId,
}

/// A parameter that is a point in time.
#[derive(Debug, Clone, Copy, PartialEq, Eq, Structural)]
pub enum TimeParam {
    /// The time to travel to.
    TravelTo,
    /// The time after which nothing is left to be done.
    DoneIfAfter,
}

/// A check that only some endpoints make.
#[derive(Debug, Clone, Copy, PartialEq, Eq, Structural)]
pub enum Check {
    /// How long to wait, if that is given.
    WaitMs,
    /// A point in time.
    Time(TimeParam),
    /// That path and body name the same node.
    SameNodeId,
    /// That there is a path to pass on.
    PathAndQuery,
}

/// How a request is answered that was served.
#[derive(Debug, Clone, Copy, PartialEq, Eq, Structural)]
pub enum Success {
    Served,
    Created,
    Accepted,
    /// With whatever response the service made.
    AsServed,
    /// By whether startup is complete.
    ByReadiness,
    /// With the status that the pageserver gave.
    ByPageserver,
    /// As the deletion of a tenant went.
    TenantDeletion,
    /// As the deletion of a timeline went.
    TimelineDeletion,
}

/// An endpoint of the HTTP API.
#[derive(Debug, Clone, Copy, PartialEq, Eq, Structural)]
pub enum Endpoint {
    /// The metrics of this service.
    Metrics,
    /// Whether the HTTP listener is up.
    Status,
    /// Whether startup is complete.
    Ready,
    /// Pageserver calls into this on startup, to learn which tenants it should attach.
    ReAttach,
    /// Pageserver calls into this before doing deletions, to confirm that it still holds the
    /// latest generation for the tenants with deletions enqueued.
    Validate,
    /// Call into this before attaching a tenant to a pageserver, to acquire a generation
    /// number.
    AttachHook,
    /// Where a tenant is attached.
    Inspect,
    /// Forgets a tenant.
    TenantDrop,
    /// Forgets a node.
    NodeDrop,
    /// Takes a tenant over.
    TenantImport,
    /// All that is known of the tenants.
    TenantsDump,
    /// On which nodes a tenant is.
    TenantLocate,
    /// All that is known of the scheduling.
    SchedulerDump,
    /// Compares memory and database.
    ConsistencyCheck,
    /// Reconciles everything.
    ReconcileAll,
    /// Sets failpoints.
    Failpoints,
    /// Adds a node.
    NodeRegister,
    /// Deletes a node.
    NodeDelete,
    /// All nodes.
    NodeList,
    /// Configures a node.
    NodeConfigure,
    /// One node.
    NodeStatus,
    /// Begins to move everything off a node.
    NodeDrain,
    /// Stops moving things off a node.
    CancelNodeDrain,
    /// Begins to fill a node.
    NodeFill,
    /// Stops filling a node.
    CancelNodeFill,
    /// Moves a shard to another node.
    TenantShardMigrate,
    /// Splits the shards of a tenant.
    TenantShardSplit,
    /// One tenant.
    TenantDescribe,
    /// All tenants.
    TenantList,
    /// Changes the policy of a tenant.
    TenantUpdatePolicy,
    /// Creates a tenant.
    TenantCreate,
    /// Deletes a tenant.
    TenantDelete,
    /// Configures a tenant.
    TenantConfigSet,
    /// The configuration of a tenant.
    TenantConfigGet,
    /// Configures where a tenant is.
    TenantLocationConfig,
    /// Resets the remote storage of a tenant to an earlier time.
    TenantTimeTravel,
    /// Has the secondary locations of a tenant download its layers.
    TenantSecondaryDownload,
    /// Deletes a timeline.
    TimelineDelete,
    /// Creates a timeline.
    TimelineCreate,
    /// Detaches a timeline from its ancestor.
    TimelineDetachAncestor,
    /// Tenant detail, as shard zero has it.
    TenantPassthrough,
    /// Whatever else a pageserver has to say of a tenant or a timeline.
    TenantWildcardPassthrough,
}

impl PathParam {
    /// The name of the parameter.
    pub open spec fn spec_name(self) -> Seq<char> {
        match self {
            PathParam::TenantId => "tenant_id"@,
            PathParam::TenantShardId => "tenant_shard_id"@,
            PathParam::TimelineId => "timeline_id"@,
            PathParam::NodeId => "node_id"@,
        }
    }

    /// The name of the parameter.
    pub fn name(self) -> (r: &'static str)
        ensures
            r@ == self.spec_name(),
    {
        match self {
            PathParam::TenantId => "tenant_id",
            PathParam::TenantShardId => "tenant_shard_id",
            PathParam::TimelineId => "timeline_id",
            PathParam::NodeId => "node_id",
        }
    }
}

impl TimeParam {
    /// The name of the parameter.
    pub open spec fn spec_name(self) -> Seq<char> {
        match self {
            TimeParam::TravelTo => "travel_to"@,
            TimeParam::DoneIfAfter => "done_if_after"@,
        }
    }

    /// The name of the parameter.
    pub fn name(self) -> (r: &'static str)
        ensures
            r@ == self.spec_name(),
    {
        match self {
            TimeParam::TravelTo => "travel_to",
            TimeParam::DoneIfAfter => "done_if_after",
        }
    }
}

impl Endpoint {
    /// The method of its requests.
    pub open spec fn spec_method(self) -> Method {
        match self {
            Endpoint::Metrics
            | Endpoint::Status
            | Endpoint::Ready
            | Endpoint::TenantsDump
            | Endpoint::TenantLocate
            | Endpoint::SchedulerDump
            | Endpoint::NodeList
            | Endpoint::NodeStatus
            | Endpoint::TenantDescribe
            | Endpoint::TenantList
            | Endpoint::TenantConfigGet
            | Endpoint::TenantPassthrough
            | Endpoint::TenantWildcardPassthrough => Method::Get,
            Endpoint::ReAttach
            | Endpoint::Validate
            | Endpoint::AttachHook
            | Endpoint::Inspect
            | Endpoint::TenantDrop
            | Endpoint::NodeDrop
            | Endpoint::TenantImport
            | Endpoint::ConsistencyCheck
            | Endpoint::ReconcileAll
            | Endpoint::NodeRegister
            | Endpoint::TenantCreate
            | Endpoint::TenantSecondaryDownload
            | Endpoint::TimelineCreate => Method::Post,
            Endpoint::Failpoints
            | Endpoint::NodeConfigure
            | Endpoint::NodeDrain
            | Endpoint::NodeFill
            | Endpoint::TenantShardMigrate
            | Endpoint::TenantShardSplit
            | Endpoint::TenantUpdatePolicy
            | Endpoint::TenantConfigSet
            | Endpoint::TenantLocationConfig
            | Endpoint::TenantTimeTravel
            | Endpoint::TimelineDetachAncestor => Method::Put,
            Endpoint::NodeDelete
            | Endpoint::CancelNodeDrain
            | Endpoint::CancelNodeFill
            | Endpoint::TenantDelete
            | Endpoint::TimelineDelete => Method::Delete,
        }
    }

    /// The method of its requests.
    pub fn method(self) -> (r: Method)
        ensures
            r == self.spec_method(),
    {
        match self {
            Endpoint::Metrics
            | Endpoint::Status
            | Endpoint::Ready
            | Endpoint::TenantsDump
            | Endpoint::TenantLocate
            | Endpoint::SchedulerDump
            | Endpoint::NodeList
            | Endpoint::NodeStatus
            | Endpoint::TenantDescribe
            | Endpoint::TenantList
            | Endpoint::TenantConfigGet
            | Endpoint::TenantPassthrough
            | Endpoint::TenantWildcardPassthrough => Method::Get,
            Endpoint::ReAttach
            | Endpoint::Validate
            | Endpoint::AttachHook
            | Endpoint::Inspect
            | Endpoint::TenantDrop
            | Endpoint::NodeDrop
            | Endpoint::TenantImport
            | Endpoint::ConsistencyCheck
            | Endpoint::ReconcileAll
            | Endpoint::NodeRegister
            | Endpoint::TenantCreate
            | Endpoint::TenantSecondaryDownload
            | Endpoint::TimelineCreate => Method::Post,
            Endpoint::Failpoints
            | Endpoint::NodeConfigure
            | Endpoint::NodeDrain
            | Endpoint::NodeFill
            | Endpoint::TenantShardMigrate
            | Endpoint::TenantShardSplit
            | Endpoint::TenantUpdatePolicy
            | Endpoint::TenantConfigSet
            | Endpoint::TenantLocationConfig
            | Endpoint::TenantTimeTravel
            | Endpoint::TimelineDetachAncestor => Method::Put,
            Endpoint::NodeDelete
            | Endpoint::CancelNodeDrain
            | Endpoint::CancelNodeFill
            | Endpoint::TenantDelete
            | Endpoint::TimelineDelete => Method::Delete,
        }
    }

    /// The path of its requests.
    pub open spec fn spec_path(self) -> Seq<char> {
        match self {
            Endpoint::Metrics => "/metrics"@,
            Endpoint::Status => "/status"@,
            Endpoint::Ready => "/ready"@,
            Endpoint::ReAttach => "/upcall/v1/re-attach"@,
            Endpoint::Validate => "/upcall/v1/validate"@,
            Endpoint::AttachHook => "/debug/v1/attach-hook"@,
            Endpoint::Inspect => "/debug/v1/inspect"@,
            Endpoint::TenantDrop => "/debug/v1/tenant/:tenant_id/drop"@,
            Endpoint::NodeDrop => "/debug/v1/node/:node_id/drop"@,
            Endpoint::TenantImport => "/debug/v1/tenant/:tenant_id/import"@,
            Endpoint::TenantsDump => "/debug/v1/tenant"@,
            Endpoint::TenantLocate => "/debug/v1/tenant/:tenant_id/locate"@,
            Endpoint::SchedulerDump => "/debug/v1/scheduler"@,
            Endpoint::ConsistencyCheck => "/debug/v1/consistency_check"@,
            Endpoint::ReconcileAll => "/debug/v1/reconcile_all"@,
            Endpoint::Failpoints => "/debug/v1/failpoints"@,
            Endpoint::NodeRegister => "/control/v1/node"@,
            Endpoint::NodeDelete => "/control/v1/node/:node_id"@,
            Endpoint::NodeList => "/control/v1/node"@,
            Endpoint::NodeConfigure => "/control/v1/node/:node_id/config"@,
            Endpoint::NodeStatus => "/control/v1/node/:node_id"@,
            Endpoint::NodeDrain => "/control/v1/node/:node_id/drain"@,
            Endpoint::CancelNodeDrain => "/control/v1/node/:node_id/drain"@,
            Endpoint::NodeFill => "/control/v1/node/:node_id/fill"@,
            Endpoint::CancelNodeFill => "/control/v1/node/:node_id/fill"@,
            Endpoint::TenantShardMigrate => "/control/v1/tenant/:tenant_shard_id/migrate"@,
            Endpoint::TenantShardSplit => "/control/v1/tenant/:tenant_id/shard_split"@,
            Endpoint::TenantDescribe => "/control/v1/tenant/:tenant_id"@,
            Endpoint::TenantList => "/control/v1/tenant"@,
            Endpoint::TenantUpdatePolicy => "/control/v1/tenant/:tenant_id/policy"@,
            Endpoint::TenantCreate => "/v1/tenant"@,
            Endpoint::TenantDelete => "/v1/tenant/:tenant_id"@,
            Endpoint::TenantConfigSet => "/v1/tenant/config"@,
            Endpoint::TenantConfigGet => "/v1/tenant/:tenant_id/config"@,
            Endpoint::TenantLocationConfig => "/v1/tenant/:tenant_shard_id/location_config"@,
            Endpoint::TenantTimeTravel => "/v1/tenant/:tenant_id/time_travel_remote_storage"@,
            Endpoint::TenantSecondaryDownload => "/v1/tenant/:tenant_id/secondary/download"@,
            Endpoint::TimelineDelete => "/v1/tenant/:tenant_id/timeline/:timeline_id"@,
            Endpoint::TimelineCreate => "/v1/tenant/:tenant_id/timeline"@,
            Endpoint::TimelineDetachAncestor => "/v1/tenant/:tenant_id/timeline/:timeline_id/detach_ancestor"@,
            Endpoint::TenantPassthrough => "/v1/tenant/:tenant_id"@,
            Endpoint::TenantWildcardPassthrough => "/v1/tenant/:tenant_id/*"@,
        }
    }

    /// The path of its requests.
    pub fn path(self) -> (r: &'static str)
        ensures
            r@ == self.spec_path(),
    {
        match self {
            Endpoint::Metrics => "/metrics",
            Endpoint::Status => "/status",
            Endpoint::Ready => "/ready",
            Endpoint::ReAttach => "/upcall/v1/re-attach",
            Endpoint::Validate => "/upcall/v1/validate",
            Endpoint::AttachHook => "/debug/v1/attach-hook",
            Endpoint::Inspect => "/debug/v1/inspect",
            Endpoint::TenantDrop => "/debug/v1/tenant/:tenant_id/drop",
            Endpoint::NodeDrop => "/debug/v1/node/:node_id/drop",
            Endpoint::TenantImport => "/debug/v1/tenant/:tenant_id/import",
            Endpoint::TenantsDump => "/debug/v1/tenant",
            Endpoint::TenantLocate => "/debug/v1/tenant/:tenant_id/locate",
            Endpoint::SchedulerDump => "/debug/v1/scheduler",
            Endpoint::ConsistencyCheck => "/debug/v1/consistency_check",
            Endpoint::ReconcileAll => "/debug/v1/reconcile_all",
            Endpoint::Failpoints => "/debug/v1/failpoints",
            Endpoint::NodeRegister => "/control/v1/node",
            Endpoint::NodeDelete => "/control/v1/node/:node_id",
            Endpoint::NodeList => "/control/v1/node",
            Endpoint::NodeConfigure => "/control/v1/node/:node_id/config",
            Endpoint::NodeStatus => "/control/v1/node/:node_id",
            Endpoint::NodeDrain => "/control/v1/node/:node_id/drain",
            Endpoint::CancelNodeDrain => "/control/v1/node/:node_id/drain",
            Endpoint::NodeFill => "/control/v1/node/:node_id/fill",
            Endpoint::CancelNodeFill => "/control/v1/node/:node_id/fill",
            Endpoint::TenantShardMigrate => "/control/v1/tenant/:tenant_shard_id/migrate",
            Endpoint::TenantShardSplit => "/control/v1/tenant/:tenant_id/shard_split",
            Endpoint::TenantDescribe => "/control/v1/tenant/:tenant_id",
            Endpoint::TenantList => "/control/v1/tenant",
            Endpoint::TenantUpdatePolicy => "/control/v1/tenant/:tenant_id/policy",
            Endpoint::TenantCreate => "/v1/tenant",
            Endpoint::TenantDelete => "/v1/tenant/:tenant_id",
            Endpoint::TenantConfigSet => "/v1/tenant/config",
            Endpoint::TenantConfigGet => "/v1/tenant/:tenant_id/config",
            Endpoint::TenantLocationConfig => "/v1/tenant/:tenant_shard_id/location_config",
            Endpoint::TenantTimeTravel => "/v1/tenant/:tenant_id/time_travel_remote_storage",
            Endpoint::TenantSecondaryDownload => "/v1/tenant/:tenant_id/secondary/download",
            Endpoint::TimelineDelete => "/v1/tenant/:tenant_id/timeline/:timeline_id",
            Endpoint::TimelineCreate => "/v1/tenant/:tenant_id/timeline",
            Endpoint::TimelineDetachAncestor => "/v1/tenant/:tenant_id/timeline/:timeline_id/detach_ancestor",
            Endpoint::TenantPassthrough => "/v1/tenant/:tenant_id",
            Endpoint::TenantWildcardPassthrough => "/v1/tenant/:tenant_id/*",
        }
    }

    /// The name under which its requests are counted.
    pub open spec fn spec_request_name(self) -> Option<Seq<char>> {
        match self {
            Endpoint::Metrics => Some("metrics"@),
            Endpoint::Status => Some("status"@),
            Endpoint::Ready => Some("ready"@),
            Endpoint::ReAttach => Some("upcall_v1_reattach"@),
            Endpoint::Validate => Some("upcall_v1_validate"@),
            Endpoint::AttachHook => Some("debug_v1_attach_hook"@),
            Endpoint::Inspect => Some("debug_v1_inspect"@),
            Endpoint::TenantDrop => Some("debug_v1_tenant_drop"@),
            Endpoint::NodeDrop => Some("debug_v1_node_drop"@),
            Endpoint::TenantImport => Some("debug_v1_tenant_import"@),
            Endpoint::TenantsDump => Some("debug_v1_tenant"@),
            Endpoint::TenantLocate => Some("debug_v1_tenant_locate"@),
            Endpoint::SchedulerDump => Some("debug_v1_scheduler"@),
            Endpoint::ConsistencyCheck => Some("debug_v1_consistency_check"@),
            Endpoint::ReconcileAll => None,
            Endpoint::Failpoints => None,
            Endpoint::NodeRegister => Some("control_v1_node"@),
            Endpoint::NodeDelete => Some("control_v1_node_delete"@),
            Endpoint::NodeList => Some("control_v1_node"@),
            Endpoint::NodeConfigure => Some("control_v1_node_config"@),
            Endpoint::NodeStatus => Some("control_v1_node_status"@),
            Endpoint::NodeDrain => Some("control_v1_node_drain"@),
            Endpoint::CancelNodeDrain => Some("control_v1_cancel_node_drain"@),
            Endpoint::NodeFill => Some("control_v1_node_fill"@),
            Endpoint::CancelNodeFill => Some("control_v1_cancel_node_fill"@),
            Endpoint::TenantShardMigrate => Some("control_v1_tenant_migrate"@),
            Endpoint::TenantShardSplit => Some("control_v1_tenant_shard_split"@),
            Endpoint::TenantDescribe => Some("control_v1_tenant_describe"@),
            Endpoint::TenantList => Some("control_v1_tenant_list"@),
            Endpoint::TenantUpdatePolicy => Some("control_v1_tenant_policy"@),
            Endpoint::TenantCreate => Some("v1_tenant"@),
            Endpoint::TenantDelete => Some("v1_tenant"@),
            Endpoint::TenantConfigSet => Some("v1_tenant_config"@),
            Endpoint::TenantConfigGet => Some("v1_tenant_config"@),
            Endpoint::TenantLocationConfig => Some("v1_tenant_location_config"@),
            Endpoint::TenantTimeTravel => Some("v1_tenant_time_travel_remote_storage"@),
            Endpoint::TenantSecondaryDownload => Some("v1_tenant_secondary_download"@),
            Endpoint::TimelineDelete => Some("v1_tenant_timeline"@),
            Endpoint::TimelineCreate => Some("v1_tenant_timeline"@),
            Endpoint::TimelineDetachAncestor => Some("v1_tenant_timeline_detach_ancestor"@),
            Endpoint::TenantPassthrough => Some("v1_tenant_passthrough"@),
            Endpoint::TenantWildcardPassthrough => Some("v1_tenant_passthrough"@),
        }
    }

    /// The name under which its requests are counted.
    pub fn request_name(self) -> (r: Option<&'static str>)
        ensures
            (match r {
                Some(name) => Some(name@),
                None => None,
            }) == self.spec_request_name(),
    {
        match self {
            Endpoint::Metrics => Some("metrics"),
            Endpoint::Status => Some("status"),
            Endpoint::Ready => Some("ready"),
            Endpoint::ReAttach => Some("upcall_v1_reattach"),
            Endpoint::Validate => Some("upcall_v1_validate"),
            Endpoint::AttachHook => Some("debug_v1_attach_hook"),
            Endpoint::Inspect => Some("debug_v1_inspect"),
            Endpoint::TenantDrop => Some("debug_v1_tenant_drop"),
            Endpoint::NodeDrop => Some("debug_v1_node_drop"),
            Endpoint::TenantImport => Some("debug_v1_tenant_import"),
            Endpoint::TenantsDump => Some("debug_v1_tenant"),
            Endpoint::TenantLocate => Some("debug_v1_tenant_locate"),
            Endpoint::SchedulerDump => Some("debug_v1_scheduler"),
            Endpoint::ConsistencyCheck => Some("debug_v1_consistency_check"),
            Endpoint::ReconcileAll => None,
            Endpoint::Failpoints => None,
            Endpoint::NodeRegister => Some("control_v1_node"),
            Endpoint::NodeDelete => Some("control_v1_node_delete"),
            Endpoint::NodeList => Some("control_v1_node"),
            Endpoint::NodeConfigure => Some("control_v1_node_config"),
            Endpoint::NodeStatus => Some("control_v1_node_status"),
            Endpoint::NodeDrain => Some("control_v1_node_drain"),
            Endpoint::CancelNodeDrain => Some("control_v1_cancel_node_drain"),
            Endpoint::NodeFill => Some("control_v1_node_fill"),
            Endpoint::CancelNodeFill => Some("control_v1_cancel_node_fill"),
            Endpoint::TenantShardMigrate => Some("control_v1_tenant_migrate"),
            Endpoint::TenantShardSplit => Some("control_v1_tenant_shard_split"),
            Endpoint::TenantDescribe => Some("control_v1_tenant_describe"),
            Endpoint::TenantList => Some("control_v1_tenant_list"),
            Endpoint::TenantUpdatePolicy => Some("control_v1_tenant_policy"),
            Endpoint::TenantCreate => Some("v1_tenant"),
            Endpoint::TenantDelete => Some("v1_tenant"),
            Endpoint::TenantConfigSet => Some("v1_tenant_config"),
            Endpoint::TenantConfigGet => Some("v1_tenant_config"),
            Endpoint::TenantLocationConfig => Some("v1_tenant_location_config"),
            Endpoint::TenantTimeTravel => Some("v1_tenant_time_travel_remote_storage"),
            Endpoint::TenantSecondaryDownload => Some("v1_tenant_secondary_download"),
            Endpoint::TimelineDelete => Some("v1_tenant_timeline"),
            Endpoint::TimelineCreate => Some("v1_tenant_timeline"),
            Endpoint::TimelineDetachAncestor => Some("v1_tenant_timeline_detach_ancestor"),
            Endpoint::TenantPassthrough => Some("v1_tenant_passthrough"),
            Endpoint::TenantWildcardPassthrough => Some("v1_tenant_passthrough"),
        }
    }

    /// Whether it operates on tenants, and so must only be allowed to run if the service has
    /// finished its initial reconciliation.
    pub open spec fn spec_waits_for_startup(self) -> bool {
        match self {
            Endpoint::TenantLocate
            | Endpoint::TenantShardMigrate
            | Endpoint::TenantShardSplit
            | Endpoint::TenantDescribe
            | Endpoint::TenantList
            | Endpoint::TenantCreate
            | Endpoint::TenantDelete
            | Endpoint::TenantConfigSet
            | Endpoint::TenantConfigGet
            | Endpoint::TenantLocationConfig
            | Endpoint::TenantTimeTravel
            | Endpoint::TenantSecondaryDownload
            | Endpoint::TimelineDelete
            | Endpoint::TimelineCreate
            | Endpoint::TimelineDetachAncestor
            | Endpoint::TenantPassthrough
            | Endpoint::TenantWildcardPassthrough => true,
            _ => false,
        }
    }

    /// Whether it operates on tenants, and so must only be allowed to run if the service has
    /// finished its initial reconciliation.
    pub fn waits_for_startup(self) -> (r: bool)
        ensures
            r == self.spec_waits_for_startup(),
    {
        match self {
            Endpoint::TenantLocate
            | Endpoint::TenantShardMigrate
            | Endpoint::TenantShardSplit
            | Endpoint::TenantDescribe
            | Endpoint::TenantList
            | Endpoint::TenantCreate
            | Endpoint::TenantDelete
            | Endpoint::TenantConfigSet
            | Endpoint::TenantConfigGet
            | Endpoint::TenantLocationConfig
            | Endpoint::TenantTimeTravel
            | Endpoint::TenantSecondaryDownload
            | Endpoint::TimelineDelete
            | Endpoint::TimelineCreate
            | Endpoint::TimelineDetachAncestor
            | Endpoint::TenantPassthrough
            | Endpoint::TenantWildcardPassthrough => true,
            _ => false,
        }
    }

    /// The scope that a token needs, if one is asked for.
    pub open spec fn spec_required_scope(self) -> Option<Scope> {
        match self {
            Endpoint::Metrics
            | Endpoint::Status
            | Endpoint::Ready
            | Endpoint::Failpoints
            | Endpoint::TenantSecondaryDownload => None,
            Endpoint::ReAttach
            | Endpoint::Validate => Some(Scope::GenerationsApi),
            Endpoint::TenantDescribe => Some(Scope::Scrubber),
            Endpoint::TenantDrop
            | Endpoint::TenantImport
            | Endpoint::TenantCreate
            | Endpoint::TenantDelete
            | Endpoint::TenantConfigSet
            | Endpoint::TenantConfigGet
            | Endpoint::TenantLocationConfig
            | Endpoint::TenantTimeTravel
            | Endpoint::TimelineDelete
            | Endpoint::TimelineCreate
            | Endpoint::TimelineDetachAncestor
            | Endpoint::TenantPassthrough
            | Endpoint::TenantWildcardPassthrough => Some(Scope::PageServerApi),
            _ => Some(Scope::Admin),
        }
    }

    /// The scope that a token needs, if one is asked for.
    pub fn required_scope(self) -> (r: Option<Scope>)
        ensures
            r == self.spec_required_scope(),
    {
        match self {
            Endpoint::Metrics
            | Endpoint::Status
            | Endpoint::Ready
            | Endpoint::Failpoints
            | Endpoint::TenantSecondaryDownload => None,
            Endpoint::ReAttach
            | Endpoint::Validate => Some(Scope::GenerationsApi),
            Endpoint::TenantDescribe => Some(Scope::Scrubber),
            Endpoint::TenantDrop
            | Endpoint::TenantImport
            | Endpoint::TenantCreate
            | Endpoint::TenantDelete
            | Endpoint::TenantConfigSet
            | Endpoint::TenantConfigGet
            | Endpoint::TenantLocationConfig
            | Endpoint::TenantTimeTravel
            | Endpoint::TimelineDelete
            | Endpoint::TimelineCreate
            | Endpoint::TimelineDetachAncestor
            | Endpoint::TenantPassthrough
            | Endpoint::TenantWildcardPassthrough => Some(Scope::PageServerApi),
            _ => Some(Scope::Admin),
        }
    }

    /// The parameter that is read before the token is looked at.
    pub open spec fn spec_param_before_permission(self) -> Option<PathParam> {
        match self {
            Endpoint::TenantDrop
            | Endpoint::TenantImport
            | Endpoint::TenantDelete
            | Endpoint::TenantConfigGet
            | Endpoint::TenantTimeTravel
            | Endpoint::TenantSecondaryDownload
            | Endpoint::TimelineDelete
            | Endpoint::TimelineCreate
            | Endpoint::TimelineDetachAncestor
            | Endpoint::TenantPassthrough
            | Endpoint::TenantWildcardPassthrough => Some(PathParam::TenantId),
            Endpoint::TenantLocationConfig => Some(PathParam::TenantShardId),
            _ => None,
        }
    }

    /// The parameter that is read before the token is looked at.
    pub fn param_before_permission(self) -> (r: Option<PathParam>)
        ensures
            r == self.spec_param_before_permission(),
    {
        match self {
            Endpoint::TenantDrop
            | Endpoint::TenantImport
            | Endpoint::TenantDelete
            | Endpoint::TenantConfigGet
            | Endpoint::TenantTimeTravel
            | Endpoint::TenantSecondaryDownload
            | Endpoint::TimelineDelete
            | Endpoint::TimelineCreate
            | Endpoint::TimelineDetachAncestor
            | Endpoint::TenantPassthrough
            | Endpoint::TenantWildcardPassthrough => Some(PathParam::TenantId),
            Endpoint::TenantLocationConfig => Some(PathParam::TenantShardId),
            _ => None,
        }
    }

    /// The parameter that is read after the token was looked at.
    pub open spec fn spec_param_after_permission(self) -> Option<PathParam> {
        match self {
            Endpoint::TenantLocate
            | Endpoint::TenantDescribe
            | Endpoint::TenantShardSplit
            | Endpoint::TenantUpdatePolicy => Some(PathParam::TenantId),
            Endpoint::TenantShardMigrate => Some(PathParam::TenantShardId),
            Endpoint::TimelineDelete
            | Endpoint::TimelineDetachAncestor => Some(PathParam::TimelineId),
            Endpoint::NodeDrop
            | Endpoint::NodeDelete
            | Endpoint::NodeConfigure
            | Endpoint::NodeStatus
            | Endpoint::NodeDrain
            | Endpoint::CancelNodeDrain
            | Endpoint::NodeFill
            | Endpoint::CancelNodeFill => Some(PathParam::NodeId),
            _ => None,
        }
    }

    /// The parameter that is read after the token was looked at.
    pub fn param_after_permission(self) -> (r: Option<PathParam>)
        ensures
            r == self.spec_param_after_permission(),
    {
        match self {
            Endpoint::TenantLocate
            | Endpoint::TenantDescribe
            | Endpoint::TenantShardSplit
            | Endpoint::TenantUpdatePolicy => Some(PathParam::TenantId),
            Endpoint::TenantShardMigrate => Some(PathParam::TenantShardId),
            Endpoint::TimelineDelete
            | Endpoint::TimelineDetachAncestor => Some(PathParam::TimelineId),
            Endpoint::NodeDrop
            | Endpoint::NodeDelete
            | Endpoint::NodeConfigure
            | Endpoint::NodeStatus
            | Endpoint::NodeDrain
            | Endpoint::CancelNodeDrain
            | Endpoint::NodeFill
            | Endpoint::CancelNodeFill => Some(PathParam::NodeId),
            _ => None,
        }
    }

    /// Whether the request carries a body.
    pub open spec fn spec_has_body(self) -> bool {
        match self {
            Endpoint::ReAttach
            | Endpoint::Validate
            | Endpoint::AttachHook
            | Endpoint::Inspect
            | Endpoint::NodeRegister
            | Endpoint::NodeConfigure
            | Endpoint::TenantShardMigrate
            | Endpoint::TenantShardSplit
            | Endpoint::TenantUpdatePolicy
            | Endpoint::TenantCreate
            | Endpoint::TenantConfigSet
            | Endpoint::TenantLocationConfig
            | Endpoint::TenantTimeTravel
            | Endpoint::TimelineCreate => true,
            _ => false,
        }
    }

    /// Whether the request carries a body.
    pub fn has_body(self) -> (r: bool)
        ensures
            r == self.spec_has_body(),
    {
        match self {
            Endpoint::ReAttach
            | Endpoint::Validate
            | Endpoint::AttachHook
            | Endpoint::Inspect
            | Endpoint::NodeRegister
            | Endpoint::NodeConfigure
            | Endpoint::TenantShardMigrate
            | Endpoint::TenantShardSplit
            | Endpoint::TenantUpdatePolicy
            | Endpoint::TenantCreate
            | Endpoint::TenantConfigSet
            | Endpoint::TenantLocationConfig
            | Endpoint::TenantTimeTravel
            | Endpoint::TimelineCreate => true,
            _ => false,
        }
    }

    /// The checks that only this endpoint makes, in order.
    pub open spec fn spec_checks(self) -> (Option<Check>, Option<Check>) {
        match self {
            Endpoint::TenantTimeTravel => (
                Some(Check::Time(TimeParam::TravelTo)),
                Some(Check::Time(TimeParam::DoneIfAfter)),
            ),
            Endpoint::TenantSecondaryDownload => (Some(Check::WaitMs), None),
            Endpoint::NodeConfigure => (Some(Check::SameNodeId), None),
            Endpoint::TenantPassthrough
            | Endpoint::TenantWildcardPassthrough => (Some(Check::PathAndQuery), None),
            _ => (None, None),
        }
    }

    /// The checks that only this endpoint makes, in order.
    pub fn checks(self) -> (r: (Option<Check>, Option<Check>))
        ensures
            r == self.spec_checks(),
    {
        match self {
            Endpoint::TenantTimeTravel => (
                Some(Check::Time(TimeParam::TravelTo)),
                Some(Check::Time(TimeParam::DoneIfAfter)),
            ),
            Endpoint::TenantSecondaryDownload => (Some(Check::WaitMs), None),
            Endpoint::NodeConfigure => (Some(Check::SameNodeId), None),
            Endpoint::TenantPassthrough
            | Endpoint::TenantWildcardPassthrough => (Some(Check::PathAndQuery), None),
            _ => (None, None),
        }
    }

    /// How a request is answered that was served.
    pub open spec fn spec_success(self) -> Success {
        match self {
            Endpoint::TenantCreate
            | Endpoint::TimelineCreate => Success::Created,
            Endpoint::NodeDrain
            | Endpoint::CancelNodeDrain
            | Endpoint::NodeFill
            | Endpoint::CancelNodeFill => Success::Accepted,
            Endpoint::Metrics
            | Endpoint::TenantsDump
            | Endpoint::SchedulerDump
            | Endpoint::Failpoints
            | Endpoint::TenantPassthrough
            | Endpoint::TenantWildcardPassthrough => Success::AsServed,
            Endpoint::Ready => Success::ByReadiness,
            Endpoint::TenantSecondaryDownload => Success::ByPageserver,
            Endpoint::TenantDelete => Success::TenantDeletion,
            Endpoint::TimelineDelete => Success::TimelineDeletion,
            _ => Success::Served,
        }
    }

    /// How a request is answered that was served.
    pub fn success(self) -> (r: Success)
        ensures
            r == self.spec_success(),
    {
        match self {
            Endpoint::TenantCreate
            | Endpoint::TimelineCreate => Success::Created,
            Endpoint::NodeDrain
            | Endpoint::CancelNodeDrain
            | Endpoint::NodeFill
            | Endpoint::CancelNodeFill => Success::Accepted,
            Endpoint::Metrics
            | Endpoint::TenantsDump
            | Endpoint::SchedulerDump
            | Endpoint::Failpoints
            | Endpoint::TenantPassthrough
            | Endpoint::TenantWildcardPassthrough => Success::AsServed,
            Endpoint::Ready => Success::ByReadiness,
            Endpoint::TenantSecondaryDownload => Success::ByPageserver,
            Endpoint::TenantDelete => Success::TenantDeletion,
            Endpoint::TimelineDelete => Success::TimelineDeletion,
            _ => Success::Served,
        }
    }
}

} // verus!
