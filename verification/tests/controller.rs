use std::time::Duration;

use neon_storage::controller::auth::{check_permission, check_permissions, Claims, Scope};
use neon_storage::controller::endpoint::{Check, Endpoint, Method, PathParam, Success, TimeParam};
use neon_storage::controller::handler::{
    begin, check_time, handle_attach_hook, path_to_pass_on, same_node_id, stages_of, startup_waited, time_checked,
    Next, ReconcileError, Stage,
};
use neon_storage::controller::metrics::{
    epilogue_metrics, measured_metrics_handler, prologue_metrics,
};
use neon_storage::controller::passthrough::{handle_tenant_timeline_passthrough, proxy, relay};
use neon_storage::controller::router::{make_router, Middleware};
use neon_storage::controller::startup::{
    make_config, start, step_done, validate, AfterStep, Arguments, Defaults,
    SecretSources, Secrets, Step, StrictMode, UnreadSecrets,
};
use neon_storage::controller::status::{
    handle_ready, handle_status, handle_tenant_delete, map_reqwest_hyper_status,
};
use neon_storage::controller::timeline_delete::{handle_tenant_timeline_delete, DeletionNext};
use neon_storage::controller::uri::{HttpState, Uri};
use neon_storage::error::{ApiError, Report};
use neon_storage::ids::{NodeId, TenantId, TenantShardId};

#[test]
fn statuses_are_mapped() {
    for code in [100, 200, 404, 503, 999] {
        assert_eq!(map_reqwest_hyper_status(code).unwrap().as_u16(), code);
    }
    for code in [0, 99, 1000, u16::MAX] {
        match map_reqwest_hyper_status(code) {
            Err(ApiError::InternalServerError(report)) => {
                assert_eq!(report.message, "invalid status code");
                assert_eq!(report.cause, Some("invalid status code".to_string()));
            }
            _ => panic!("{code} is no status"),
        }
    }
}

#[test]
fn a_deleted_tenant_is_a_success() {
    assert_eq!(handle_tenant_delete(Ok(404)).unwrap().as_u16(), 200);
    assert_eq!(handle_tenant_delete(Ok(202)).unwrap().as_u16(), 202);
    assert!(matches!(handle_tenant_delete(Ok(1)), Err(ApiError::InternalServerError(_))));
    assert!(matches!(
        handle_tenant_delete(Err(ApiError::ShuttingDown)),
        Err(ApiError::ShuttingDown)
    ));
}

#[test]
fn readiness_and_status() {
    assert_eq!(handle_ready(true).as_u16(), 200);
    assert_eq!(handle_ready(false).as_u16(), 503);
    assert_eq!(handle_status().as_u16(), 200);
}

#[test]
fn scopes_are_checked() {
    let with = |scope| Some(Claims { scope });
    assert!(check_permissions(&with(Scope::PageServerApi), Scope::PageServerApi).is_ok());
    assert!(check_permissions(&with(Scope::Admin), Scope::Scrubber).is_ok());
    assert_eq!(
        check_permissions(&with(Scope::Scrubber), Scope::Admin).unwrap_err().required,
        Scope::Admin
    );
    assert_eq!(
        check_permissions(&with(Scope::Other), Scope::GenerationsApi).unwrap_err().required,
        Scope::GenerationsApi
    );
    assert!(check_permissions(&None, Scope::Admin).is_ok());
    assert!(check_permission(&Claims { scope: Scope::Admin }, Scope::Scrubber).is_err());
}

#[test]
fn uris_are_taken_apart() {
    let uri = Uri::parse("http://Host:80/status?a=b").unwrap();
    assert_eq!(uri.scheme.as_deref(), Some("http"));
    assert_eq!(uri.authority.as_deref(), Some("Host:80"));
    assert_eq!(uri.path, "/status");
    assert_eq!(uri.query.as_deref(), Some("a=b"));
    let plain = Uri::parse("/status").unwrap();
    assert!(plain.scheme.is_none() && plain.authority.is_none() && plain.query.is_none());
    assert_eq!(plain.path, "/status");
    assert!(Uri::parse("").is_none());
    assert!(Uri::parse("/a b").is_none());
    assert!(uri.same_as(&Uri::parse("HTTP://hOST:80/status?a=b").unwrap()));
    assert!(!uri.same_as(&Uri::parse("http://Host:80/Status?a=b").unwrap()));
    assert!(!uri.same_as(&plain));
}

#[test]
fn uris_are_compared_as_the_library_does() {
    let samples = [
        "/status",
        "/status?x",
        "/Status",
        "http://h/status",
        "HTTP://H/status",
        "https://h/status",
        "http://h:1/status",
        "h",
    ];
    for a in samples {
        for b in samples {
            let ours = Uri::parse(a).unwrap().same_as(&Uri::parse(b).unwrap());
            let theirs = a.parse::<hyper::Uri>().unwrap() == b.parse::<hyper::Uri>().unwrap();
            assert_eq!(ours, theirs, "{a} {b}");
        }
    }
}

#[test]
fn three_requests_need_no_token() {
    let state = HttpState::new(Some("auth"));
    assert_eq!(state.allowlist_routes.len(), 3);
    for path in ["/status", "/ready", "/metrics"] {
        assert!(state.auth_for(&Uri::parse(path).unwrap()).is_none());
    }
    for path in ["/status?x", "/status/", "/v1/tenant", "http://h/status", "/Status"] {
        assert_eq!(state.auth_for(&Uri::parse(path).unwrap()), Some(&"auth"));
    }
    let open: HttpState<&str> = HttpState::new(None);
    assert!(open.auth_for(&Uri::parse("/v1/tenant").unwrap()).is_none());
}

#[test]
fn routes_are_tried_in_order() {
    let router = make_router(true);
    assert_eq!(
        router.middleware,
        vec![Middleware::PrologueMetrics, Middleware::EpilogueMetrics, Middleware::Auth]
    );
    assert_eq!(
        make_router(false).middleware,
        vec![Middleware::PrologueMetrics, Middleware::EpilogueMetrics]
    );
    assert_eq!(router.routes.len(), 42);
    assert_eq!(router.routes[0].path, "/metrics");
    assert_eq!(router.routes[3].path, "/upcall/v1/re-attach");
    assert_eq!(router.routes[3].method, Method::Post);
    let last = router.routes[41];
    assert_eq!(last.endpoint, Endpoint::TenantWildcardPassthrough);
    assert_eq!(last.path, "/v1/tenant/:tenant_id/*");
    assert_eq!(last.method, Method::Get);
}

#[test]
fn no_two_routes_are_the_same() {
    let routes = make_router(false).routes;
    for (i, a) in routes.iter().enumerate() {
        for b in &routes[i + 1..] {
            assert!(a.method != b.method || a.path != b.path);
            assert!(a.endpoint != b.endpoint);
        }
    }
}

#[test]
fn virtual_pageserver_endpoints_wait_for_startup() {
    for route in make_router(true).routes {
        if route.path.starts_with("/v1/") {
            assert!(route.endpoint.waits_for_startup());
            assert!(matches!(
                route.endpoint.required_scope(),
                None | Some(Scope::PageServerApi)
            ));
        }
        if route.path.starts_with("/control/v1/") {
            let scope = route.endpoint.required_scope().unwrap();
            assert_eq!(scope == Scope::Scrubber, route.endpoint == Endpoint::TenantDescribe);
            assert!(scope == Scope::Scrubber || scope == Scope::Admin);
        }
    }
}

#[test]
fn parameters_of_the_path_are_read() {
    for route in make_router(true).routes {
        let mut read: Vec<&str> = Vec::new();
        read.extend(route.endpoint.param_before_permission().map(|p| p.name()));
        read.extend(route.endpoint.param_after_permission().map(|p| p.name()));
        let named: Vec<&str> = route
            .path
            .split('/')
            .filter_map(|piece| piece.strip_prefix(':'))
            .collect();
        assert_eq!(read, named, "{}", route.path);
    }
}

#[test]
fn names_under_which_requests_are_counted() {
    assert_eq!(Endpoint::ReconcileAll.request_name(), None);
    assert_eq!(Endpoint::Failpoints.request_name(), None);
    assert_eq!(Endpoint::NodeRegister.request_name(), Some("control_v1_node"));
    assert_eq!(Endpoint::NodeList.request_name(), Some("control_v1_node"));
    assert_eq!(Endpoint::TimelineDelete.request_name(), Some("v1_tenant_timeline"));
    assert_eq!(Endpoint::CancelNodeFill.request_name(), Some("control_v1_cancel_node_fill"));
}

#[test]
fn stages_of_some_endpoints() {
    assert_eq!(stages_of(Endpoint::Status), vec![Stage::Name, Stage::Serve]);
    assert_eq!(
        stages_of(Endpoint::ReconcileAll),
        vec![Stage::Permission(Scope::Admin), Stage::Serve]
    );
    assert_eq!(stages_of(Endpoint::Failpoints), vec![Stage::Serve]);
    assert_eq!(
        stages_of(Endpoint::ReAttach),
        vec![Stage::Name, Stage::Permission(Scope::GenerationsApi), Stage::Body, Stage::Serve]
    );
    assert_eq!(
        stages_of(Endpoint::TenantConfigGet),
        vec![
            Stage::WaitForStartup,
            Stage::Name,
            Stage::Param(PathParam::TenantId),
            Stage::Permission(Scope::PageServerApi),
            Stage::Serve,
        ]
    );
    assert_eq!(
        stages_of(Endpoint::TenantLocate),
        vec![
            Stage::WaitForStartup,
            Stage::Name,
            Stage::Permission(Scope::Admin),
            Stage::Param(PathParam::TenantId),
            Stage::Serve,
        ]
    );
    assert_eq!(
        stages_of(Endpoint::TimelineDelete),
        vec![
            Stage::WaitForStartup,
            Stage::Name,
            Stage::Param(PathParam::TenantId),
            Stage::Permission(Scope::PageServerApi),
            Stage::Param(PathParam::TimelineId),
            Stage::Serve,
        ]
    );
    assert_eq!(
        stages_of(Endpoint::NodeConfigure),
        vec![
            Stage::Name,
            Stage::Permission(Scope::Admin),
            Stage::Param(PathParam::NodeId),
            Stage::Body,
            Stage::Check(Check::SameNodeId),
            Stage::Serve,
        ]
    );
    assert_eq!(
        stages_of(Endpoint::TenantTimeTravel),
        vec![
            Stage::WaitForStartup,
            Stage::Name,
            Stage::Param(PathParam::TenantId),
            Stage::Permission(Scope::PageServerApi),
            Stage::Body,
            Stage::Check(Check::Time(TimeParam::TravelTo)),
            Stage::Check(Check::Time(TimeParam::DoneIfAfter)),
            Stage::Serve,
        ]
    );
    assert_eq!(
        stages_of(Endpoint::TenantSecondaryDownload),
        vec![
            Stage::WaitForStartup,
            Stage::Name,
            Stage::Param(PathParam::TenantId),
            Stage::Check(Check::WaitMs),
            Stage::Serve,
        ]
    );
}

#[test]
fn the_first_stage_that_fails_answers() {
    for route in make_router(true).routes {
        let endpoint = route.endpoint;
        let stages = stages_of(endpoint);
        for failing in 0..=stages.len() {
            let mut next = begin(endpoint);
            let mut seen = 0;
            let outcome = loop {
                match next {
                    Next::Done(outcome) => break outcome,
                    Next::Stage { stage, handling } => {
                        assert_eq!(stage, stages[seen]);
                        let outcome = if seen == failing {
                            Err(ApiError::Conflict(format!("stage {seen}")))
                        } else {
                            Ok(())
                        };
                        seen += 1;
                        next = handling.stage_done(outcome);
                    }
                }
            };
            if failing < stages.len() {
                assert_eq!(seen, failing + 1);
                assert!(matches!(
                    outcome,
                    Err(ApiError::Conflict(m)) if m == format!("stage {failing}")
                ));
            } else {
                assert_eq!(seen, stages.len());
                assert!(outcome.is_ok());
            }
        }
    }
}

#[test]
fn successes_of_some_endpoints() {
    assert_eq!(Endpoint::TenantCreate.success(), Success::Created);
    assert_eq!(Endpoint::NodeFill.success(), Success::Accepted);
    assert_eq!(Endpoint::NodeList.success(), Success::Served);
    assert_eq!(Endpoint::TenantDelete.success(), Success::TenantDeletion);
    assert_eq!(Endpoint::Ready.success(), Success::ByReadiness);
    let status = |endpoint: Endpoint| endpoint.success().status().map(|s| s.as_u16());
    assert_eq!(status(Endpoint::NodeList), Some(200));
    assert_eq!(status(Endpoint::TimelineCreate), Some(201));
    assert_eq!(status(Endpoint::CancelNodeDrain), Some(202));
    assert_eq!(status(Endpoint::TenantDelete), None);
}

#[test]
fn single_stages() {
    assert!(startup_waited(true).is_ok());
    assert!(matches!(
        startup_waited(false),
        Err(ApiError::Timeout(m)) if m == "Timed out waiting for service readiness"
    ));
    assert!(same_node_id(NodeId { value: 1 }, NodeId { value: 1 }).is_ok());
    assert!(matches!(
        same_node_id(NodeId { value: 1 }, NodeId { value: 2 }),
        Err(ApiError::BadRequest(r)) if r.message == "Path and body node_id differ"
    ));
    assert_eq!(path_to_pass_on(Some("/p".to_string())).unwrap(), "/p");
    assert!(matches!(
        path_to_pass_on(None),
        Err(ApiError::BadRequest(r)) if r.message == "Missing path"
    ));
    assert_eq!(handle_attach_hook(Ok(5)).unwrap(), 5);
    let report = Report { message: "x".to_string(), cause: None };
    assert!(matches!(
        handle_attach_hook::<u8>(Err(report)),
        Err(ApiError::InternalServerError(r)) if r.message == "x"
    ));
    assert!(matches!(
        ApiError::from(ReconcileError { message: "x".to_string() }),
        ApiError::Conflict(m) if m == "Reconciliation error: x"
    ));
}

#[test]
fn times_have_to_be_points_in_time() {
    assert!(check_time(TimeParam::TravelTo, "2018-02-14T00:28:07Z").is_ok());
    assert!(check_time(TimeParam::DoneIfAfter, "2018-02-14T00:28:07.133Z").is_ok());
    assert!(matches!(
        check_time(TimeParam::TravelTo, "tomorrow\"s"),
        Err(ApiError::BadRequest(r)) if r.message == "Invalid time for travel_to: \"tomorrow\\\"s\""
    ));
    assert!(matches!(
        check_time(TimeParam::DoneIfAfter, "2018-02-14 00:28:07"),
        Err(ApiError::BadRequest(r))
            if r.message == "Invalid time for done_if_after: \"2018-02-14 00:28:07\""
    ));
    assert!(time_checked(TimeParam::TravelTo, "x", true).is_ok());
    assert!(time_checked(TimeParam::TravelTo, "x", false).is_err());
}

fn tenant() -> TenantId {
    TenantId { value: 0xa }
}

const TENANT: &str = "0000000000000000000000000000000a";

fn shard_zero(shard_count: u8) -> TenantShardId {
    TenantShardId { tenant_id: tenant(), shard_number: 0, shard_count }
}

#[test]
fn requests_are_passed_on_to_shard_zero() {
    let path = format!("/v1/tenant/{TENANT}/timeline/abc?x=1");
    let proxied = proxy(&path, tenant(), NodeId { value: 12 }, shard_zero(2));
    assert_eq!(proxied.path, format!("/v1/tenant/{TENANT}-0002/timeline/abc?x=1"));
    assert_eq!(proxied.pageserver_id, "12");
    assert_eq!(proxied.path_label, "v1_tenant_timeline_abc?x=1");
    let proxied = proxy(&path, tenant(), NodeId { value: 0 }, shard_zero(0));
    assert_eq!(proxied.path, path);
    assert_eq!(proxied.path_label, "v1_tenant_timeline_abc?x=1");
    let bare = format!("/v1/tenant/{TENANT}");
    let proxied = proxy(&bare, tenant(), NodeId { value: 1 }, shard_zero(4));
    assert_eq!(proxied.path, format!("/v1/tenant/{TENANT}-0004"));
    assert_eq!(proxied.path_label, "v1_tenant");
    assert!(!proxied.path_label.contains('/'));
}

#[test]
fn passing_on_needs_shard_zero() {
    assert!(matches!(
        handle_tenant_timeline_passthrough("/x", tenant(), Err(ApiError::ShuttingDown)),
        Err(ApiError::ShuttingDown)
    ));
    let found = Ok((NodeId { value: 3 }, shard_zero(0)));
    let proxied = handle_tenant_timeline_passthrough("/x", tenant(), found).unwrap();
    assert_eq!(proxied.path, "/x");
    assert_eq!(proxied.pageserver_id, "3");
}

#[test]
fn responses_are_relayed() {
    let relayed = relay(Some(200));
    assert!(!relayed.counts_as_error);
    assert_eq!(relayed.status.unwrap().as_u16(), 200);
    let relayed = relay(Some(404));
    assert!(relayed.counts_as_error);
    assert_eq!(relayed.status.unwrap().as_u16(), 404);
    assert!(relay(Some(300)).counts_as_error);
    assert!(!relay(Some(299)).counts_as_error);
    assert!(matches!(relay(Some(7)).status, Err(ApiError::InternalServerError(_))));
    let lost = relay(None);
    assert!(!lost.counts_as_error);
    assert!(matches!(lost.status, Err(ApiError::ShuttingDown)));
}

#[test]
fn deletions_are_waited_for() {
    let DeletionNext::Ask(asking) = handle_tenant_timeline_delete() else {
        panic!("not asked first")
    };
    let DeletionNext::Sleep { secs, sleeping } = asking.answered(Ok(202)) else {
        panic!("not slept")
    };
    assert_eq!(secs, 1);
    let DeletionNext::Ask(asking) = sleeping.woke(1_000_000_000) else {
        panic!("not asked again")
    };
    let DeletionNext::Sleep { secs, sleeping } = asking.answered(Ok(202)) else {
        panic!("not slept")
    };
    assert_eq!(secs, 5);
    let DeletionNext::Ask(asking) = sleeping.woke(20_000_000_000) else {
        panic!("not asked again")
    };
    assert!(matches!(
        asking.answered(Ok(404)),
        DeletionNext::Respond(Ok(status)) if status.as_u16() == 200
    ));
}

#[test]
fn deletions_end() {
    let mut next = handle_tenant_timeline_delete();
    let mut elapsed: u128 = 0;
    let mut asked = 0;
    let answer = loop {
        next = match next {
            DeletionNext::Ask(asking) => {
                asked += 1;
                asking.answered(Ok(202))
            }
            DeletionNext::Sleep { secs, sleeping } => {
                elapsed += secs as u128 * 1_000_000_000;
                sleeping.woke(elapsed)
            }
            DeletionNext::Respond(answer) => break answer,
        };
    };
    assert_eq!(asked, 5);
    assert_eq!(elapsed, 21_000_000_000);
    assert_eq!(answer.unwrap().as_u16(), 409);
}

#[test]
fn deletions_pass_errors_on() {
    let ask = || match handle_tenant_timeline_delete() {
        DeletionNext::Ask(asking) => asking,
        _ => panic!("not asked first"),
    };
    assert!(matches!(
        ask().answered(Ok(500)),
        DeletionNext::Respond(Ok(status)) if status.as_u16() == 500
    ));
    assert!(matches!(
        ask().answered(Ok(10)),
        DeletionNext::Respond(Err(ApiError::InternalServerError(_)))
    ));
    assert!(matches!(
        ask().answered(Err(ApiError::ShuttingDown)),
        DeletionNext::Respond(Err(ApiError::ShuttingDown))
    ));
}

#[test]
fn named_requests_are_counted() {
    let meta = Some(prologue_metrics(Method::Put));
    let seen = epilogue_metrics(Some("x"), &meta, 201).unwrap();
    assert_eq!((seen.path, seen.method, seen.status), ("x", Method::Put, 201));
    assert!(epilogue_metrics(None, &meta, 200).is_none());
    assert!(epilogue_metrics(Some("x"), &None, 200).is_none());
    let response = measured_metrics_handler(vec![1, 2]);
    assert_eq!(response.status, 200);
    assert_eq!(response.content_type, "text/plain; version=0.0.4");
    assert_eq!(response.body, vec![1, 2]);
}

fn sources(values: [Option<&str>; 4]) -> SecretSources {
    let [database_url, public_key, jwt_token, control_plane_jwt_token] =
        values.map(|v| v.map(str::to_string));
    SecretSources { database_url, public_key, jwt_token, control_plane_jwt_token }
}

const NO_SECRETS: [Option<&str>; 4] = [None; 4];

fn load(
    args: [Option<&str>; 4],
    env: [Option<&str>; 4],
    stored: [Option<&str>; 4],
) -> UnreadSecrets {
    UnreadSecrets::load(&sources(args), &sources(env), &sources(stored)).unwrap()
}

#[test]
fn secrets_come_from_the_command_line_first() {
    let secrets = load(
        [Some("db"), None, Some("jwt"), None],
        [Some("other"), Some("key"), None, Some("cp")],
        [Some("third"), Some("third"), Some("third"), Some("third")],
    );
    assert_eq!(secrets.database_url, "db");
    assert_eq!(secrets.public_key, None);
    assert_eq!(secrets.jwt_token, Some("jwt".to_string()));
    assert_eq!(secrets.control_plane_jwt_token, None);
}

#[test]
fn secrets_come_from_the_environment_where_the_command_line_has_no_database() {
    let secrets = load(
        [None, Some("key"), Some("jwt"), Some("cp")],
        [Some("other"), Some("env key"), None, Some("env cp")],
        [Some("third"), Some("third"), Some("third"), Some("third")],
    );
    assert_eq!(secrets.database_url, "other");
    assert_eq!(secrets.public_key, Some("env key".to_string()));
    assert_eq!(secrets.jwt_token, None);
    assert_eq!(secrets.control_plane_jwt_token, Some("env cp".to_string()));
}

#[test]
fn stored_secrets_come_last() {
    let secrets = load(
        [None, Some("key"), None, None],
        [None, None, Some("jwt"), None],
        [Some("third"), None, None, Some("stored cp")],
    );
    assert_eq!(secrets.database_url, "third");
    assert_eq!(secrets.public_key, None);
    assert_eq!(secrets.jwt_token, None);
    assert_eq!(secrets.control_plane_jwt_token, Some("stored cp".to_string()));
}

#[test]
fn some_source_has_to_have_a_database() {
    let others = sources([None, Some("key"), Some("jwt"), Some("cp")]);
    let e = UnreadSecrets::load(&others, &others, &others).unwrap_err();
    assert_eq!(
        e.message,
        "Database URL is not set (set `--database-url`, or `DATABASE_URL` environment)"
    );
    assert_eq!(e.cause, None);
}

fn loaded(values: [Option<&str>; 4]) -> Secrets<u8> {
    let unread = load(values, NO_SECRETS, NO_SECRETS);
    let key = unread.public_key.as_ref().map(|_| Ok(5));
    Secrets::with_key(unread, key).unwrap()
}

#[test]
fn keys_have_to_be_read() {
    let unread = load([Some("db"), Some("k"), None, None], NO_SECRETS, NO_SECRETS);
    let e = Secrets::<u8>::with_key(unread, Some(Err("bad".to_string()))).unwrap_err();
    assert_eq!(e.message, "Loading public key");
    assert_eq!(e.cause, Some("bad".to_string()));
    assert_eq!(loaded([Some("db"), Some("k"), None, None]).public_key, Some(5));
    assert_eq!(loaded([Some("db"), None, None, None]).public_key, None);
}

#[test]
fn strict_mode_wants_everything() {
    assert_eq!(StrictMode::default(), StrictMode::Strict);
    assert_eq!(StrictMode::from_flag(true), StrictMode::Dev);
    assert_eq!(StrictMode::from_flag(false), StrictMode::Strict);
    let hook = Some("http://hook".to_string());
    let all = [Some("db"), Some("k"), Some("j"), Some("c")];
    assert!(validate(StrictMode::Strict, &loaded(all), &hook).is_ok());
    assert_eq!(
        validate(StrictMode::Strict, &loaded(all), &None).unwrap_err().message,
        "`--compute-hook-url` is not set: this is only permitted in `--dev` mode"
    );
    for missing in 1..4 {
        let mut some = all;
        some[missing] = None;
        assert_eq!(
            validate(StrictMode::Strict, &loaded(some), &None).unwrap_err().message,
            "Insecure config!  One or more secrets is not set.  This is only permitted in `--dev` mode"
        );
        assert!(validate(StrictMode::Dev, &loaded(some), &None).is_ok());
    }
}

#[test]
fn configurations_have_defaults() {
    let defaults = Defaults {
        max_unavailable_interval: Duration::from_secs(60),
        reconciler_concurrency: 128,
    };
    let args = |interval, concurrency| Arguments {
        compute_hook_url: Some("hook".to_string()),
        max_unavailable_interval: interval,
        reconciler_concurrency: concurrency,
        split_threshold: Some(9),
        neon_local_repo_dir: None,
    };
    let all = [Some("db"), Some("k"), Some("j"), Some("c")];
    let (config, rest) = make_config(loaded(all), args(None, None), defaults);
    assert_eq!(config.max_unavailable_interval, Duration::from_secs(60));
    assert_eq!(config.reconciler_concurrency, 128);
    assert_eq!(config.jwt_token, Some("j".to_string()));
    assert_eq!(config.control_plane_jwt_token, Some("c".to_string()));
    assert_eq!(config.compute_hook_url, Some("hook".to_string()));
    assert_eq!(config.split_threshold, Some(9));
    assert_eq!(config.neon_local_repo_dir, None);
    assert_eq!(rest.database_url, "db");
    assert_eq!(rest.public_key, Some(5));
    let (config, _) = make_config(loaded(all), args(Some(Duration::from_secs(1)), Some(2)), defaults);
    assert_eq!(config.max_unavailable_interval, Duration::from_secs(1));
    assert_eq!(config.reconciler_concurrency, 2);
}

#[test]
fn nothing_is_done_before_the_configuration_is_accepted() {
    let hook = Some("http://hook".to_string());
    let all = [Some("db"), Some("k"), Some("j"), Some("c")];
    let some = [Some("db"), None, Some("j"), Some("c")];
    match start(StrictMode::Strict, &loaded(some), &hook) {
        AfterStep::Fail(report) => assert_eq!(
            report.message,
            "Insecure config!  One or more secrets is not set.  This is only permitted in `--dev` mode"
        ),
        AfterStep::Do(step) => panic!("begins with {step:?}"),
    }
    match start(StrictMode::Strict, &loaded(all), &None) {
        AfterStep::Fail(report) => assert_eq!(
            report.message,
            "`--compute-hook-url` is not set: this is only permitted in `--dev` mode"
        ),
        AfterStep::Do(step) => panic!("begins with {step:?}"),
    }
    assert!(matches!(
        start(StrictMode::Strict, &loaded(all), &hook),
        AfterStep::Do(Step::AwaitConnection)
    ));
    assert!(matches!(
        start(StrictMode::Dev, &loaded(some), &None),
        AfterStep::Do(Step::AwaitConnection)
    ));
}

#[test]
fn steps_follow_each_other() {
    let secrets = loaded([Some("db"), None, None, None]);
    let AfterStep::Do(mut step) = start(StrictMode::Dev, &secrets, &None) else {
        panic!("does not begin")
    };
    let mut steps = vec![step];
    while step != Step::Exit {
        step = match step_done(step, Ok(())) {
            AfterStep::Do(next) => next,
            AfterStep::Fail(_) => panic!("failed"),
        };
        steps.push(step);
    }
    assert_eq!(
        steps,
        vec![
            Step::AwaitConnection,
            Step::RunMigrations,
            Step::SpawnService,
            Step::BindListener,
            Step::BuildRouter,
            Step::StartServer,
            Step::AwaitSignal,
            Step::StopServer,
            Step::ShutdownService,
            Step::Exit,
        ]
    );
}

#[test]
fn failing_steps() {
    let no = || Err("no".to_string());
    match step_done(Step::RunMigrations, no()) {
        AfterStep::Fail(report) => {
            assert_eq!(report.message, "Running database migrations");
            assert_eq!(report.cause, Some("no".to_string()));
        }
        AfterStep::Do(_) => panic!("goes on"),
    }
    match step_done(Step::SpawnService, no()) {
        AfterStep::Fail(report) => assert_eq!(report.message, "no"),
        AfterStep::Do(_) => panic!("goes on"),
    }
    assert!(matches!(step_done(Step::StopServer, no()), AfterStep::Do(Step::ShutdownService)));
    assert!(matches!(step_done(Step::ShutdownService, no()), AfterStep::Do(Step::Exit)));
}
