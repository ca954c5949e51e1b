use neon_storage::ids::{TenantId, TenantShardId, TimelineId};
use neon_storage::remote_path::RemotePath;
use neon_storage::scrubber::config::{
    file_logging_disabled, init_logging, init_remote, says_yes, BucketConfig, ConsoleConfig,
    ControllerClientConfig, LogOutput, Url,
};
use neon_storage::scrubber::retry::{
    download_object_to_file, download_object_with_retries, list_objects_with_retries,
    DownloadNext, FileNext, ListNext, Removal, Resumed, MAX_RETRIES,
};
use neon_storage::scrubber::target::{
    NodeKind, RootTarget, S3Target, TenantShardTimelineId, TraversingDepth,
};

fn target(prefix: &str, delimiter: &str) -> S3Target {
    S3Target {
        bucket_name: "bucket".to_string(),
        prefix_in_bucket: prefix.to_string(),
        delimiter: delimiter.to_string(),
    }
}

fn shard() -> TenantShardId {
    TenantShardId {
        tenant_id: TenantId { value: 0xa },
        shard_number: 1,
        shard_count: 2,
    }
}

const TENANT: &str = "0000000000000000000000000000000a";
const SHARD: &str = "0000000000000000000000000000000a-0102";
const TIMELINE: &str = "0000000000000000000000000000000b";

fn timeline() -> TenantShardTimelineId {
    TenantShardTimelineId::new(shard(), TimelineId { value: 0xb })
}

#[test]
fn segments_go_under_a_prefix() {
    assert_eq!(target("", "/").with_sub_segment("x").prefix_in_bucket, "/x/");
    assert_eq!(target("a", "/").with_sub_segment("x").prefix_in_bucket, "a/x/");
    assert_eq!(target("a/", "/").with_sub_segment("x").prefix_in_bucket, "a/x/");
    assert_eq!(target("/", "/").with_sub_segment("x").prefix_in_bucket, "/x/");
    assert_eq!(target("a/", "::").with_sub_segment("x").prefix_in_bucket, "a::x::");
    assert_eq!(target("", "::").with_sub_segment("x").prefix_in_bucket, "/x/");
    let sub = target("a", "/").with_sub_segment("x");
    assert_eq!(sub.bucket_name, "bucket");
    assert_eq!(sub.delimiter, "/");
}

#[test]
fn pageserver_targets() {
    let root = RootTarget::Pageserver(target("pageserver/v1", "/"));
    assert_eq!(root.tenants_root().prefix_in_bucket, "pageserver/v1/tenants/");
    assert_eq!(
        root.tenant_root(&shard()).prefix_in_bucket,
        format!("pageserver/v1/tenants/{SHARD}/")
    );
    assert_eq!(
        root.timelines_root(&shard()).prefix_in_bucket,
        format!("pageserver/v1/tenants/{SHARD}/timelines/")
    );
    assert_eq!(
        root.timeline_root(&timeline()).prefix_in_bucket,
        format!("pageserver/v1/tenants/{SHARD}/timelines/{TIMELINE}/")
    );
    assert_eq!(
        root.tenant_shards_prefix(&shard().tenant_id).prefix_in_bucket,
        format!("pageserver/v1/tenants/{TENANT}")
    );
    assert_eq!(root.bucket_name(), "bucket");
    assert_eq!(root.delimiter(), "/");
}

#[test]
fn safekeeper_targets() {
    let root = RootTarget::Safekeeper(target("wal/", "/"));
    assert_eq!(root.tenants_root().prefix_in_bucket, "wal/");
    assert_eq!(root.tenant_root(&shard()).prefix_in_bucket, format!("wal/{TENANT}/"));
    assert_eq!(root.timelines_root(&shard()).prefix_in_bucket, format!("wal/{TENANT}/"));
    assert_eq!(
        root.timeline_root(&timeline()).prefix_in_bucket,
        format!("wal/{TENANT}/{TIMELINE}/")
    );
    assert_eq!(root.clone().bucket_name(), "bucket");
}

#[test]
fn keys_of_layers_are_under_their_timeline() {
    for prefix in ["", "/", "p", "p/", "p//"] {
        let root = RootTarget::Pageserver(target(prefix, "/"));
        let path = format!("tenants/{SHARD}/timelines/{TIMELINE}/layer");
        let key = root.absolute_key(&RemotePath::from_string(&path).unwrap());
        let expected = format!("{}layer", root.timeline_root(&timeline()).prefix_in_bucket);
        assert_eq!(key, expected);
    }
    let root = RootTarget::Safekeeper(target("wal/", "/"));
    assert_eq!(root.absolute_key(&RemotePath::from_string("x").unwrap()), "wal/x");
}

#[test]
fn shards_are_found_by_their_tenant() {
    let root = RootTarget::Pageserver(target("p", "/"));
    let all = root.tenant_shards_prefix(&shard().tenant_id).prefix_in_bucket;
    assert!(root.tenant_root(&shard()).prefix_in_bucket.starts_with(&all));
    // A prefix that ends in a slash gets a second one.
    let root = RootTarget::Pageserver(target("p/", "/"));
    let all = root.tenant_shards_prefix(&shard().tenant_id).prefix_in_bucket;
    assert_eq!(all, format!("p//tenants/{TENANT}"));
}

#[test]
fn kinds_and_depths_are_written() {
    assert_eq!(timeline().to_string(), format!("{SHARD}/{TIMELINE}"));
    let short = timeline().as_tenant_timeline_id();
    assert_eq!(short.tenant_id, TenantId { value: 0xa });
    assert_eq!(short.timeline_id, TimelineId { value: 0xb });
    assert_eq!(TraversingDepth::Tenant.to_string(), "tenant");
    assert_eq!(TraversingDepth::Timeline.to_string(), "timeline");
    assert_eq!(NodeKind::Safekeeper.as_str(), "safekeeper");
    assert_eq!(NodeKind::Pageserver.to_string(), "pageserver");
}

#[test]
fn bucket_configuration_comes_from_the_environment() {
    let ok = |s: &str| Ok(s.to_string());
    let missing = || Err("environment variable not found".to_string());
    let config = BucketConfig::from_env(ok("r"), ok("b"), Some("p".to_string())).unwrap();
    assert_eq!((config.region.as_str(), config.bucket.as_str()), ("r", "b"));
    assert_eq!(config.clone().prefix_in_bucket, Some("p".to_string()));
    let e = BucketConfig::from_env(missing(), missing(), None).unwrap_err();
    assert_eq!(e.message, "'REGION' param retrieval");
    assert_eq!(e.cause, Some("environment variable not found".to_string()));
    let e = BucketConfig::from_env(ok("r"), missing(), None).unwrap_err();
    assert_eq!(e.message, "'BUCKET' param retrieval");
}

#[test]
fn roots_have_default_prefixes() {
    let config = |prefix: Option<&str>| BucketConfig {
        region: "r".to_string(),
        bucket: "b".to_string(),
        prefix_in_bucket: prefix.map(str::to_string),
    };
    let remote = init_remote(config(None), NodeKind::Pageserver);
    assert_eq!(remote.region, "r");
    match remote.root {
        RootTarget::Pageserver(root) => {
            assert_eq!(root.prefix_in_bucket, "pageserver/v1");
            assert_eq!(root.bucket_name, "b");
            assert_eq!(root.delimiter, "/");
        }
        _ => panic!("not a pageserver"),
    }
    match init_remote(config(None), NodeKind::Safekeeper).root {
        RootTarget::Safekeeper(root) => assert_eq!(root.prefix_in_bucket, "wal/"),
        _ => panic!("not a safekeeper"),
    }
    match init_remote(config(Some("mine")), NodeKind::Safekeeper).root {
        RootTarget::Safekeeper(root) => assert_eq!(root.prefix_in_bucket, "mine"),
        _ => panic!("not a safekeeper"),
    }
}

#[test]
fn console_configuration_comes_from_the_environment() {
    let ok = |s: &str| Ok(s.to_string());
    let missing = || Err("environment variable not found".to_string());
    let config = ConsoleConfig::from_env(ok("HTTP://Example.com"), ok("t")).unwrap();
    assert_eq!(config.base_url.text, "http://example.com/");
    assert_eq!(config.token, "t");
    let e = ConsoleConfig::from_env(missing(), ok("t")).unwrap_err();
    assert_eq!(e.message, "'CLOUD_ADMIN_API_URL' param retrieval");
    let e = ConsoleConfig::from_env(ok("no url"), missing()).unwrap_err();
    assert_eq!(e.message, "'CLOUD_ADMIN_API_URL' param parsing");
    assert_eq!(e.cause, Some("relative URL without a base".to_string()));
    let e = ConsoleConfig::from_env(ok("http://example.com"), missing()).unwrap_err();
    assert_eq!(e.message, "'CLOUD_ADMIN_API_TOKEN' environment variable fetch");
    let e = ConsoleConfig::from_parsed(Err("bad".to_string()), ok("t")).unwrap_err();
    assert_eq!(e.cause, Some("bad".to_string()));
    let controller = ControllerClientConfig {
        controller_api: Url::parse("http://127.0.0.1:1234").unwrap(),
        controller_jwt: "jwt".to_string(),
    };
    assert_eq!(controller.controller_api.text, "http://127.0.0.1:1234/");
}

#[test]
fn file_logging_can_be_turned_off() {
    let some = |s: &str| Some(s.to_string());
    assert!(file_logging_disabled(&some("1")));
    assert!(file_logging_disabled(&some("TrUe")));
    assert!(!file_logging_disabled(&some("yes")));
    assert!(!file_logging_disabled(&some("0")));
    assert!(!file_logging_disabled(&None));
    assert!(says_yes("X", "true"));
    assert!(!says_yes("true", "X"));
    assert!(matches!(init_logging("f", &some("true")), LogOutput::Stderr));
    match init_logging("f.log", &None) {
        LogOutput::StderrAndFile { directory, file_name } => {
            assert_eq!(directory, "./logs/");
            assert_eq!(file_name, "f.log");
        }
        LogOutput::Stderr => panic!("no file"),
    }
}

#[test]
fn listings_are_tried_twenty_times() {
    let token = Some("token".to_string());
    let (request, mut trial) = list_objects_with_retries(&target("p", "/"), &token);
    assert_eq!(request.bucket, "bucket");
    assert_eq!(request.prefix, "p");
    assert_eq!(request.delimiter, "/");
    assert_eq!(request.continuation_token, token);
    let mut pauses = 0;
    let report = loop {
        match trial.answered::<u8>(Err(format!("cause {pauses}"))) {
            ListNext::Pause { secs, trial: next } => {
                assert_eq!(secs, 1);
                pauses += 1;
                trial = next;
            }
            ListNext::Done(outcome) => break outcome.unwrap_err(),
        }
    };
    // There is no pause after the last trial.
    assert_eq!(pauses, MAX_RETRIES - 1);
    assert_eq!(report.message, "Failed to list objects 20 times");
    assert_eq!(report.cause, Some("cause 19".to_string()));
    let (_, trial) = list_objects_with_retries(&target("p", "/"), &None);
    assert!(matches!(trial.answered(Ok(7)), ListNext::Done(Ok(7))));
}

#[test]
fn downloads_are_tried_twenty_times() {
    let (request, mut trial) = download_object_with_retries("bucket", "key");
    assert_eq!((request.bucket.as_str(), request.key.as_str()), ("bucket", "key"));
    assert!(request.version_id.is_none());
    let mut pauses = 0;
    let report = loop {
        let pause = match trial.answered::<Vec<u8>>(Err("no".to_string())) {
            DownloadNext::Pause { secs, pause } => {
                assert_eq!(secs, 1);
                pauses += 1;
                pause
            }
            DownloadNext::Done(_) => panic!("nothing was downloaded"),
        };
        match pause.resume("key") {
            Resumed::Again(next) => trial = next,
            Resumed::GiveUp(report) => break report,
        }
    };
    assert_eq!(pauses, MAX_RETRIES);
    assert_eq!(report.message, "Failed to download objects with key key 20 times");
    assert!(report.cause.is_none());
    let (_, trial) = download_object_with_retries("bucket", "key");
    assert!(matches!(trial.answered(Ok(vec![1, 2])), DownloadNext::Done(body) if body == vec![1, 2]));
}

#[test]
fn downloads_into_files_go_through_a_temporary_file() {
    let download = download_object_to_file("bucket", "key", Some("v"), "/dir/file");
    assert_eq!(download.tmp_path, "/dir/file.tmp");
    assert_eq!(download.request.version_id, Some("v".to_string()));
    let FileNext::RemoveTmp(state) = download.first else {
        panic!("not removed first")
    };
    let FileNext::CreateTmp(state) = state.removed(Removal::NotFound) else {
        panic!("not created")
    };
    let FileNext::Request(state) = state.created(Ok(())) else {
        panic!("not requested")
    };
    let FileNext::CopyBody(state) = state.served(Ok(())) else {
        panic!("not copied")
    };
    let FileNext::Rename(state) = state.copied(Ok(())) else {
        panic!("not renamed")
    };
    assert!(matches!(state.renamed(Ok(())), FileNext::Done(Ok(()))));
    assert!(download_object_to_file("b", "k", None, "f").request.version_id.is_none());
}

#[test]
fn only_requests_are_retried() {
    let first = || match download_object_to_file("b", "k", None, "f").first {
        FileNext::RemoveTmp(state) => state,
        _ => panic!("not removed first"),
    };
    let failure = |next: FileNext| match next {
        FileNext::Done(Err(report)) => report,
        other => panic!("goes on: {other:?}"),
    };
    let no = || "no".to_string();
    let report = failure(first().removed(Removal::Failed(no())));
    assert_eq!((report.message.as_str(), report.cause), ("no", None));
    let created = || match first().removed(Removal::Removed) {
        FileNext::CreateTmp(state) => state,
        _ => panic!("not created"),
    };
    let report = failure(created().created(Err(no())));
    assert_eq!((report.message.as_str(), report.cause), ("Opening output file", Some(no())));
    let requested = || match created().created(Ok(())) {
        FileNext::Request(state) => state,
        _ => panic!("not requested"),
    };
    let copied = || match requested().served(Ok(())) {
        FileNext::CopyBody(state) => state,
        _ => panic!("not copied"),
    };
    assert_eq!(failure(copied().copied(Err(no()))).message, "no");
    let renamed = || match copied().copied(Ok(())) {
        FileNext::Rename(state) => state,
        _ => panic!("not renamed"),
    };
    assert_eq!(failure(renamed().renamed(Err(no()))).message, "no");

    let mut pauses = 0;
    let mut state = requested();
    let report = loop {
        let FileNext::Pause { secs, pause } = state.served(Err(no())) else {
            panic!("no pause")
        };
        assert_eq!(secs, 1);
        pauses += 1;
        state = match pause.resume("k") {
            FileNext::RemoveTmp(next) => match next.removed(Removal::Removed) {
                FileNext::CreateTmp(next) => match next.created(Ok(())) {
                    FileNext::Request(next) => next,
                    _ => panic!("not requested"),
                },
                _ => panic!("not created"),
            },
            FileNext::Done(Err(report)) => break report,
            other => panic!("unexpected: {other:?}"),
        };
    };
    assert_eq!(pauses, MAX_RETRIES);
    assert_eq!(report.message, "Failed to download objects with key k 20 times");
}
