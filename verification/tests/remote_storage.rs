use std::sync::Arc;
use std::time::{Duration, SystemTime};

use neon_storage::error::Report;
use neon_storage::remote_path::RemotePath;
use neon_storage::remote_storage::{
    upload_failure, AzureConfig, Backend, ConcurrencyLimiter, GenericRemoteStorage, KeyLimit,
    Listing, ListingMode, RemoteStorageConfig, RemoteStorageKind, RequestKind, S3Config, StorageMetadata,
    StorageRequest, DEFAULT_MAX_KEYS_PER_LIST_RESPONSE,
    DEFAULT_REMOTE_STORAGE_AZURE_CONCURRENCY_LIMIT, DEFAULT_REMOTE_STORAGE_S3_CONCURRENCY_LIMIT,
    MAX_KEYS_PER_DELETE,
};

fn path(text: &str) -> RemotePath {
    RemotePath::from_string(text).unwrap()
}

fn local() -> GenericRemoteStorage {
    let config = RemoteStorageConfig {
        storage: RemoteStorageKind::LocalFs {
            local_path: "/data".to_string(),
        },
        timeout: Duration::from_secs(120),
    };
    GenericRemoteStorage::from_config(&config, Ok(())).unwrap()
}

fn s3() -> GenericRemoteStorage {
    let config = RemoteStorageConfig {
        storage: RemoteStorageKind::AwsS3(S3Config {
            bucket_name: "b".to_string(),
            bucket_region: "r".to_string(),
            prefix_in_bucket: None,
            endpoint: Some("e".to_string()),
        }),
        timeout: Duration::from_secs(1),
    };
    GenericRemoteStorage::from_config(&config, Ok(())).unwrap()
}

fn azure(account: Option<&str>) -> GenericRemoteStorage {
    let config = RemoteStorageConfig {
        storage: RemoteStorageKind::AzureContainer(AzureConfig {
            container_name: "c".to_string(),
            storage_account: account.map(str::to_string),
            container_region: "r".to_string(),
            prefix_in_container: Some("p".to_string()),
        }),
        timeout: Duration::from_secs(2),
    };
    GenericRemoteStorage::from_config(&config, Ok(())).unwrap()
}

#[test]
fn limits_of_the_stores() {
    assert_eq!(DEFAULT_REMOTE_STORAGE_S3_CONCURRENCY_LIMIT, 100);
    assert_eq!(DEFAULT_REMOTE_STORAGE_AZURE_CONCURRENCY_LIMIT, 100);
    assert_eq!(DEFAULT_MAX_KEYS_PER_LIST_RESPONSE, None);
    assert_eq!(MAX_KEYS_PER_DELETE, 1000);
}

#[test]
fn a_listing_is_empty_by_default() {
    let listing = Listing::default();
    assert!(listing.prefixes.is_empty());
    assert!(listing.keys.is_empty());
}

#[test]
fn metadata_holds_the_last_value_of_each_key() {
    let m = StorageMetadata::from([("a", "1"), ("b", "2"), ("a", "3")]);
    assert_eq!(m.get("a"), Some("3"));
    assert_eq!(m.get("b"), Some("2"));
    assert_eq!(m.get("c"), None);
    assert_eq!(m.pairs().len(), 2);
}

#[test]
fn metadata_is_compared_without_order() {
    let m = StorageMetadata::from([("a", "1"), ("b", "2")]);
    let n = StorageMetadata::from([("b", "2"), ("a", "1")]);
    assert!(m == n);
    assert!(m.clone() == m);
    assert!(m != StorageMetadata::from([("a", "1")]));
    assert!(m != StorageMetadata::from([("a", "1"), ("b", "3")]));
    let none: [(&str, &str); 0] = [];
    assert!(StorageMetadata::from(none) != m);
}

#[test]
fn configurations_choose_the_storage() {
    match local() {
        GenericRemoteStorage::LocalFs(fs) => {
            assert_eq!(fs.storage_root, "/data");
            assert_eq!(fs.timeout, Duration::from_secs(120));
        }
        _ => panic!("not the local file system"),
    }
    match s3() {
        GenericRemoteStorage::AwsS3(bucket) => {
            assert_eq!(bucket.config.bucket_name, "b");
            assert_eq!(bucket.config.endpoint, Some("e".to_string()));
            assert_eq!(bucket.timeout, Duration::from_secs(1));
        }
        _ => panic!("not S3"),
    }
    match azure(Some("acc")) {
        GenericRemoteStorage::AzureBlob(blob) => {
            assert_eq!(blob.config.container_name, "c");
            assert_eq!(blob.config.reported_account(), "acc");
        }
        _ => panic!("not Azure"),
    }
    match azure(None) {
        GenericRemoteStorage::AzureBlob(blob) => {
            assert_eq!(blob.config.reported_account(), "<AZURE_STORAGE_ACCOUNT>");
        }
        _ => panic!("not Azure"),
    }
}

#[test]
fn an_unreliable_storage_wraps_another() {
    match GenericRemoteStorage::unreliable_wrapper(local(), 3) {
        GenericRemoteStorage::Unreliable(wrapper) => {
            assert_eq!(wrapper.attempts_to_fail(), 3);
            assert!(matches!(wrapper.inner(), GenericRemoteStorage::LocalFs(_)));
        }
        _ => panic!("not unreliable"),
    }
}

#[test]
fn clones_are_the_same_storage() {
    match (s3(), local()) {
        (GenericRemoteStorage::AwsS3(bucket), GenericRemoteStorage::LocalFs(fs)) => {
            let again: GenericRemoteStorage = GenericRemoteStorage::AwsS3(bucket.clone()).clone();
            match again {
                GenericRemoteStorage::AwsS3(other) => assert!(Arc::ptr_eq(&bucket, &other)),
                _ => panic!("not S3"),
            }
            assert_eq!(fs.clone().storage_root, "/data");
        }
        _ => panic!("not the configured storages"),
    }
    let other: GenericRemoteStorage<u8> = GenericRemoteStorage::Unreliable(7);
    assert!(matches!(other.clone(), GenericRemoteStorage::Unreliable(7)));
}

#[test]
fn requests_go_to_the_storage_that_is_held() {
    let p = path("a/b");
    assert!(matches!(local().delete(&p).backend, Backend::LocalFs(_)));
    assert!(matches!(s3().delete(&p).backend, Backend::AwsS3(_)));
    assert!(matches!(azure(None).delete(&p).backend, Backend::AzureBlob(_)));
    let unreliable = GenericRemoteStorage::unreliable_wrapper(s3(), 1);
    assert!(matches!(unreliable.delete(&p).backend, Backend::Unreliable(_)));
    let other: GenericRemoteStorage<u8> = GenericRemoteStorage::Unreliable(7);
    assert!(matches!(other.delete(&p).backend, Backend::Unreliable(7)));
}

#[test]
fn requests_carry_their_arguments() {
    let storage = s3();
    let p = path("a/b");
    let q = path("c");
    match storage.list(Some(&p), ListingMode::WithDelimiter, KeyLimit::new(5)).request {
        StorageRequest::List { prefix, mode, max_keys } => {
            assert_eq!(prefix.unwrap().get_path(), "a/b");
            assert!(matches!(mode, ListingMode::WithDelimiter));
            assert_eq!(max_keys.unwrap().get(), 5);
        }
        _ => panic!("not a listing"),
    }
    let metadata = StorageMetadata::from([("k", "v")]);
    match storage.upload(11, &p, Some(metadata)).request {
        StorageRequest::Upload { data_size_bytes, to, metadata } => {
            assert_eq!(data_size_bytes, 11);
            assert_eq!(to.get_path(), "a/b");
            assert_eq!(metadata.unwrap().get("k"), Some("v"));
        }
        _ => panic!("not an upload"),
    }
    match storage.copy_object(&p, &q).request {
        StorageRequest::Copy { from, to } => {
            assert_eq!(from.get_path(), "a/b");
            assert_eq!(to.get_path(), "c");
        }
        _ => panic!("not a copy"),
    }
    let paths = vec![path("a"), path("b")];
    match storage.delete_objects(&paths).request {
        StorageRequest::DeleteObjects { paths } => assert_eq!(paths.len(), 2),
        _ => panic!("not a deletion"),
    }
    let then = SystemTime::UNIX_EPOCH;
    let now = then + Duration::from_secs(9);
    match storage.time_travel_recover(None, then, now).request {
        StorageRequest::TimeTravelRecover { prefix, timestamp, done_if_after } => {
            assert!(prefix.is_none());
            assert_eq!(timestamp, then);
            assert_eq!(done_if_after, now);
        }
        _ => panic!("not time travel"),
    }
}

#[test]
fn storage_objects_are_uploaded_without_metadata() {
    let p = path("a");
    let storage = local();
    match storage.upload_storage_object(4, &p).request {
        StorageRequest::Upload { data_size_bytes, metadata, .. } => {
            assert_eq!(data_size_bytes, 4);
            assert!(metadata.is_none());
        }
        _ => panic!("not an upload"),
    }
    assert_eq!(
        upload_failure(4096, &p),
        "Failed to upload data of length 4096 to storage path RemotePath(\"a\")"
    );
    assert_eq!(
        upload_failure(0, &p),
        "Failed to upload data of length 0 to storage path RemotePath(\"a\")"
    );
}

#[test]
fn byte_ranges_are_asked_for_where_given() {
    let p = path("a");
    let storage = local();
    assert!(matches!(
        storage.download_storage_object(None, &p).request,
        StorageRequest::Download { .. }
    ));
    assert!(matches!(
        storage.download_storage_object(Some((3, Some(8))), &p).request,
        StorageRequest::DownloadByteRange { start_inclusive: 3, end_exclusive: Some(8), .. }
    ));
    assert!(matches!(
        storage.download_storage_object(Some((3, None)), &p).request,
        StorageRequest::DownloadByteRange { start_inclusive: 3, end_exclusive: None, .. }
    ));
}

#[test]
fn reads_and_writes_are_limited_apart() {
    let limiter = ConcurrencyLimiter::new(7);
    assert!(!Arc::ptr_eq(&limiter.read, &limiter.write));
    let _permit = limiter.read.try_acquire().unwrap();
    assert_eq!(limiter.read.available_permits(), 6);
    assert_eq!(limiter.write.available_permits(), 7);
    for kind in [RequestKind::Get, RequestKind::List] {
        assert!(Arc::ptr_eq(limiter.for_kind(kind), &limiter.read));
    }
    for kind in [
        RequestKind::Put,
        RequestKind::Delete,
        RequestKind::Copy,
        RequestKind::TimeTravel,
    ] {
        assert!(Arc::ptr_eq(limiter.for_kind(kind), &limiter.write));
    }
}

#[test]
fn limits_of_keys_are_never_zero() {
    assert!(KeyLimit::new(0).is_none());
    assert_eq!(KeyLimit::new(1).unwrap().get(), 1);
    assert_eq!(KeyLimit::new(u32::MAX).unwrap().get(), u32::MAX);
}

#[test]
fn a_storage_that_cannot_be_opened_is_an_error() {
    let config = RemoteStorageConfig {
        storage: RemoteStorageKind::LocalFs {
            local_path: "/data".to_string(),
        },
        timeout: Duration::from_secs(1),
    };
    let why = Report {
        message: "no such directory".to_string(),
        cause: Some("/data".to_string()),
    };
    let opened: Result<GenericRemoteStorage, Report> =
        GenericRemoteStorage::from_config(&config, Err(why));
    match opened {
        Err(e) => {
            assert_eq!(e.message, "no such directory");
            assert_eq!(e.cause, Some("/data".to_string()));
        }
        Ok(_) => panic!("opened all the same"),
    }
}
