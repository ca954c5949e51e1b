//! The remote storages that objects are kept on, and how a request reaches one of them.

use std::sync::Arc;
use std::time::{Duration, SystemTime};

use vstd::prelude::*;

use tokio::sync::Semaphore;

use crate::error::Report;
use crate::limit::{new_semaphore, permits_made};
use crate::remote_path::RemotePath;
use crate::text::{concat3, copy_of, decimal_string, owned};

verus! {

/// Currently, sync happens with AWS S3, that has two limits on requests per second:
/// ~200 RPS for IAM services
/// <https://docs.aws.amazon.com/AmazonRDS/latest/AuroraUserGuide/UsingWithRDS.IAMDBAuth.html>
/// ~3500 PUT/COPY/POST/DELETE or 5500 GET/HEAD S3 requests
/// <https://aws.amazon.com/premiumsupport/knowledge-center/s3-request-limit-avoid-throttling/>
pub const DEFAULT_REMOTE_STORAGE_S3_CONCURRENCY_LIMIT: usize = 100;

/// Set this limit analogously to the S3 limit
///
/// Here, a limit of max 20k concurrent connections was noted.
/// <https://learn.microsoft.com/en-us/answers/questions/1301863/is-there-any-limitation-to-concurrent-connections>
pub const DEFAULT_REMOTE_STORAGE_AZURE_CONCURRENCY_LIMIT: usize = 100;

/// No limits on the client side, which currently means 1000 for AWS S3.
/// <https://docs.aws.amazon.com/AmazonS3/latest/API/API_ListObjectsV2.html#API_ListObjectsV2_RequestSyntax>
pub const DEFAULT_MAX_KEYS_PER_LIST_RESPONSE: Option<i32> = None;

/// As defined in S3 docs
pub const MAX_KEYS_PER_DELETE: usize = 1000;

/// What separates the parts of a key.
pub const REMOTE_STORAGE_PREFIX_SEPARATOR: char = '/';

/// A point in time, which is only handed on.
#[verifier::external_type_specification]
#[verifier::external_body]
pub struct ExSystemTime(SystemTime);

// ---------------------------------------------------------------------------
// Listings
// ---------------------------------------------------------------------------

/// We don't need callers to be able to pass arbitrary delimiters: just control
/// whether listings will use a '/' separator or not.
///
/// The WithDelimiter mode will populate `prefixes` and `keys` in the result.  The
/// NoDelimiter mode will only populate `keys`.
#[derive(Debug, Clone, Copy, PartialEq, Eq, Structural)]
pub enum ListingMode {
    WithDelimiter,
    NoDelimiter,
}

/// What a listing found.
#[derive(Debug)]
pub struct Listing {
    pub prefixes: Vec<RemotePath>,
    pub keys: Vec<RemotePath>,
}

/// How many keys a listing may have: at least one.
#[derive(Debug, Clone, Copy, PartialEq, Eq, Structural)]
pub struct KeyLimit {
    keys: u32,
}

impl KeyLimit {
    #[verifier::type_invariant]
    spec fn wf(self) -> bool {
        self.keys > 0
    }

    /// The number of keys.
    pub closed spec fn spec_get(self) -> u32 {
        self.keys
    }

    /// A limit of `keys` keys, unless that is none.
    pub fn new(keys: u32) -> (r: Option<Self>)
        ensures
            r is Some <==> keys > 0,
            r matches Some(limit) ==> limit.spec_get() == keys,
    {
        if keys > 0 {
            Some(KeyLimit { keys })
        } else {
            None
        }
    }

    /// The number of keys.
    pub fn get(self) -> (r: u32)
        ensures
            r == self.spec_get(),
            r > 0,
    {
        proof {
            use_type_invariant(&self);
        }
        self.keys
    }
}

impl Default for Listing {
    fn default() -> (r: Self)
        ensures
            r.prefixes@.len() == 0,
            r.keys@.len() == 0,
    {
        Listing { prefixes: Vec::new(), keys: Vec::new() }
    }
}

// ---------------------------------------------------------------------------
// Metadata
// ---------------------------------------------------------------------------

/// Extra set of key-value pairs that contain arbitrary metadata about the storage entry.
/// Immutable, cannot be changed once the file is created.
#[derive(Debug)]
pub struct StorageMetadata {
    entries: Vec<(String, String)>,
}

/// The position of the entry with key `key`.
spec fn key_at(entries: Seq<(String, String)>, key: Seq<char>, i: int) -> bool {
    0 <= i < entries.len() && entries[i].0@ == key
}

/// The pairs of `entries` as a map; where a key stands more than once the last pair counts.
pub open spec fn pairs_map(entries: Seq<(Seq<char>, Seq<char>)>) -> Map<Seq<char>, Seq<char>>
    decreases entries.len(),
{
    if entries.len() == 0 {
        Map::empty()
    } else {
        pairs_map(entries.drop_last()).insert(entries.last().0, entries.last().1)
    }
}

/// The texts of each pair.
pub open spec fn pair_texts(entries: Seq<(String, String)>) -> Seq<(Seq<char>, Seq<char>)> {
    entries.map_values(|e: (String, String)| (e.0@, e.1@))
}

/// The texts of each pair of borrowed strings.
pub open spec fn str_pair_texts(entries: Seq<(&str, &str)>) -> Seq<(Seq<char>, Seq<char>)> {
    entries.map_values(|e: (&str, &str)| (e.0@, e.1@))
}

spec fn distinct_keys(entries: Seq<(String, String)>) -> bool {
    forall|i: int, j: int|
        0 <= i < j < entries.len() ==> (#[trigger] entries[i]).0@ != (#[trigger] entries[j]).0@
}

/// A key of the map is the key of some pair, and, with distinct keys, that pair's value.
proof fn lemma_pairs_map(entries: Seq<(String, String)>)
    requires
        distinct_keys(entries),
    ensures
        forall|i: int|
            0 <= i < entries.len() ==> {
                &&& pairs_map(pair_texts(entries)).contains_key((#[trigger] entries[i]).0@)
                &&& pairs_map(pair_texts(entries))[entries[i].0@] == entries[i].1@
            },
        forall|k: Seq<char>| #[trigger]
            pairs_map(pair_texts(entries)).contains_key(k) ==> exists|i: int| key_at(entries, k, i),
        pairs_map(pair_texts(entries)).dom().finite(),
        pairs_map(pair_texts(entries)).dom().len() == entries.len(),
    decreases entries.len(),
{
    let all = pair_texts(entries);
    if entries.len() > 0 {
        let init = entries.drop_last();
        lemma_pairs_map(init);
        assert(pair_texts(init) =~= all.drop_last());
        let last = entries.last();
        let m = pairs_map(pair_texts(init));
        assert forall|i: int| 0 <= i < entries.len() implies {
            &&& pairs_map(all).contains_key((#[trigger] entries[i]).0@)
            &&& pairs_map(all)[entries[i].0@] == entries[i].1@
        } by {
            if i < init.len() {
                assert(init[i] == entries[i]);
                assert(entries[i].0@ != entries[entries.len() - 1].0@);
            }
        }
        assert forall|k: Seq<char>| #[trigger] pairs_map(all).contains_key(k) implies exists|i: int|
            key_at(entries, k, i) by {
            if k == last.0@ {
                assert(key_at(entries, k, entries.len() - 1));
            } else {
                assert(m.contains_key(k));
                let i = choose|i: int| key_at(init, k, i);
                assert(key_at(entries, k, i));
            }
        }
        if m.contains_key(last.0@) {
            let i = choose|i: int| key_at(init, last.0@, i);
            assert(entries[i].0@ != entries[entries.len() - 1].0@);
        }
        assert(pairs_map(all).dom() =~= m.dom().insert(last.0@));
    }
}

impl View for StorageMetadata {
    type V = Map<Seq<char>, Seq<char>>;

    closed spec fn view(&self) -> Map<Seq<char>, Seq<char>> {
        pairs_map(pair_texts(self.entries@))
    }
}

impl StorageMetadata {
    /// No key stands twice.
    #[verifier::type_invariant]
    spec fn wf(self) -> bool {
        distinct_keys(self.entries@)
    }

    /// The value of `key`, if there is one.
    pub fn get(&self, key: &str) -> (r: Option<&str>)
        ensures
            r is Some <==> self@.contains_key(key@),
            r matches Some(value) ==> value@ == self@[key@],
    {
        proof {
            use_type_invariant(self);
            lemma_pairs_map(self.entries@);
        }
        match find_key(&self.entries, key) {
            Some(i) => Some(self.entries[i].1.as_str()),
            None => {
                proof {
                    if self@.contains_key(key@) {
                        let i = choose|i: int| key_at(self.entries@, key@, i);
                        assert(self.entries[i].0@ == key@);
                    }
                }
                None
            },
        }
    }

    /// The pairs, each key once.
    pub fn pairs(&self) -> (r: &Vec<(String, String)>)
        ensures
            pairs_map(pair_texts(r@)) == self@,
            r@.len() == self@.dom().len(),
    {
        proof {
            use_type_invariant(self);
            lemma_pairs_map(self.entries@);
        }
        &self.entries
    }

    fn every_pair_in(&self, other: &Self) -> (r: bool)
        ensures
            r <==> self@.submap_of(other@),
    {
        proof {
            use_type_invariant(self);
            lemma_pairs_map(self.entries@);
        }
        for i in 0..self.entries.len()
            invariant
                forall|j: int|
                    0 <= j < i ==> {
                        &&& other@.contains_key((#[trigger] self.entries[j]).0@)
                        &&& other@[self.entries[j].0@] == self.entries[j].1@
                    },
                forall|j: int|
                    0 <= j < self.entries.len() ==> {
                        &&& self@.contains_key((#[trigger] self.entries[j]).0@)
                        &&& self@[self.entries[j].0@] == self.entries[j].1@
                    },
        {
            let same = match other.get(self.entries[i].0.as_str()) {
                Some(value) => *value == *self.entries[i].1.as_str(),
                None => false,
            };
            if !same {
                assert(self@.contains_key(self.entries[i as int].0@));
                return false;
            }
        }
        assert forall|k: Seq<char>| self@.contains_key(k) implies other@.contains_key(k)
            && self@[k] == other@[k] by {
            let i = choose|i: int| key_at(self.entries@, k, i);
            assert(self.entries[i].0@ == k);
        }
        true
    }

    /// Whether both hold the same keys with the same values.
    pub fn same_pairs(&self, other: &Self) -> (r: bool)
        ensures
            r == (self@ == other@),
    {
        let r = self.every_pair_in(other) && other.every_pair_in(self);
        proof {
            if r {
                assert forall|k: Seq<char>| self@.dom().contains(k) <==> other@.dom().contains(
                    k,
                ) by {}
                assert(self@ =~= other@);
            }
        }
        r
    }
}

impl vstd::std_specs::cmp::PartialEqSpecImpl for StorageMetadata {
    open spec fn obeys_eq_spec() -> bool {
        true
    }

    open spec fn eq_spec(&self, other: &Self) -> bool {
        self@ == other@
    }
}

impl PartialEq for StorageMetadata {
    fn eq(&self, other: &Self) -> (r: bool) {
        self.same_pairs(other)
    }
}

impl Eq for StorageMetadata {

}

/// The position of `key` among the entries.
fn find_key(entries: &Vec<(String, String)>, key: &str) -> (r: Option<usize>)
    ensures
        r matches Some(i) ==> key_at(entries@, key@, i as int),
        r is None ==> forall|j: int| 0 <= j < entries.len() ==> (#[trigger] entries[j]).0@ != key@,
{
    for i in 0..entries.len()
        invariant
            forall|j: int| 0 <= j < i ==> (#[trigger] entries[j]).0@ != key@,
    {
        if *entries[i].0.as_str() == *key {
            return Some(i);
        }
    }
    None
}

proof fn lemma_overwrite(before: Seq<(String, String)>, i: int, pair: (String, String))
    requires
        distinct_keys(before),
        key_at(before, pair.0@, i),
    ensures
        distinct_keys(before.update(i, pair)),
        pairs_map(pair_texts(before.update(i, pair))) == pairs_map(pair_texts(before)).insert(
            pair.0@,
            pair.1@,
        ),
{
    let after = before.update(i, pair);
    assert forall|a: int, b: int| 0 <= a < b < after.len() implies (#[trigger] after[a]).0@ != (
    #[trigger] after[b]).0@ by {
        assert(before[a].0@ != before[b].0@);
    }
    lemma_pairs_map(before);
    lemma_pairs_map(after);
    let m = pairs_map(pair_texts(before)).insert(pair.0@, pair.1@);
    let n = pairs_map(pair_texts(after));
    assert forall|q: Seq<char>| n.contains_key(q) implies m.contains_key(q) && m[q] == n[q] by {
        let a = choose|a: int| key_at(after, q, a);
        assert(after[a].0@ == q);
        assert(before[a].0@ == q);
        if a < i {
            assert(before[a].0@ != before[i].0@);
        } else if a > i {
            assert(before[i].0@ != before[a].0@);
        }
    }
    assert forall|q: Seq<char>| m.contains_key(q) implies n.contains_key(q) by {
        if q == pair.0@ {
            assert(after[i].0@ == q);
        } else {
            assert(pairs_map(pair_texts(before)).contains_key(q));
            let a = choose|a: int| key_at(before, q, a);
            assert(after[a].0@ == q);
        }
    }
    assert(m =~= n);
}

/// Gives `key` the value `value`.
fn put_pair(entries: &mut Vec<(String, String)>, key: &str, value: &str)
    requires
        distinct_keys(old(entries)@),
    ensures
        distinct_keys(final(entries)@),
        pairs_map(pair_texts(final(entries)@)) == pairs_map(pair_texts(old(entries)@)).insert(
            key@,
            value@,
        ),
{
    let ghost before = entries@;
    let pair = (owned(key), owned(value));
    match find_key(entries, key) {
        Some(i) => {
            proof {
                lemma_overwrite(before, i as int, pair);
            }
            entries.set(i, pair);
        },
        None => {
            entries.push(pair);
            assert(pair_texts(entries@).drop_last() =~= pair_texts(before));
        },
    }
}

fn metadata_from<const N: usize>(arr: [(&str, &str); N]) -> (r: StorageMetadata)
    ensures
        r@ == pairs_map(str_pair_texts(arr@)),
{
    let mut entries: Vec<(String, String)> = Vec::new();
    assert(pair_texts(entries@) =~= Seq::empty());
    assert(str_pair_texts(arr@.take(0)) =~= Seq::empty());
    for i in 0..N
        invariant
            arr@.len() == N,
            distinct_keys(entries@),
            pairs_map(pair_texts(entries@)) == pairs_map(str_pair_texts(arr@.take(i as int))),
    {
        put_pair(&mut entries, arr[i].0, arr[i].1);
        assert(str_pair_texts(arr@.take(i + 1)).drop_last() =~= str_pair_texts(arr@.take(i as int)));
    }
    assert(arr@.take(N as int) =~= arr@);
    StorageMetadata { entries }
}

impl<const N: usize> vstd::std_specs::convert::FromSpecImpl<[(&str, &str); N]> for StorageMetadata {
    open spec fn obeys_from_spec() -> bool {
        false
    }

    open spec fn from_spec(arr: [(&str, &str); N]) -> Self {
        arbitrary()
    }
}

impl<const N: usize> From<[(&str, &str); N]> for StorageMetadata {
    fn from(arr: [(&str, &str); N]) -> (r: Self)
        ensures
            r@ == pairs_map(str_pair_texts(arr@)),
    {
        metadata_from(arr)
    }
}

impl Clone for StorageMetadata {
    fn clone(&self) -> (r: Self)
        ensures
            r@ == self@,
    {
        proof {
            use_type_invariant(self);
        }
        let mut entries: Vec<(String, String)> = Vec::new();
        for i in 0..self.entries.len()
            invariant
                entries@ == self.entries@.take(i as int),
        {
            entries.push((self.entries[i].0.clone(), self.entries[i].1.clone()));
        }
        assert(entries@ =~= self.entries@);
        StorageMetadata { entries }
    }
}

/// Where a key is given more than once the last value counts.
pub proof fn law_last_value_counts(entries: Seq<(Seq<char>, Seq<char>)>, i: int)
    requires
        0 <= i < entries.len(),
        forall|j: int| i < j < entries.len() ==> (#[trigger] entries[j]).0 != entries[i].0,
    ensures
        pairs_map(entries).contains_key(entries[i].0),
        pairs_map(entries)[entries[i].0] == entries[i].1,
    decreases entries.len(),
{
    if i < entries.len() - 1 {
        let init = entries.drop_last();
        assert(entries[entries.len() - 1].0 != entries[i].0);
        assert forall|j: int| i < j < init.len() implies (#[trigger] init[j]).0 != init[i].0 by {
            assert(entries[j].0 != entries[i].0);
        }
        law_last_value_counts(init, i);
    }
}

/// Whether some pair has this key.
pub open spec fn is_given(entries: Seq<(Seq<char>, Seq<char>)>, key: Seq<char>) -> bool {
    exists|i: int| 0 <= i < entries.len() && (#[trigger] entries[i]).0 == key
}

/// Metadata has the keys that were given, and no others.
pub proof fn law_only_given_keys(entries: Seq<(Seq<char>, Seq<char>)>, key: Seq<char>)
    ensures
        pairs_map(entries).contains_key(key) <==> is_given(entries, key),
    decreases entries.len(),
{
    if entries.len() > 0 {
        let init = entries.drop_last();
        law_only_given_keys(init, key);
        if is_given(init, key) {
            let i = choose|i: int| 0 <= i < init.len() && (#[trigger] init[i]).0 == key;
            assert(entries[i].0 == key);
        }
        if entries.last().0 == key {
            assert(entries[entries.len() - 1].0 == key);
        }
        if is_given(entries, key) && entries.last().0 != key {
            let i = choose|i: int| 0 <= i < entries.len() && (#[trigger] entries[i]).0 == key;
            assert(init[i].0 == key);
        }
    }
}

// ---------------------------------------------------------------------------
// Configuration
// ---------------------------------------------------------------------------

/// Where in AWS S3 objects are kept.
#[derive(Debug)]
pub struct S3Config {
    pub bucket_name: String,
    pub bucket_region: String,
    pub prefix_in_bucket: Option<String>,
    pub endpoint: Option<String>,
}

/// Where in Azure Blob storage objects are kept.
#[derive(Debug)]
pub struct AzureConfig {
    pub container_name: String,
    pub storage_account: Option<String>,
    pub container_region: String,
    pub prefix_in_container: Option<String>,
}

/// Which storage objects are kept on.
#[derive(Debug)]
pub enum RemoteStorageKind {
    LocalFs { local_path: String },
    AwsS3(S3Config),
    AzureContainer(AzureConfig),
}

/// A storage, and how long one of its operations may take.
#[derive(Debug)]
pub struct RemoteStorageConfig {
    pub storage: RemoteStorageKind,
    pub timeout: Duration,
}

impl Clone for S3Config {
    fn clone(&self) -> (r: Self)
        ensures
            r == *self,
    {
        S3Config {
            bucket_name: self.bucket_name.clone(),
            bucket_region: self.bucket_region.clone(),
            prefix_in_bucket: copy_of(&self.prefix_in_bucket),
            endpoint: copy_of(&self.endpoint),
        }
    }
}

impl Clone for AzureConfig {
    fn clone(&self) -> (r: Self)
        ensures
            r == *self,
    {
        AzureConfig {
            container_name: self.container_name.clone(),
            storage_account: copy_of(&self.storage_account),
            container_region: self.container_region.clone(),
            prefix_in_container: copy_of(&self.prefix_in_container),
        }
    }
}

/// The storage account to report: a placeholder stands for one that is not set.
pub open spec fn reported(account: Option<Seq<char>>) -> Seq<char> {
    match account {
        Some(account) => account,
        None => "<AZURE_STORAGE_ACCOUNT>"@,
    }
}

/// An account that is set is reported as it is, whatever it is called.
pub proof fn law_reported_account(account: Seq<char>)
    ensures
        reported(Some(account)) == account,
        reported(None) == "<AZURE_STORAGE_ACCOUNT>"@,
{
}

impl AzureConfig {
    /// The storage account to report: a placeholder stands for one that is not set.
    pub fn reported_account(&self) -> (r: &str)
        ensures
            r@ == match self.storage_account {
                Some(account) => account@,
                None => "<AZURE_STORAGE_ACCOUNT>"@,
            },
            r@ == reported(crate::error::opt_text(self.storage_account)),
    {
        match &self.storage_account {
            Some(account) => account.as_str(),
            None => "<AZURE_STORAGE_ACCOUNT>",
        }
    }
}

// ---------------------------------------------------------------------------
// Storages
// ---------------------------------------------------------------------------

/// A directory of the local file system, used as a storage.
#[derive(Debug)]
pub struct LocalFs {
    pub storage_root: String,
    pub timeout: Duration,
}

/// An AWS S3 bucket, used as a storage.
#[derive(Debug)]
pub struct S3Bucket {
    pub config: S3Config,
    pub timeout: Duration,
}

/// An Azure Blob container, used as a storage.
#[derive(Debug)]
pub struct AzureBlobStorage {
    pub config: AzureConfig,
    pub timeout: Duration,
}

/// A storage whose first attempts at each operation are made to fail.
#[derive(Debug)]
pub struct UnreliableWrapper {
    /// Always present: the `Option` gives the recursive type a value to start from.
    inner: Option<GenericRemoteStorage>,
    attempts_to_fail: u64,
}

impl UnreliableWrapper {
    #[verifier::type_invariant]
    spec fn wf(self) -> bool {
        self.inner is Some
    }

    /// The storage behind the failures.
    pub closed spec fn spec_inner(self) -> GenericRemoteStorage {
        self.inner->0
    }

    /// How many attempts fail.
    pub closed spec fn spec_attempts_to_fail(self) -> u64 {
        self.attempts_to_fail
    }

    /// `inner`, with its first `attempts_to_fail` attempts failing.
    pub fn new(inner: GenericRemoteStorage, attempts_to_fail: u64) -> (r: Self)
        ensures
            r.spec_inner() == inner,
            r.spec_attempts_to_fail() == attempts_to_fail,
    {
        UnreliableWrapper { inner: Some(inner), attempts_to_fail }
    }

    /// The storage behind the failures.
    pub fn inner(&self) -> (r: &GenericRemoteStorage)
        ensures
            *r == self.spec_inner(),
    {
        proof {
            use_type_invariant(self);
        }
        self.inner.as_ref().unwrap()
    }

    /// How many attempts fail.
    pub fn attempts_to_fail(&self) -> (r: u64)
        ensures
            r == self.spec_attempts_to_fail(),
    {
        self.attempts_to_fail
    }
}

/// Every storage, currently supported.
/// Serves as a simple way to pass around a remote storage without dealing with generics.
#[derive(Debug)]
pub enum GenericRemoteStorage<Other = Arc<UnreliableWrapper>> {
    LocalFs(LocalFs),
    AwsS3(Arc<S3Bucket>),
    AzureBlob(Arc<AzureBlobStorage>),
    Unreliable(Other),
}

impl Clone for LocalFs {
    fn clone(&self) -> (r: Self)
        ensures
            r == *self,
    {
        LocalFs { storage_root: self.storage_root.clone(), timeout: self.timeout }
    }
}

impl<Other: Clone> Clone for GenericRemoteStorage<Other> {
    fn clone(&self) -> (r: Self)
        ensures
            match *self {
                GenericRemoteStorage::Unreliable(other) => r is Unreliable && cloned(
                    other,
                    r->Unreliable_0,
                ),
                _ => r == *self,
            },
    {
        match self {
            GenericRemoteStorage::LocalFs(s) => GenericRemoteStorage::LocalFs(s.clone()),
            GenericRemoteStorage::AwsS3(s) => GenericRemoteStorage::AwsS3(s.clone()),
            GenericRemoteStorage::AzureBlob(s) => GenericRemoteStorage::AzureBlob(s.clone()),
            GenericRemoteStorage::Unreliable(s) => GenericRemoteStorage::Unreliable(s.clone()),
        }
    }
}

/// The storage that a request goes to.
#[derive(Debug)]
pub enum Backend<'a, Other> {
    LocalFs(&'a LocalFs),
    AwsS3(&'a Arc<S3Bucket>),
    AzureBlob(&'a Arc<AzureBlobStorage>),
    Unreliable(&'a Other),
}

/// An operation of a storage, with its arguments.
pub enum StorageRequest<'a> {
    List { prefix: Option<&'a RemotePath>, mode: ListingMode, max_keys: Option<KeyLimit> },
    Upload { data_size_bytes: usize, to: &'a RemotePath, metadata: Option<StorageMetadata> },
    Download { from: &'a RemotePath },
    DownloadByteRange { from: &'a RemotePath, start_inclusive: u64, end_exclusive: Option<u64> },
    Delete { path: &'a RemotePath },
    DeleteObjects { paths: &'a Vec<RemotePath> },
    Copy { from: &'a RemotePath, to: &'a RemotePath },
    TimeTravelRecover {
        prefix: Option<&'a RemotePath>,
        timestamp: SystemTime,
        done_if_after: SystemTime,
    },
}

/// A request on its way to a storage.
pub struct RoutedRequest<'a, Other> {
    pub backend: Backend<'a, Other>,
    pub request: StorageRequest<'a>,
}

impl<Other> GenericRemoteStorage<Other> {
    /// Whether `backend` is the storage that this value holds.
    pub open spec fn is_served_by(self, backend: Backend<Other>) -> bool {
        match (self, backend) {
            (GenericRemoteStorage::LocalFs(a), Backend::LocalFs(b)) => a == *b,
            (GenericRemoteStorage::AwsS3(a), Backend::AwsS3(b)) => a == *b,
            (GenericRemoteStorage::AzureBlob(a), Backend::AzureBlob(b)) => a == *b,
            (GenericRemoteStorage::Unreliable(a), Backend::Unreliable(b)) => a == *b,
            _ => false,
        }
    }

    /// The storage that this value holds.
    pub fn backend(&self) -> (r: Backend<'_, Other>)
        ensures
            self.is_served_by(r),
    {
        match self {
            GenericRemoteStorage::LocalFs(s) => Backend::LocalFs(s),
            GenericRemoteStorage::AwsS3(s) => Backend::AwsS3(s),
            GenericRemoteStorage::AzureBlob(s) => Backend::AzureBlob(s),
            GenericRemoteStorage::Unreliable(s) => Backend::Unreliable(s),
        }
    }

    /// Lists what is under `prefix`, at most `max_keys` keys.
    pub fn list<'a>(
        &'a self,
        prefix: Option<&'a RemotePath>,
        mode: ListingMode,
        max_keys: Option<KeyLimit>,
    ) -> (r: RoutedRequest<'a, Other>)
        ensures
            self.is_served_by(r.backend),
            r.request == (StorageRequest::List { prefix, mode, max_keys }),
    {
        RoutedRequest {
            backend: self.backend(),
            request: StorageRequest::List { prefix, mode, max_keys },
        }
    }

    /// Stores `data_size_bytes` bytes as `to`.
    pub fn upload<'a>(
        &'a self,
        data_size_bytes: usize,
        to: &'a RemotePath,
        metadata: Option<StorageMetadata>,
    ) -> (r: RoutedRequest<'a, Other>)
        ensures
            self.is_served_by(r.backend),
            r.request == (StorageRequest::Upload { data_size_bytes, to, metadata }),
    {
        RoutedRequest {
            backend: self.backend(),
            request: StorageRequest::Upload { data_size_bytes, to, metadata },
        }
    }

    /// Reads the object `from`.
    pub fn download<'a>(&'a self, from: &'a RemotePath) -> (r: RoutedRequest<'a, Other>)
        ensures
            self.is_served_by(r.backend),
            r.request == (StorageRequest::Download { from }),
    {
        RoutedRequest { backend: self.backend(), request: StorageRequest::Download { from } }
    }

    /// Reads a range of the bytes of the object `from`.
    pub fn download_byte_range<'a>(
        &'a self,
        from: &'a RemotePath,
        start_inclusive: u64,
        end_exclusive: Option<u64>,
    ) -> (r: RoutedRequest<'a, Other>)
        ensures
            self.is_served_by(r.backend),
            r.request == (StorageRequest::DownloadByteRange {
                from,
                start_inclusive,
                end_exclusive,
            }),
    {
        RoutedRequest {
            backend: self.backend(),
            request: StorageRequest::DownloadByteRange { from, start_inclusive, end_exclusive },
        }
    }

    /// Deletes the object `path`.
    pub fn delete<'a>(&'a self, path: &'a RemotePath) -> (r: RoutedRequest<'a, Other>)
        ensures
            self.is_served_by(r.backend),
            r.request == (StorageRequest::Delete { path }),
    {
        RoutedRequest { backend: self.backend(), request: StorageRequest::Delete { path } }
    }

    /// Deletes the objects `paths`.
    pub fn delete_objects<'a>(&'a self, paths: &'a Vec<RemotePath>) -> (r: RoutedRequest<'a, Other>)
        ensures
            self.is_served_by(r.backend),
            r.request == (StorageRequest::DeleteObjects { paths }),
    {
        RoutedRequest { backend: self.backend(), request: StorageRequest::DeleteObjects { paths } }
    }

    /// Copies the object `from` to `to`.
    pub fn copy_object<'a>(
        &'a self,
        from: &'a RemotePath,
        to: &'a RemotePath,
    ) -> (r: RoutedRequest<'a, Other>)
        ensures
            self.is_served_by(r.backend),
            r.request == (StorageRequest::Copy { from, to }),
    {
        RoutedRequest { backend: self.backend(), request: StorageRequest::Copy { from, to } }
    }

    /// Resets everything under `prefix` to what it was at `timestamp`.
    pub fn time_travel_recover<'a>(
        &'a self,
        prefix: Option<&'a RemotePath>,
        timestamp: SystemTime,
        done_if_after: SystemTime,
    ) -> (r: RoutedRequest<'a, Other>)
        ensures
            self.is_served_by(r.backend),
            r.request == (StorageRequest::TimeTravelRecover { prefix, timestamp, done_if_after }),
    {
        RoutedRequest {
            backend: self.backend(),
            request: StorageRequest::TimeTravelRecover { prefix, timestamp, done_if_after },
        }
    }
}

impl GenericRemoteStorage {
    /// The storage that a configuration asks for.
    pub open spec fn configured(storage_config: RemoteStorageConfig) -> Self {
        let timeout = storage_config.timeout;
        match storage_config.storage {
            RemoteStorageKind::LocalFs { local_path } => Self::LocalFs(
                LocalFs { storage_root: local_path, timeout },
            ),
            RemoteStorageKind::AwsS3(config) => Self::AwsS3(Arc::new(S3Bucket { config, timeout })),
            RemoteStorageKind::AzureContainer(config) => Self::AzureBlob(
                Arc::new(AzureBlobStorage { config, timeout }),
            ),
        }
    }

    /// The storage that a configuration asks for, if it could be opened.
    pub fn from_config(storage_config: &RemoteStorageConfig, opened: Result<(), Report>) -> (r:
        Result<Self, Report>)
        ensures
            r == match opened {
                Ok(_) => Ok(Self::configured(*storage_config)),
                Err(e) => Err(e),
            },
    {
        if let Err(e) = opened {
            return Err(e);
        }
        let timeout = storage_config.timeout;
        Ok(
            match &storage_config.storage {
                RemoteStorageKind::LocalFs { local_path: path } => GenericRemoteStorage::LocalFs(
                    LocalFs { storage_root: path.clone(), timeout },
                ),
                RemoteStorageKind::AwsS3(s3_config) => GenericRemoteStorage::AwsS3(
                    Arc::new(S3Bucket { config: s3_config.clone(), timeout }),
                ),
                RemoteStorageKind::AzureContainer(azure_config) => GenericRemoteStorage::AzureBlob(
                    Arc::new(AzureBlobStorage { config: azure_config.clone(), timeout }),
                ),
            },
        )
    }

    /// `s`, with its first `fail_first` attempts failing.
    pub fn unreliable_wrapper(s: Self, fail_first: u64) -> (r: Self)
        ensures
            r matches GenericRemoteStorage::Unreliable(w) && w.spec_inner() == s
                && w.spec_attempts_to_fail() == fail_first,
    {
        GenericRemoteStorage::Unreliable(Arc::new(UnreliableWrapper::new(s, fail_first)))
    }

    /// Stores `from_size_bytes` bytes as `to`, without metadata.
    pub fn upload_storage_object<'a>(
        &'a self,
        from_size_bytes: usize,
        to: &'a RemotePath,
    ) -> (r: RoutedRequest<'a, Arc<UnreliableWrapper>>)
        ensures
            self.is_served_by(r.backend),
            r.request == (StorageRequest::Upload {
                data_size_bytes: from_size_bytes,
                to,
                metadata: None,
            }),
    {
        self.upload(from_size_bytes, to, None)
    }

    /// Reads the storage object `from`.
    /// `byte_range` could be specified to download only a part of the file, if needed.
    pub fn download_storage_object<'a>(
        &'a self,
        byte_range: Option<(u64, Option<u64>)>,
        from: &'a RemotePath,
    ) -> (r: RoutedRequest<'a, Arc<UnreliableWrapper>>)
        ensures
            self.is_served_by(r.backend),
            r.request == match byte_range {
                Some((start, end)) => StorageRequest::DownloadByteRange {
                    from,
                    start_inclusive: start,
                    end_exclusive: end,
                },
                None => StorageRequest::Download { from },
            },
            r.request == range_request(byte_range, from),
    {
        match byte_range {
            Some((start, end)) => self.download_byte_range(from, start, end),
            None => self.download(from),
        }
    }
}

/// The request for an object, or for a part of it.
pub open spec fn range_request<'a>(
    byte_range: Option<(u64, Option<u64>)>,
    from: &'a RemotePath,
) -> StorageRequest<'a> {
    match byte_range {
        Some((start, end)) => StorageRequest::DownloadByteRange {
            from,
            start_inclusive: start,
            end_exclusive: end,
        },
        None => StorageRequest::Download { from },
    }
}

/// A part is asked for exactly where one is given, from the very byte and up to the very byte
/// that were given; and it is a part of the object that was named.
pub proof fn law_byte_ranges(
    byte_range: Option<(u64, Option<u64>)>,
    from: &RemotePath,
    start: u64,
    end: Option<u64>,
)
    ensures
        byte_range is None <==> range_request(byte_range, from) is Download,
        byte_range is Some <==> range_request(byte_range, from) is DownloadByteRange,
        range_request(None, from)->Download_from == from,
        range_request(Some((start, end)), from)->DownloadByteRange_from == from,
        range_request(Some((start, end)), from)->start_inclusive == start,
        range_request(Some((start, end)), from)->end_exclusive == end,
{
}

/// What is said of an upload that failed, with the path written as `path`.
pub open spec fn upload_failure_text(size: int, path: Seq<char>) -> Seq<char> {
    "Failed to upload data of length "@ + crate::text::decimal_text(size) + " to storage path "@ + (
    "RemotePath("@ + path + ")"@)
}

/// What is said of an upload that failed gives the number of its bytes, in digits that read back
/// as that number, and its path.
pub proof fn law_upload_failure_text(size: int, path: Seq<char>)
    requires
        0 <= size,
    ensures
        exists|digits: Seq<char>|
            {
                &&& crate::text::all_digits(digits, 10)
                &&& #[trigger] crate::text::number_of(digits, 10) == size
                &&& upload_failure_text(size, path) == "Failed to upload data of length "@ + digits
                    + " to storage path RemotePath("@ + path + ")"@
            },
{
    reveal_strlit(" to storage path ");
    reveal_strlit("RemotePath(");
    reveal_strlit(" to storage path RemotePath(");
    let digits = crate::text::decimal_text(size);
    crate::text::law_decimal_text_reads_back(size);
    assert(crate::text::number_of(digits, 10) == size);
    assert(upload_failure_text(size, path) =~= "Failed to upload data of length "@ + digits
        + " to storage path RemotePath("@ + path + ")"@);
}

/// What is said of an upload that failed.
pub fn upload_failure(from_size_bytes: usize, to: &RemotePath) -> (r: String)
    ensures
        r@ == "Failed to upload data of length "@ + crate::text::decimal_text(
            from_size_bytes as int,
        ) + " to storage path "@ + ("RemotePath("@ + crate::remote_path::quoted(to@) + ")"@),
        crate::text::is_unescaped(to@) ==> r@ == "Failed to upload data of length "@
            + crate::text::decimal_text(from_size_bytes as int) + " to storage path "@ + (
        "RemotePath("@ + crate::text::in_quotes(to@) + ")"@),
        r@ == upload_failure_text(from_size_bytes as int, crate::remote_path::quoted(to@)),
{
    let size = decimal_string(from_size_bytes as u64);
    let head = concat3("Failed to upload data of length ", size.as_str(), " to storage path ");
    let path = to.to_debug_string();
    let r = concat3(head.as_str(), path.as_str(), "");
    proof {
        reveal_strlit("");
        assert(r@ =~= head@ + path@);
    }
    r
}

// ---------------------------------------------------------------------------
// Limiting how many requests run at once
// ---------------------------------------------------------------------------

/// What a request does.
#[derive(Debug, Clone, Copy, PartialEq, Eq, Structural)]
pub enum RequestKind {
    Get,
    Put,
    Delete,
    List,
    Copy,
    TimeTravel,
}

/// Every request to S3 can be throttled or cancelled, if a certain number of requests per
/// second is exceeded. Same goes to IAM, which is queried before every S3 request, if
/// enabled. IAM has even lower RPS threshold. This helps to ensure we don't exceed the
/// thresholds.
#[derive(Debug)]
pub struct ConcurrencyLimiter {
    pub write: Arc<Semaphore>,
    pub read: Arc<Semaphore>,
}

/// Whether a request only reads.
pub open spec fn only_reads(kind: RequestKind) -> bool {
    kind == RequestKind::Get || kind == RequestKind::List
}

impl ConcurrencyLimiter {
    /// The semaphore that requests of this kind share.
    pub open spec fn spec_for_kind(self, kind: RequestKind) -> Arc<Semaphore> {
        if only_reads(kind) {
            self.read
        } else {
            self.write
        }
    }

    /// Whether reads and writes have semaphores of their own, with `limit` permits each.
    pub open spec fn is_apart(self, limit: usize) -> bool {
        &&& permits_made(*self.read) == limit
        &&& permits_made(*self.write) == limit
        &&& *self.read != *self.write
    }

    /// The semaphore that requests of this kind share.
    pub fn for_kind(&self, kind: RequestKind) -> (r: &Arc<Semaphore>)
        ensures
            *r == self.spec_for_kind(kind),
    {
        match kind {
            RequestKind::Get => &self.read,
            RequestKind::Put => &self.write,
            RequestKind::List => &self.read,
            RequestKind::Delete => &self.write,
            RequestKind::Copy => &self.write,
            RequestKind::TimeTravel => &self.write,
        }
    }

    /// At most `limit` reads and `limit` writes at once; neither use up what the others may.
    pub fn new(limit: usize) -> (r: ConcurrencyLimiter)
        requires
            limit <= usize::MAX / 8,
        ensures
            r.is_apart(limit),
    {
        let read = new_semaphore(limit, None);
        let write = new_semaphore(limit, Some(&read));
        ConcurrencyLimiter { read: Arc::new(read), write: Arc::new(write) }
    }
}

/// Of a limiter that `ConcurrencyLimiter::new` makes, two requests share a semaphore exactly if
/// both only read or neither does, so reads never use up the permits of writes; and whatever a
/// request does, its semaphore has `limit` permits.
pub proof fn law_reads_and_writes_apart(
    limiter: ConcurrencyLimiter,
    limit: usize,
    a: RequestKind,
    b: RequestKind,
)
    requires
        limiter.is_apart(limit),
    ensures
        *limiter.spec_for_kind(a) == *limiter.spec_for_kind(b) <==> only_reads(a) == only_reads(b),
        permits_made(*limiter.spec_for_kind(a)) == limit,
{
}

/// Only getting and listing are reads.
pub proof fn law_only_reads(kind: RequestKind)
    ensures
        only_reads(kind) <==> kind is Get || kind is List,
        !only_reads(kind) <==> kind is Put || kind is Delete || kind is Copy || kind is TimeTravel,
{
}

/// A request goes to the storage that is held, and to no other.
pub proof fn law_requests_go_to_the_held_storage<Other>(
    storage: GenericRemoteStorage<Other>,
    backend: Backend<Other>,
)
    ensures
        storage.is_served_by(backend) ==> {
            &&& storage is LocalFs <==> backend is LocalFs
            &&& storage is AwsS3 <==> backend is AwsS3
            &&& storage is AzureBlob <==> backend is AzureBlob
            &&& storage is Unreliable <==> backend is Unreliable
            &&& storage is LocalFs ==> storage->LocalFs_0 == *backend->LocalFs_0
            &&& storage is AwsS3 ==> storage->AwsS3_0 == *backend->AwsS3_0
            &&& storage is AzureBlob ==> storage->AzureBlob_0 == *backend->AzureBlob_0
            &&& storage is Unreliable ==> storage->Unreliable_0 == *backend->Unreliable_0
        },
        storage is LocalFs && backend is LocalFs && storage->LocalFs_0 == *backend->LocalFs_0
            ==> storage.is_served_by(backend),
{
}

/// The storage is the one that is configured, with its timeout: a directory is used as the local
/// storage, and buckets and containers as they are described.
pub proof fn law_configured(config: RemoteStorageConfig)
    ensures
        config.storage matches RemoteStorageKind::LocalFs { local_path } ==> (
        GenericRemoteStorage::configured(config) matches GenericRemoteStorage::LocalFs(fs)
            && fs.storage_root == local_path && fs.timeout == config.timeout),
        config.storage matches RemoteStorageKind::AwsS3(s3) ==> (GenericRemoteStorage::configured(
            config,
        ) matches GenericRemoteStorage::AwsS3(bucket) && bucket.config == s3 && bucket.timeout
            == config.timeout),
        config.storage matches RemoteStorageKind::AzureContainer(azure) ==> (
        GenericRemoteStorage::configured(config) matches GenericRemoteStorage::AzureBlob(blob)
            && blob.config == azure && blob.timeout == config.timeout),
        DEFAULT_REMOTE_STORAGE_S3_CONCURRENCY_LIMIT == 100,
        DEFAULT_REMOTE_STORAGE_AZURE_CONCURRENCY_LIMIT == 100,
        MAX_KEYS_PER_DELETE == 1000,
        DEFAULT_MAX_KEYS_PER_LIST_RESPONSE == None::<i32>,
{
}

} // verus!
