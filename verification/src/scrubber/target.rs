//! Where in a bucket tenants and timelines are kept.

use vstd::prelude::*;

use crate::ids::{TenantId, TenantShardId, TenantTimelineId, TimelineId};
use crate::remote_path::RemotePath;
use crate::text::{concat2, concat3, ends_with_char, has_last_char, owned, without_last_char};

verus! {

/// The directory of a pageserver's prefix that holds the tenants.
pub const TENANTS_SEGMENT_NAME: &'static str = "tenants";

/// The directory of a tenant that holds its timelines.
pub const TIMELINES_SEGMENT_NAME: &'static str = "timelines";

/// A prefix in a bucket.
#[derive(Debug)]
pub struct S3Target {
    pub bucket_name: String,
    /// This `prefix_in_bucket` is only equal to the PS/SK config of the same
    /// name for the RootTarget: other instances of S3Target will have prefix_in_bucket
    /// with extra parts.
    pub prefix_in_bucket: String,
    pub delimiter: String,
}

/// Convenience for referring to timelines within a particular shard: more ergonomic
/// than using a 2-tuple.
///
/// This is the shard-aware equivalent of TenantTimelineId.  It's defined here rather
/// than somewhere more broadly exposed, because this kind of thing is rarely needed
/// in the pageserver, as all timeline objects existing in the scope of a particular
/// tenant: the scrubber is different in that it handles collections of data referring to many
/// TenantShardTimelineIds in one place.
#[derive(Debug, Clone, Copy, Hash, PartialEq, Eq, Structural, PartialOrd, Ord)]
pub struct TenantShardTimelineId {
    pub tenant_shard_id: TenantShardId,
    pub timeline_id: TimelineId,
}

impl TenantShardTimelineId {
    /// How this is written: shard and timeline, with a slash between them.
    pub open spec fn text(self) -> Seq<char> {
        self.tenant_shard_id.text() + "/"@ + self.timeline_id.text()
    }

    /// The timeline `timeline_id` of the shard `tenant_shard_id`.
    pub fn new(tenant_shard_id: TenantShardId, timeline_id: TimelineId) -> (r: Self)
        ensures
            r.tenant_shard_id == tenant_shard_id,
            r.timeline_id == timeline_id,
    {
        TenantShardTimelineId { tenant_shard_id, timeline_id }
    }

    /// The same timeline, whatever the shard.
    pub fn as_tenant_timeline_id(&self) -> (r: TenantTimelineId)
        ensures
            r.tenant_id == self.tenant_shard_id.tenant_id,
            r.timeline_id == self.timeline_id,
    {
        TenantTimelineId {
            tenant_id: self.tenant_shard_id.tenant_id,
            timeline_id: self.timeline_id,
        }
    }

    /// Writes shard and timeline.
    pub fn to_string(&self) -> (r: String)
        ensures
            r@ == self.text(),
    {
        let shard = self.tenant_shard_id.to_string();
        let timeline = self.timeline_id.to_string();
        concat3(shard.as_str(), "/", timeline.as_str())
    }
}

/// How deep a bucket is walked.
#[derive(Debug, Clone, Copy, PartialEq, Eq, Structural)]
pub enum TraversingDepth {
    Tenant,
    Timeline,
}

impl TraversingDepth {
    /// How this is written.
    pub open spec fn text(self) -> Seq<char> {
        match self {
            TraversingDepth::Tenant => "tenant"@,
            TraversingDepth::Timeline => "timeline"@,
        }
    }

    /// Writes the depth.
    pub fn to_string(&self) -> (r: String)
        ensures
            r@ == self.text(),
    {
        match self {
            TraversingDepth::Tenant => owned("tenant"),
            TraversingDepth::Timeline => owned("timeline"),
        }
    }
}

/// What kind of node a bucket belongs to.
#[derive(Clone, Copy, Eq, PartialEq, Structural, Debug)]
pub enum NodeKind {
    Safekeeper,
    Pageserver,
}

impl NodeKind {
    /// How this is written.
    pub open spec fn text(self) -> Seq<char> {
        match self {
            NodeKind::Safekeeper => "safekeeper"@,
            NodeKind::Pageserver => "pageserver"@,
        }
    }

    /// The kind as text.
    pub fn as_str(&self) -> (r: &'static str)
        ensures
            r@ == self.text(),
    {
        match self {
            NodeKind::Safekeeper => "safekeeper",
            NodeKind::Pageserver => "pageserver",
        }
    }

    /// Writes the kind.
    pub fn to_string(&self) -> (r: String)
        ensures
            r@ == self.text(),
    {
        owned(self.as_str())
    }
}

// ---------------------------------------------------------------------------
// Targets
// ---------------------------------------------------------------------------

/// `prefix` without a slash at its end.
pub open spec fn trimmed(prefix: Seq<char>) -> Seq<char> {
    if ends_with_char(prefix, '/') {
        prefix.drop_last()
    } else {
        prefix
    }
}

/// The prefix of `segment` under `prefix`.
pub open spec fn sub_prefix(
    prefix: Seq<char>,
    segment: Seq<char>,
    delimiter: Seq<char>,
) -> Seq<char> {
    if prefix.len() == 0 {
        "/"@ + segment + "/"@
    } else {
        trimmed(prefix) + delimiter + segment + delimiter
    }
}

/// A target, as plain text.
pub struct TargetView {
    pub bucket_name: Seq<char>,
    pub prefix_in_bucket: Seq<char>,
    pub delimiter: Seq<char>,
}

impl View for S3Target {
    type V = TargetView;

    open spec fn view(&self) -> TargetView {
        TargetView {
            bucket_name: self.bucket_name@,
            prefix_in_bucket: self.prefix_in_bucket@,
            delimiter: self.delimiter@,
        }
    }
}

impl TargetView {
    /// The target of `segment` under this one.
    pub open spec fn under(self, segment: Seq<char>) -> TargetView {
        TargetView {
            bucket_name: self.bucket_name,
            prefix_in_bucket: sub_prefix(self.prefix_in_bucket, segment, self.delimiter),
            delimiter: self.delimiter,
        }
    }
}

impl Clone for S3Target {
    fn clone(&self) -> (r: Self)
        ensures
            r == *self,
    {
        S3Target {
            bucket_name: self.bucket_name.clone(),
            prefix_in_bucket: self.prefix_in_bucket.clone(),
            delimiter: self.delimiter.clone(),
        }
    }
}

impl S3Target {
    /// The target of `new_segment` under this one.
    pub fn with_sub_segment(&self, new_segment: &str) -> (r: Self)
        ensures
            r@ == self@.under(new_segment@),
    {
        let mut new_self = self.clone();
        let chars = crate::text::chars_of(self.prefix_in_bucket.as_str());
        if chars.len() == 0 {
            new_self.prefix_in_bucket = concat3("/", new_segment, "/");
        } else {
            if has_last_char(self.prefix_in_bucket.as_str(), '/') {
                new_self.prefix_in_bucket = without_last_char(self.prefix_in_bucket.as_str());
            }
            let head = concat3(
                new_self.prefix_in_bucket.as_str(),
                new_self.delimiter.as_str(),
                new_segment,
            );
            new_self.prefix_in_bucket = concat2(head.as_str(), new_self.delimiter.as_str());
        }
        new_self
    }
}

/// The prefix of all that a pageserver or a safekeeper keeps.
#[derive(Debug)]
pub enum RootTarget {
    Pageserver(S3Target),
    Safekeeper(S3Target),
}

impl Clone for RootTarget {
    fn clone(&self) -> (r: Self)
        ensures
            r == *self,
    {
        match self {
            RootTarget::Pageserver(root) => RootTarget::Pageserver(root.clone()),
            RootTarget::Safekeeper(root) => RootTarget::Safekeeper(root.clone()),
        }
    }
}

/// `prefix` with a slash at its end.
pub open spec fn slashed(prefix: Seq<char>) -> Seq<char> {
    if ends_with_char(prefix, '/') {
        prefix
    } else {
        prefix + "/"@
    }
}

impl RootTarget {
    /// The configured target.
    pub open spec fn root(self) -> TargetView {
        match self {
            RootTarget::Pageserver(root) => root@,
            RootTarget::Safekeeper(root) => root@,
        }
    }

    /// Where the tenants are: a safekeeper keeps them right at its root.
    pub open spec fn tenants(self) -> TargetView {
        match self {
            RootTarget::Pageserver(_) => self.root().under(TENANTS_SEGMENT_NAME@),
            RootTarget::Safekeeper(_) => self.root(),
        }
    }

    /// Where a tenant is: a safekeeper knows no shards.
    pub open spec fn tenant(self, id: TenantShardId) -> TargetView {
        match self {
            RootTarget::Pageserver(_) => self.tenants().under(id.text()),
            RootTarget::Safekeeper(_) => self.tenants().under(id.tenant_id.text()),
        }
    }

    /// Where the timelines of a tenant are: a safekeeper keeps them right at the tenant.
    pub open spec fn timelines(self, id: TenantShardId) -> TargetView {
        match self {
            RootTarget::Pageserver(_) => self.tenant(id).under(TIMELINES_SEGMENT_NAME@),
            RootTarget::Safekeeper(_) => self.tenant(id),
        }
    }

    /// Where a timeline is.
    pub open spec fn timeline(self, id: TenantShardTimelineId) -> TargetView {
        self.timelines(id.tenant_shard_id).under(id.timeline_id.text())
    }

    /// The key in the bucket of what is at `path` under the root.
    pub open spec fn key(self, path: Seq<char>) -> Seq<char> {
        slashed(self.root().prefix_in_bucket) + path
    }

    /// What the keys of all shards of a tenant begin with.
    pub open spec fn shards_prefix(self, id: TenantId) -> Seq<char> {
        self.root().prefix_in_bucket + "/"@ + TENANTS_SEGMENT_NAME@ + "/"@ + id.text()
    }

    /// Where the tenants are.
    pub fn tenants_root(&self) -> (r: S3Target)
        ensures
            r@ == self.tenants(),
    {
        match self {
            RootTarget::Pageserver(root) => root.with_sub_segment(TENANTS_SEGMENT_NAME),
            RootTarget::Safekeeper(root) => root.clone(),
        }
    }

    /// Where the tenant `tenant_id` is.
    pub fn tenant_root(&self, tenant_id: &TenantShardId) -> (r: S3Target)
        ensures
            r@ == self.tenant(*tenant_id),
    {
        match self {
            RootTarget::Pageserver(_) => {
                let segment = tenant_id.to_string();
                self.tenants_root().with_sub_segment(segment.as_str())
            },
            RootTarget::Safekeeper(_) => {
                let segment = tenant_id.tenant_id.to_string();
                self.tenants_root().with_sub_segment(segment.as_str())
            },
        }
    }

    /// What the keys of all shards of a tenant begin with. Only pageserver remote storage
    /// contains tenant-shards.
    pub fn tenant_shards_prefix(&self, tenant_id: &TenantId) -> (r: S3Target)
        requires
            self is Pageserver,
        ensures
            r@ == (TargetView {
                prefix_in_bucket: self.shards_prefix(*tenant_id),
                ..self.root()
            }),
    {
        let root = match self {
            RootTarget::Pageserver(root) => root,
            RootTarget::Safekeeper(root) => root,
        };
        let tenant = tenant_id.to_string();
        let tenants = concat3(root.prefix_in_bucket.as_str(), "/", TENANTS_SEGMENT_NAME);
        S3Target {
            bucket_name: root.bucket_name.clone(),
            prefix_in_bucket: concat3(tenants.as_str(), "/", tenant.as_str()),
            delimiter: root.delimiter.clone(),
        }
    }

    /// Where the timelines of a tenant are.
    pub fn timelines_root(&self, tenant_id: &TenantShardId) -> (r: S3Target)
        ensures
            r@ == self.timelines(*tenant_id),
    {
        match self {
            RootTarget::Pageserver(_) => self.tenant_root(tenant_id).with_sub_segment(
                TIMELINES_SEGMENT_NAME,
            ),
            RootTarget::Safekeeper(_) => self.tenant_root(tenant_id),
        }
    }

    /// Where a timeline is.
    pub fn timeline_root(&self, id: &TenantShardTimelineId) -> (r: S3Target)
        ensures
            r@ == self.timeline(*id),
    {
        let segment = id.timeline_id.to_string();
        self.timelines_root(&id.tenant_shard_id).with_sub_segment(segment.as_str())
    }

    /// Given RemotePath "tenants/foo/timelines/bar/layerxyz", prefix it to a literal
    /// key in the S3 bucket.
    pub fn absolute_key(&self, key: &RemotePath) -> (r: String)
        ensures
            r@ == self.key(key@),
    {
        let root = match self {
            RootTarget::Pageserver(root) => root,
            RootTarget::Safekeeper(root) => root,
        };
        let prefix = root.prefix_in_bucket.as_str();
        if has_last_char(prefix, '/') {
            concat2(prefix, key.get_path())
        } else {
            concat3(prefix, "/", key.get_path())
        }
    }

    /// The bucket.
    pub fn bucket_name(&self) -> (r: &str)
        ensures
            r@ == self.root().bucket_name,
    {
        match self {
            RootTarget::Pageserver(root) => root.bucket_name.as_str(),
            RootTarget::Safekeeper(root) => root.bucket_name.as_str(),
        }
    }

    /// What separates the parts of a key.
    pub fn delimiter(&self) -> (r: &str)
        ensures
            r@ == self.root().delimiter,
    {
        match self {
            RootTarget::Pageserver(root) => root.delimiter.as_str(),
            RootTarget::Safekeeper(root) => root.delimiter.as_str(),
        }
    }
}

// ---------------------------------------------------------------------------
// Laws
// ---------------------------------------------------------------------------

/// With a slash as the delimiter, a segment and a slash go behind the prefix and its slash.
pub proof fn law_sub_prefix(prefix: Seq<char>, segment: Seq<char>)
    ensures
        sub_prefix(prefix, segment, "/"@) == slashed(prefix) + segment + "/"@,
        slashed(sub_prefix(prefix, segment, "/"@)) == sub_prefix(prefix, segment, "/"@),
{
    reveal_strlit("/");
    if prefix.len() == 0 {
        assert(slashed(prefix) =~= "/"@);
    } else if ends_with_char(prefix, '/') {
        assert(trimmed(prefix) + "/"@ =~= prefix);
    }
    assert(ends_with_char(sub_prefix(prefix, segment, "/"@), '/'));
}

/// The path of a timeline under the root, with a slash behind it.
pub open spec fn timeline_path(root: RootTarget, id: TenantShardTimelineId) -> Seq<char> {
    match root {
        RootTarget::Pageserver(_) => TENANTS_SEGMENT_NAME@ + "/"@ + id.tenant_shard_id.text()
            + "/"@ + TIMELINES_SEGMENT_NAME@ + "/"@ + id.timeline_id.text() + "/"@,
        RootTarget::Safekeeper(_) => id.tenant_shard_id.tenant_id.text() + "/"@
            + id.timeline_id.text() + "/"@,
    }
}

/// What is in a timeline's directory is found under the timeline's root: the key of a path
/// that begins with the timeline's own path begins with the timeline's prefix, whether or
/// not the configured prefix is empty or ends in a slash.
pub proof fn law_timeline_keys(root: RootTarget, id: TenantShardTimelineId, name: Seq<char>)
    requires
        root.root().delimiter == "/"@,
    ensures
        root.key(timeline_path(root, id) + name) == root.timeline(id).prefix_in_bucket + name,
{
    let p = root.root().prefix_in_bucket;
    law_sub_prefix(p, TENANTS_SEGMENT_NAME@);
    law_sub_prefix(root.tenants().prefix_in_bucket, id.tenant_shard_id.text());
    law_sub_prefix(root.tenants().prefix_in_bucket, id.tenant_shard_id.tenant_id.text());
    law_sub_prefix(
        root.tenant(id.tenant_shard_id).prefix_in_bucket,
        TIMELINES_SEGMENT_NAME@,
    );
    law_sub_prefix(
        root.timelines(id.tenant_shard_id).prefix_in_bucket,
        id.timeline_id.text(),
    );
    assert(root.key(timeline_path(root, id) + name) =~= root.timeline(id).prefix_in_bucket + name);
}

proof fn lemma_sub_extends(prefix: Seq<char>, segment: Seq<char>)
    ensures
        slashed(prefix).is_prefix_of(sub_prefix(prefix, segment, "/"@)),
        slashed(sub_prefix(prefix, segment, "/"@)) == sub_prefix(prefix, segment, "/"@),
{
    law_sub_prefix(prefix, segment);
    let whole = slashed(prefix) + segment + "/"@;
    assert(whole.take(slashed(prefix).len() as int) =~= slashed(prefix));
}

proof fn lemma_prefix_chain(a: Seq<char>, b: Seq<char>, c: Seq<char>)
    requires
        a.is_prefix_of(b),
        b.is_prefix_of(c),
    ensures
        a.is_prefix_of(c),
{
    assert(c.take(a.len() as int) =~= b.take(a.len() as int));
}

/// Each level lies under the one above it, in the same bucket.
pub proof fn law_targets_nest(root: RootTarget, id: TenantShardTimelineId)
    requires
        root.root().delimiter == "/"@,
    ensures
        slashed(root.root().prefix_in_bucket).is_prefix_of(
            root.tenant(id.tenant_shard_id).prefix_in_bucket,
        ),
        root.tenant(id.tenant_shard_id).prefix_in_bucket.is_prefix_of(
            root.timeline(id).prefix_in_bucket,
        ),
        root.timeline(id).bucket_name == root.root().bucket_name,
        root.timeline(id).delimiter == root.root().delimiter,
{
    let top = root.root().prefix_in_bucket;
    let tenants = root.tenants().prefix_in_bucket;
    let tenant = root.tenant(id.tenant_shard_id).prefix_in_bucket;
    let timelines = root.timelines(id.tenant_shard_id).prefix_in_bucket;
    let timeline = root.timeline(id).prefix_in_bucket;
    match root {
        RootTarget::Pageserver(_) => {
            lemma_sub_extends(top, TENANTS_SEGMENT_NAME@);
            lemma_sub_extends(tenants, id.tenant_shard_id.text());
            lemma_prefix_chain(slashed(top), tenants, tenant);
            lemma_sub_extends(tenant, TIMELINES_SEGMENT_NAME@);
            lemma_sub_extends(timelines, id.timeline_id.text());
            lemma_prefix_chain(tenant, timelines, timeline);
        },
        RootTarget::Safekeeper(_) => {
            lemma_sub_extends(top, id.tenant_shard_id.tenant_id.text());
            lemma_sub_extends(tenant, id.timeline_id.text());
        },
    }
}

/// Every shard of a tenant is found by what the tenant's shards begin with, as long as the
/// configured prefix does not end in a slash.
pub proof fn law_shards_prefix(root: RootTarget, id: TenantShardId)
    requires
        root is Pageserver,
        root.root().delimiter == "/"@,
        !ends_with_char(root.root().prefix_in_bucket, '/'),
    ensures
        root.shards_prefix(id.tenant_id).is_prefix_of(root.tenant(id).prefix_in_bucket),
{
    let p = root.root().prefix_in_bucket;
    law_sub_prefix(p, TENANTS_SEGMENT_NAME@);
    law_sub_prefix(root.tenants().prefix_in_bucket, id.text());
    crate::ids::law_shard_text_begins_with_tenant(id);
    let short = root.shards_prefix(id.tenant_id);
    let long = root.tenant(id).prefix_in_bucket;
    assert(long =~= p + "/"@ + TENANTS_SEGMENT_NAME@ + "/"@ + id.text() + "/"@);
    assert(long.take(short.len() as int) =~= short) by {
        assert forall|i: int| 0 <= i < short.len() implies long[i] == short[i] by {
            let at = short.len() - 32;
            if i >= at {
                assert(short[i] == id.tenant_id.text()[i - at]);
                assert(long[i] == id.text()[i - at]);
                assert(id.text().take(32)[i - at] == id.text()[i - at]);
            }
        }
    }
}

/// Two timelines with the same prefix are the same timeline of the same tenant and, on a
/// pageserver, of the same shard.
pub proof fn law_timeline_roots_differ(
    root: RootTarget,
    a: TenantShardTimelineId,
    b: TenantShardTimelineId,
)
    requires
        root.root().delimiter == "/"@,
        root.timeline(a).prefix_in_bucket == root.timeline(b).prefix_in_bucket,
    ensures
        a.as_tenant_timeline() == b.as_tenant_timeline(),
        root is Pageserver ==> a.tenant_shard_id.text() == b.tenant_shard_id.text(),
{
    let none = Seq::<char>::empty();
    law_timeline_keys(root, a, none);
    law_timeline_keys(root, b, none);
    crate::ids::law_id_text_len(a.timeline_id.value);
    crate::ids::law_id_text_len(b.timeline_id.value);
    crate::ids::law_shard_text_begins_with_tenant(a.tenant_shard_id);
    crate::ids::law_shard_text_begins_with_tenant(b.tenant_shard_id);
    reveal_strlit("/");
    let head = slashed(root.root().prefix_in_bucket);
    let pa = timeline_path(root, a);
    let pb = timeline_path(root, b);
    assert(root.key(pa + none) =~= head + pa);
    assert(root.key(pb + none) =~= head + pb);
    assert((head + pa).skip(head.len() as int) =~= pa);
    assert((head + pb).skip(head.len() as int) =~= pb);
    assert(pa == pb);
    let n = pa.len();
    assert(pa.subrange(n - 33, n - 1) =~= a.timeline_id.text());
    assert(pb.subrange(n - 33, n - 1) =~= b.timeline_id.text());
    crate::ids::law_id_text_injective(a.timeline_id.value, b.timeline_id.value);
    if root is Pageserver {
        let t = TENANTS_SEGMENT_NAME@ + "/"@;
        let l = TIMELINES_SEGMENT_NAME@;
        let k = n - 34 - l.len() - 1;
        assert(pa.subrange(t.len() as int, k) =~= a.tenant_shard_id.text());
        assert(pb.subrange(t.len() as int, k) =~= b.tenant_shard_id.text());
        crate::ids::law_shard_text_injective(a.tenant_shard_id, b.tenant_shard_id);
    } else {
        assert(pa.take(32) =~= a.tenant_shard_id.tenant_id.text());
        assert(pb.take(32) =~= b.tenant_shard_id.tenant_id.text());
        crate::ids::law_id_text_injective(
            a.tenant_shard_id.tenant_id.value,
            b.tenant_shard_id.tenant_id.value,
        );
    }
}

impl TenantShardTimelineId {
    /// The same timeline, whatever the shard.
    pub open spec fn as_tenant_timeline(self) -> TenantTimelineId {
        TenantTimelineId {
            tenant_id: self.tenant_shard_id.tenant_id,
            timeline_id: self.timeline_id,
        }
    }
}

/// A segment goes under a prefix with one delimiter before and one behind it; a slash that the
/// prefix ends in gives way to the delimiter, and under no prefix at all slashes go round it.
pub proof fn law_segments_under_prefixes(
    prefix: Seq<char>,
    segment: Seq<char>,
    delimiter: Seq<char>,
)
    ensures
        sub_prefix(Seq::empty(), segment, delimiter) == seq!['/'] + segment + seq!['/'],
        sub_prefix(prefix.push('/'), segment, delimiter) == prefix + delimiter + segment
            + delimiter,
        prefix.len() > 0 && prefix.last() != '/' ==> sub_prefix(prefix, segment, delimiter)
            == prefix + delimiter + segment + delimiter,
        slashed(prefix.push('/')) == prefix.push('/'),
        prefix.len() > 0 && prefix.last() != '/' ==> slashed(prefix) == prefix.push('/'),
        slashed(Seq::empty()) == seq!['/'],
{
    reveal_strlit("/");
    assert("/"@ =~= seq!['/']);
    assert(prefix.push('/').drop_last() =~= prefix);
    assert(prefix + "/"@ =~= prefix.push('/'));
    assert(Seq::<char>::empty() + "/"@ =~= seq!['/']);
}

/// A pageserver keeps a timeline under `tenants`, the shard, `timelines`, and the timeline; a
/// safekeeper right under the tenant and the timeline. This is so in the bucket that is
/// configured, under whatever prefix that is.
pub proof fn law_where_timelines_are(
    root: RootTarget,
    id: TenantShardTimelineId,
    prefix: Seq<char>,
)
    requires
        prefix.len() > 0,
        prefix.last() != '/',
        root.root().delimiter == seq!['/'],
        root.root().prefix_in_bucket == prefix || root.root().prefix_in_bucket == prefix.push('/'),
    ensures
        ({
            let shard = id.tenant_shard_id;
            let tenants = prefix + "/tenants/"@;
            let tenant = tenants + shard.text() + "/"@;
            let timelines = tenant + "timelines/"@;
            root is Pageserver ==> {
                &&& root.tenants().prefix_in_bucket == tenants
                &&& root.tenant(shard).prefix_in_bucket == tenant
                &&& root.timelines(shard).prefix_in_bucket == timelines
                &&& root.timeline(id).prefix_in_bucket == timelines + id.timeline_id.text() + "/"@
            }
        }),
        ({
            let shard = id.tenant_shard_id;
            let tenant = prefix + "/"@ + shard.tenant_id.text() + "/"@;
            root is Safekeeper ==> {
                &&& root.tenants() == root.root()
                &&& root.tenant(shard).prefix_in_bucket == tenant
                &&& root.timelines(shard).prefix_in_bucket == tenant
                &&& root.timeline(id).prefix_in_bucket == tenant + id.timeline_id.text() + "/"@
            }
        }),
        root.tenants().bucket_name == root.root().bucket_name,
        root.tenant(id.tenant_shard_id).bucket_name == root.root().bucket_name,
        root.timelines(id.tenant_shard_id).bucket_name == root.root().bucket_name,
        root.timeline(id).bucket_name == root.root().bucket_name,
{
    reveal_strlit("/");
    reveal_strlit("tenants");
    reveal_strlit("timelines");
    reveal_strlit("/tenants/");
    reveal_strlit("timelines/");
    let shard = id.tenant_shard_id;
    let d = seq!['/'];
    assert("/"@ =~= d);
    law_segments_under_prefixes(prefix, "tenants"@, d);
    law_segments_under_prefixes(prefix, shard.tenant_id.text(), d);
    if root is Pageserver {
        let tenants = prefix + "/tenants/"@;
        assert(root.tenants().prefix_in_bucket =~= tenants);
        assert(tenants.drop_last().push('/') =~= tenants);
        law_segments_under_prefixes(tenants.drop_last(), shard.text(), d);
        let tenant = tenants + shard.text() + "/"@;
        assert(root.tenant(shard).prefix_in_bucket =~= tenant);
        assert(tenant.drop_last().push('/') =~= tenant);
        law_segments_under_prefixes(tenant.drop_last(), "timelines"@, d);
        let timelines = tenant + "timelines/"@;
        assert(root.timelines(shard).prefix_in_bucket =~= timelines);
        assert(timelines.drop_last().push('/') =~= timelines);
        law_segments_under_prefixes(timelines.drop_last(), id.timeline_id.text(), d);
        assert(root.timeline(id).prefix_in_bucket =~= timelines + id.timeline_id.text() + "/"@);
    } else {
        let tenant = prefix + "/"@ + shard.tenant_id.text() + "/"@;
        assert(root.tenant(shard).prefix_in_bucket =~= tenant);
        assert(tenant.drop_last().push('/') =~= tenant);
        law_segments_under_prefixes(tenant.drop_last(), id.timeline_id.text(), d);
        assert(root.timeline(id).prefix_in_bucket =~= tenant + id.timeline_id.text() + "/"@);
    }
}

/// The key of a path is the configured prefix, one slash, and the path; and all shards of a
/// tenant begin with the prefix, `tenants` and the tenant.
pub proof fn law_keys(root: RootTarget, path: Seq<char>, prefix: Seq<char>, tenant_id: TenantId)
    requires
        prefix.len() > 0,
        prefix.last() != '/',
        root.root().prefix_in_bucket == prefix || root.root().prefix_in_bucket == prefix.push('/'),
    ensures
        root.key(path) == prefix + seq!['/'] + path,
        root.root().prefix_in_bucket == prefix ==> root.shards_prefix(tenant_id) == prefix
            + "/tenants/"@ + tenant_id.text(),
{
    reveal_strlit("/");
    reveal_strlit("tenants");
    reveal_strlit("/tenants/");
    law_segments_under_prefixes(prefix, path, seq!['/']);
    assert(root.key(path) =~= prefix + seq!['/'] + path);
    if root.root().prefix_in_bucket == prefix {
        assert(root.shards_prefix(tenant_id) =~= prefix + "/tenants/"@ + tenant_id.text());
    }
}

/// How timelines of shards, depths and kinds of nodes are written.
pub proof fn law_how_targets_are_written(id: TenantShardTimelineId)
    ensures
        id.text() == id.tenant_shard_id.text() + seq!['/'] + id.timeline_id.text(),
        id.as_tenant_timeline().tenant_id == id.tenant_shard_id.tenant_id,
        id.as_tenant_timeline().timeline_id == id.timeline_id,
        TraversingDepth::Tenant.text() == "tenant"@,
        TraversingDepth::Timeline.text() == "timeline"@,
        NodeKind::Safekeeper.text() == "safekeeper"@,
        NodeKind::Pageserver.text() == "pageserver"@,
{
    reveal_strlit("/");
    assert("/"@ =~= seq!['/']);
}

} // verus!
