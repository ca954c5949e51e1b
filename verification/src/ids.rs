//! Identifiers of tenants, shards, timelines and nodes, and positions in the log.

use vstd::prelude::*;

use crate::text::{concat3, hex_string};
use crate::text::{hex_span, hex_text, lemma_hex_text_injective, lemma_hex_text_len};

verus! {

/// How a 128-bit identifier is written: 32 lower case hexadecimal digits.
pub open spec fn id_text(value: u128) -> Seq<char> {
    hex_text(value as int, 32)
}

/// A tenant.
#[derive(Debug, Clone, Copy, PartialEq, Eq, Structural, Hash, PartialOrd, Ord)]
pub struct TenantId {
    pub value: u128,
}

/// A timeline of a tenant.
#[derive(Debug, Clone, Copy, PartialEq, Eq, Structural, Hash, PartialOrd, Ord)]
pub struct TimelineId {
    pub value: u128,
}

/// A pageserver node.
#[derive(Debug, Clone, Copy, PartialEq, Eq, Structural, Hash, PartialOrd, Ord)]
pub struct NodeId {
    pub value: u64,
}

/// One shard of a tenant. A shard count of zero stands for a tenant that was
/// never sharded.
#[derive(Debug, Clone, Copy, PartialEq, Eq, Structural, Hash, PartialOrd, Ord)]
pub struct TenantShardId {
    pub tenant_id: TenantId,
    pub shard_number: u8,
    pub shard_count: u8,
}

/// A timeline, together with the tenant that it belongs to.
#[derive(Debug, Clone, Copy, PartialEq, Eq, Structural, Hash, PartialOrd, Ord)]
pub struct TenantTimelineId {
    pub tenant_id: TenantId,
    pub timeline_id: TimelineId,
}

/// A log sequence number. Zero is not a position in the log.
#[derive(Debug, Clone, Copy, PartialEq, Eq, Structural, Hash, PartialOrd, Ord)]
pub struct Lsn {
    pub value: u64,
}

/// The generation of an attachment.
#[derive(Debug, Clone, Copy, PartialEq, Eq, Structural, Hash, PartialOrd, Ord)]
pub struct Generation {
    pub value: u32,
}

impl TenantId {
    /// How this tenant is written.
    pub open spec fn text(self) -> Seq<char> {
        id_text(self.value)
    }

    /// Writes this tenant.
    pub fn to_string(&self) -> (r: String)
        ensures
            r@ == self.text(),
    {
        hex_string(self.value, 32)
    }
}

impl TimelineId {
    /// How this timeline is written.
    pub open spec fn text(self) -> Seq<char> {
        id_text(self.value)
    }

    /// Writes this timeline.
    pub fn to_string(&self) -> (r: String)
        ensures
            r@ == self.text(),
    {
        hex_string(self.value, 32)
    }
}

impl TenantShardId {
    /// Shard number and shard count, two hexadecimal digits each.
    pub open spec fn slug(self) -> Seq<char> {
        hex_text(self.shard_number as int, 2) + hex_text(self.shard_count as int, 2)
    }

    /// How this shard is written: the tenant alone where it was never sharded,
    /// else the tenant, a dash, and the shard's slug.
    pub open spec fn text(self) -> Seq<char> {
        if self.shard_count == 0 {
            self.tenant_id.text()
        } else {
            self.tenant_id.text() + "-"@ + self.slug()
        }
    }

    /// Writes this shard.
    pub fn to_string(&self) -> (r: String)
        ensures
            r@ == self.text(),
    {
        let tenant = self.tenant_id.to_string();
        if self.shard_count == 0 {
            tenant
        } else {
            let number = hex_string(self.shard_number as u128, 2);
            let count = hex_string(self.shard_count as u128, 2);
            let slug = concat3(number.as_str(), count.as_str(), "");
            proof {
                reveal_strlit("");
                assert(slug@ =~= self.slug());
            }
            concat3(tenant.as_str(), "-", slug.as_str())
        }
    }
}

impl Lsn {
    /// Whether this is a position in the log.
    pub open spec fn spec_is_valid(self) -> bool {
        self.value != 0
    }

    /// Whether this is a position in the log.
    #[verifier::when_used_as_spec(spec_is_valid)]
    pub fn is_valid(self) -> (r: bool)
        ensures
            r == self.spec_is_valid(),
    {
        self.value != 0
    }
}

/// A written identifier has 32 characters.
pub proof fn law_id_text_len(value: u128)
    ensures
        id_text(value).len() == 32,
{
    lemma_hex_text_len(value as int, 32);
}

/// Two identifiers that are written alike are the same identifier.
pub proof fn law_id_text_injective(a: u128, b: u128)
    requires
        id_text(a) == id_text(b),
    ensures
        a == b,
{
    assert(hex_span(32) == 0x1_0000_0000_0000_0000_0000_0000_0000_0000) by {
        reveal_with_fuel(hex_span, 33);
    }
    lemma_hex_text_injective(a as int, b as int, 32);
}

/// A written shard begins with its written tenant.
pub proof fn law_shard_text_begins_with_tenant(id: TenantShardId)
    ensures
        id.tenant_id.text().len() == 32,
        id.text().len() >= 32,
        id.text().take(32) == id.tenant_id.text(),
{
    law_id_text_len(id.tenant_id.value);
    assert(id.text().take(32) =~= id.tenant_id.text());
}

/// Two shards that are written alike are of one tenant, with one shard count and,
/// where they are sharded at all, one shard number.
pub proof fn law_shard_text_injective(a: TenantShardId, b: TenantShardId)
    requires
        a.text() == b.text(),
    ensures
        a.tenant_id == b.tenant_id,
        a.shard_count == b.shard_count,
        a.shard_count != 0 ==> a.shard_number == b.shard_number,
{
    law_shard_text_begins_with_tenant(a);
    law_shard_text_begins_with_tenant(b);
    law_id_text_injective(a.tenant_id.value, b.tenant_id.value);
    reveal_strlit("-");
    lemma_hex_text_len(a.shard_number as int, 2);
    lemma_hex_text_len(a.shard_count as int, 2);
    lemma_hex_text_len(b.shard_number as int, 2);
    lemma_hex_text_len(b.shard_count as int, 2);
    if a.shard_count != 0 && b.shard_count != 0 {
        assert(a.text().skip(33) =~= a.slug());
        assert(b.text().skip(33) =~= b.slug());
        assert(a.slug().take(2) =~= hex_text(a.shard_number as int, 2));
        assert(b.slug().take(2) =~= hex_text(b.shard_number as int, 2));
        assert(a.slug().skip(2) =~= hex_text(a.shard_count as int, 2));
        assert(b.slug().skip(2) =~= hex_text(b.shard_count as int, 2));
        assert(hex_span(2) == 256) by {
            reveal_with_fuel(hex_span, 3);
        }
        lemma_hex_text_injective(a.shard_number as int, b.shard_number as int, 2);
        lemma_hex_text_injective(a.shard_count as int, b.shard_count as int, 2);
    } else if a.shard_count != 0 {
        assert(a.text().len() == 37);
        assert(b.text().len() == 32);
    } else if b.shard_count != 0 {
        assert(b.text().len() == 37);
        assert(a.text().len() == 32);
    }
}

/// An identifier is written in 32 digits that read back as it.
pub proof fn law_id_text_reads_back(value: u128)
    ensures
        id_text(value).len() == 32,
        crate::text::all_digits(id_text(value), 16),
        crate::text::number_of(id_text(value), 16) == value,
        (TenantId { value }).text() == id_text(value),
        (TimelineId { value }).text() == id_text(value),
{
    lemma_spans();
    crate::text::law_hex_text_reads_back(value as int, 32);
}

proof fn lemma_spans()
    ensures
        vstd::arithmetic::power::pow(16, 32) == 0x1_0000_0000_0000_0000_0000_0000_0000_0000,
        vstd::arithmetic::power::pow(16, 2) == 0x100,
{
    reveal_with_fuel(vstd::arithmetic::power::pow, 33);
}

/// A shard of a tenant that was never sharded is written like the tenant. Any other is the
/// tenant, a dash, and two digits each of the shard's number and of how many there are.
pub proof fn law_shard_text_reads_back(id: TenantShardId)
    ensures
        id.shard_count == 0 ==> id.text() == id_text(id.tenant_id.value),
        id.shard_count > 0 ==> {
            &&& id.text().len() == 37
            &&& id.text().take(32) == id_text(id.tenant_id.value)
            &&& id.text()[32] == '-'
            &&& crate::text::all_digits(id.text().skip(33), 16)
            &&& crate::text::number_of(id.text().subrange(33, 35), 16) == id.shard_number
            &&& crate::text::number_of(id.text().subrange(35, 37), 16) == id.shard_count
        },
{
    lemma_spans();
    reveal_strlit("-");
    law_id_text_len(id.tenant_id.value);
    crate::text::law_hex_text_reads_back(id.shard_number as int, 2);
    crate::text::law_hex_text_reads_back(id.shard_count as int, 2);
    if id.shard_count > 0 {
        let number = hex_text(id.shard_number as int, 2);
        let count = hex_text(id.shard_count as int, 2);
        let text = id.text();
        assert(text.take(32) =~= id_text(id.tenant_id.value));
        assert(text.subrange(33, 35) =~= number);
        assert(text.subrange(35, 37) =~= count);
        assert forall|i: int| 0 <= i < text.skip(33).len() implies 0 <= crate::text::digit_value(
            #[trigger] text.skip(33)[i],
        ) < 16 by {
            if i < 2 {
                assert(text.skip(33)[i] == number[i]);
            } else {
                assert(text.skip(33)[i] == count[i - 2]);
            }
        }
    }
}

/// Every position but zero is one in the log.
pub proof fn law_valid_positions(lsn: Lsn)
    ensures
        lsn.spec_is_valid() <==> lsn.value > 0,
{
}

} // verus!
