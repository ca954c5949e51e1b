use neon_storage::ids::{Lsn, TenantId, TenantShardId, TimelineId};

#[test]
fn identifiers_are_32_hexadecimal_digits() {
    let tenant = TenantId { value: 0xf };
    assert_eq!(tenant.to_string(), "0000000000000000000000000000000f");
    let timeline = TimelineId {
        value: 0x0123456789abcdef0123456789abcdef,
    };
    assert_eq!(timeline.to_string(), "0123456789abcdef0123456789abcdef");
    assert_eq!(
        TenantId { value: u128::MAX }.to_string(),
        "ffffffffffffffffffffffffffffffff"
    );
}

#[test]
fn shards_are_written_behind_their_tenant() {
    let tenant_id = TenantId { value: 1 };
    let unsharded = TenantShardId {
        tenant_id,
        shard_number: 0,
        shard_count: 0,
    };
    assert_eq!(unsharded.to_string(), tenant_id.to_string());
    let shard = TenantShardId {
        tenant_id,
        shard_number: 10,
        shard_count: 16,
    };
    assert_eq!(shard.to_string(), format!("{}-0a10", tenant_id.to_string()));
}

#[test]
fn different_identifiers_are_written_differently() {
    let a = TimelineId { value: 7 };
    let b = TimelineId { value: 8 };
    assert_ne!(a.to_string(), b.to_string());
    assert_eq!(a.to_string().len(), 32);
}

#[test]
fn zero_is_no_position() {
    assert!(!Lsn { value: 0 }.is_valid());
    assert!(Lsn { value: 1 }.is_valid());
}
