use std::borrow::Cow;
use etl_slots::slots::EtlReplicationSlot;
use etl_slots::slots::EtlReplicationSlotError;
use etl_slots::slots::DEFAULT_SLOT_PREFIX;
use etl_slots::slots::MAX_SLOT_NAME_LENGTH;
use etl_slots::types::TableId;

#[test]
fn test_apply_worker_slot_name_default_prefix() {
    let pipeline_id: u64 = 1;
    let result: String = EtlReplicationSlot::for_apply_worker(pipeline_id, DEFAULT_SLOT_PREFIX)
        .try_into()
        .unwrap();

    assert!(result.starts_with(DEFAULT_SLOT_PREFIX));
    assert!(result.len() <= MAX_SLOT_NAME_LENGTH);
    assert_eq!(result, "supabase_etl_apply_1");
}

#[test]
fn test_apply_worker_slot_name_custom_prefix() {
    let pipeline_id: u64 = 1;
    let result: String = EtlReplicationSlot::for_apply_worker(pipeline_id, "myapp_prod")
        .try_into()
        .unwrap();

    assert!(result.starts_with("myapp_prod"));
    assert!(result.len() <= MAX_SLOT_NAME_LENGTH);
    assert_eq!(result, "myapp_prod_apply_1");
}

#[test]
fn test_table_sync_slot_name_default_prefix() {
    let pipeline_id: u64 = 1;
    let result: String =
        EtlReplicationSlot::for_table_sync_worker(pipeline_id, TableId::new(123), DEFAULT_SLOT_PREFIX)
            .try_into()
            .unwrap();

    assert!(result.starts_with(DEFAULT_SLOT_PREFIX));
    assert!(result.len() <= MAX_SLOT_NAME_LENGTH);
    assert_eq!(result, "supabase_etl_table_sync_1_123");
}

#[test]
fn test_table_sync_slot_name_custom_prefix() {
    let pipeline_id: u64 = 1;
    let result: String =
        EtlReplicationSlot::for_table_sync_worker(pipeline_id, TableId::new(123), "custom")
            .try_into()
            .unwrap();

    assert!(result.starts_with("custom"));
    assert!(result.len() <= MAX_SLOT_NAME_LENGTH);
    assert_eq!(result, "custom_table_sync_1_123");
}

#[test]
fn test_slot_name_length_validation() {
    let pipeline_id: u64 = 9223372036854775807_u64;
    let result: Result<String, EtlReplicationSlotError> = EtlReplicationSlot::for_table_sync_worker(
        pipeline_id,
        TableId::new(4294967295),
        DEFAULT_SLOT_PREFIX,
    )
    .try_into();
    assert!(result.is_ok());

    let slot_name = result.unwrap();
    assert!(slot_name.len() <= MAX_SLOT_NAME_LENGTH);

    assert_eq!(
        slot_name,
        "supabase_etl_table_sync_9223372036854775807_4294967295"
    );
    assert!(slot_name.len() <= MAX_SLOT_NAME_LENGTH);
}

#[test]
fn test_apply_sync_slot_prefix() {
    let prefix = EtlReplicationSlot::apply_prefix(42, DEFAULT_SLOT_PREFIX).unwrap();
    assert_eq!(prefix, "supabase_etl_apply_42");
}

#[test]
fn test_apply_sync_slot_prefix_custom() {
    let prefix = EtlReplicationSlot::apply_prefix(42, "myapp").unwrap();
    assert_eq!(prefix, "myapp_apply_42");
}

#[test]
fn test_table_sync_slot_prefix() {
    let prefix = EtlReplicationSlot::table_sync_prefix(42, DEFAULT_SLOT_PREFIX).unwrap();
    assert_eq!(prefix, "supabase_etl_table_sync_42_");
}

#[test]
fn test_table_sync_slot_prefix_custom() {
    let prefix = EtlReplicationSlot::table_sync_prefix(42, "myapp").unwrap();
    assert_eq!(prefix, "myapp_table_sync_42_");
}

#[test]
fn test_parse_apply_slot_default_prefix() {
    let parsed = EtlReplicationSlot::try_from("supabase_etl_apply_13").unwrap();
    assert_eq!(
        parsed,
        EtlReplicationSlot::Apply {
            pipeline_id: 13,
            prefix: Cow::Owned("supabase_etl".to_string()),
        }
    );
}

#[test]
fn test_parse_apply_slot_custom_prefix() {
    let parsed = EtlReplicationSlot::try_from("myapp_prod_apply_42").unwrap();
    assert_eq!(
        parsed,
        EtlReplicationSlot::Apply {
            pipeline_id: 42,
            prefix: Cow::Owned("myapp_prod".to_string()),
        }
    );
}

#[test]
fn test_parse_table_sync_slot_default_prefix() {
    let parsed = EtlReplicationSlot::try_from("supabase_etl_table_sync_7_12345").unwrap();
    assert_eq!(
        parsed,
        EtlReplicationSlot::TableSync {
            pipeline_id: 7,
            table_id: TableId::new(12345_u32),
            prefix: Cow::Owned("supabase_etl".to_string()),
        }
    );
}

#[test]
fn test_parse_table_sync_slot_custom_prefix() {
    let parsed = EtlReplicationSlot::try_from("custom_table_sync_7_12345").unwrap();
    assert_eq!(
        parsed,
        EtlReplicationSlot::TableSync {
            pipeline_id: 7,
            table_id: TableId::new(12345_u32),
            prefix: Cow::Owned("custom".to_string()),
        }
    );
}

#[test]
fn test_parse_invalid_slot() {
    assert!(EtlReplicationSlot::try_from("unknown_slot").is_err());
    assert!(EtlReplicationSlot::try_from("supabase_etl_apply_").is_err());
    assert!(EtlReplicationSlot::try_from("supabase_etl_table_sync_abc").is_err());
}

#[test]
fn test_roundtrip_slot_names() {
    let name = "myprefix_apply_123";
    let parsed = EtlReplicationSlot::try_from(name).unwrap();
    let result: String = parsed.try_into().unwrap();
    assert_eq!(result, name);

    let name = "myprefix_table_sync_456_789";
    let parsed = EtlReplicationSlot::try_from(name).unwrap();
    let result: String = parsed.try_into().unwrap();
    assert_eq!(result, name);
}
