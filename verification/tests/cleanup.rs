use etl_slots::cleanup::pipeline_replication_slot_names;
use etl_slots::cleanup::DROP_INACTIVE_SLOTS_QUERY;
use etl_slots::types::TableId;

#[test]
fn names_of_a_pipeline_are_the_apply_slot_then_the_tables_in_order() {
    let table_ids = [TableId::new(30), TableId::new(10), TableId::new(20)];
    let names = pipeline_replication_slot_names(5, &table_ids, "supabase_etl");
    assert_eq!(
        names,
        vec![
            "supabase_etl_apply_5".to_string(),
            "supabase_etl_table_sync_5_30".to_string(),
            "supabase_etl_table_sync_5_10".to_string(),
            "supabase_etl_table_sync_5_20".to_string(),
        ]
    );
}

#[test]
fn names_of_a_pipeline_without_tables() {
    let names = pipeline_replication_slot_names(5, &[], "p");
    assert_eq!(names, vec!["p_apply_5".to_string()]);
}

#[test]
fn names_of_a_pipeline_keep_a_table_that_is_given_twice() {
    let table_ids = [TableId::new(1), TableId::new(1)];
    let names = pipeline_replication_slot_names(2, &table_ids, "p");
    assert_eq!(
        names,
        vec![
            "p_apply_2".to_string(),
            "p_table_sync_2_1".to_string(),
            "p_table_sync_2_1".to_string(),
        ]
    );
}

#[test]
fn names_that_are_too_long_are_left_out() {
    // 47 + 12 + 1 + 1 = 61 bytes before the table id: ids of up to two
    // digits fit, longer ones do not.
    let prefix = "a".repeat(47);
    let table_ids = [
        TableId::new(1),
        TableId::new(123),
        TableId::new(45),
        TableId::new(u32::MAX),
        TableId::new(0),
    ];
    let names = pipeline_replication_slot_names(7, &table_ids, &prefix);
    assert_eq!(
        names,
        vec![
            format!("{}_apply_7", prefix),
            format!("{}_table_sync_7_1", prefix),
            format!("{}_table_sync_7_45", prefix),
            format!("{}_table_sync_7_0", prefix),
        ]
    );
}

#[test]
fn an_apply_name_that_is_too_long_is_left_out() {
    let prefix = "a".repeat(60);
    let table_ids = [TableId::new(1)];
    let names = pipeline_replication_slot_names(7, &table_ids, &prefix);
    assert!(names.is_empty());

    // 55 + 7 + 1 = 63 bytes for the apply slot; every table sync name is longer.
    let prefix = "a".repeat(55);
    let names = pipeline_replication_slot_names(7, &table_ids, &prefix);
    assert_eq!(names, vec![format!("{}_apply_7", prefix)]);
}

#[test]
fn names_are_the_same_on_every_call() {
    let table_ids = [TableId::new(3), TableId::new(4)];
    let first = pipeline_replication_slot_names(9, &table_ids, "tenant");
    let second = pipeline_replication_slot_names(9, &table_ids, "tenant");
    assert_eq!(first, second);
}

#[test]
fn a_prefix_within_the_bound_leaves_nothing_out() {
    let prefix = "c".repeat(20);
    let table_ids = [TableId::new(u32::MAX), TableId::new(0)];
    let names = pipeline_replication_slot_names(u64::MAX, &table_ids, &prefix);
    assert_eq!(names.len(), 3);
    assert_eq!(
        names[1],
        format!("{}_table_sync_18446744073709551615_4294967295", prefix)
    );
    assert_eq!(names[1].len(), 63);
}

#[test]
fn the_statement_drops_inactive_slots_only() {
    assert!(DROP_INACTIVE_SLOTS_QUERY.contains("pg_drop_replication_slot"));
    assert!(DROP_INACTIVE_SLOTS_QUERY.contains("pg_replication_slots"));
    assert!(DROP_INACTIVE_SLOTS_QUERY.contains("= any($1)"));
    assert!(DROP_INACTIVE_SLOTS_QUERY.contains("active = false"));
}
