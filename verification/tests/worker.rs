use std::borrow::Cow;
use etl_slots::slots::EtlReplicationSlot;
use etl_slots::types::TableId;
use etl_slots::worker::WorkerType;

#[test]
fn apply_worker_builds_the_apply_slot() {
    let slot = WorkerType::Apply.build_etl_replication_slot(4, "tenant");
    assert_eq!(
        slot,
        EtlReplicationSlot::Apply {
            pipeline_id: 4,
            prefix: Cow::Owned("tenant".to_string())
        }
    );
    assert_eq!(slot, EtlReplicationSlot::for_apply_worker(4, "tenant"));
}

#[test]
fn table_sync_worker_builds_the_slot_of_its_table() {
    let worker = WorkerType::TableSync {
        table_id: TableId::new(16384),
    };
    let slot = worker.build_etl_replication_slot(4, "tenant");
    assert_eq!(
        slot,
        EtlReplicationSlot::TableSync {
            pipeline_id: 4,
            table_id: TableId::new(16384),
            prefix: Cow::Owned("tenant".to_string())
        }
    );
    let name: String = slot.try_into().unwrap();
    assert_eq!(name, "tenant_table_sync_4_16384");
}

#[test]
fn building_a_slot_checks_nothing() {
    let prefix = "z".repeat(200);
    let slot = WorkerType::Apply.build_etl_replication_slot(u64::MAX, prefix.clone());
    assert_eq!(
        slot,
        EtlReplicationSlot::Apply {
            pipeline_id: u64::MAX,
            prefix: Cow::Owned(prefix)
        }
    );
    let slot = WorkerType::Apply.build_etl_replication_slot(0, "");
    assert_eq!(
        slot,
        EtlReplicationSlot::Apply {
            pipeline_id: 0,
            prefix: Cow::Owned(String::new())
        }
    );
}
