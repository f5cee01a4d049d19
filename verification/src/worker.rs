//! The roles that a worker of a pipeline can have.

use crate::slots::EtlReplicationSlot;
use crate::slots::IntoSlotPrefix;
use crate::slots::SlotIdentity;
use crate::types::TableId;
use vstd::prelude::*;

verus! {

/// Role of a worker in a replication task.
#[derive(Debug, Copy, Clone)]
pub enum WorkerType {
    /// Applies the changes that the pipeline streams.
    Apply,
    /// Copies one table before the pipeline streams its changes.
    TableSync { table_id: TableId },
}

impl WorkerType {
    /// The identity that a worker of this role has in pipeline
    /// `pipeline_id`, for a given prefix.
    pub open spec fn slot_identity(self, pipeline_id: u64, prefix: Seq<char>) -> SlotIdentity {
        match self {
            WorkerType::Apply => SlotIdentity::Apply { pipeline_id, prefix },
            WorkerType::TableSync { table_id } => SlotIdentity::TableSync {
                pipeline_id,
                table_id,
                prefix,
            },
        }
    }

    /// Identity of the slot that a worker of this role uses in pipeline
    /// `pipeline_id`. Every worker can compute it from its own role and the
    /// pipeline's configuration alone; nothing is checked here.
    pub fn build_etl_replication_slot(
        &self,
        pipeline_id: u64,
        slot_prefix: impl IntoSlotPrefix,
    ) -> (slot: EtlReplicationSlot)
        ensures
            slot@ == self.slot_identity(pipeline_id, slot_prefix@),
    {
        let prefix = slot_prefix.into_slot_prefix();
        match self {
            WorkerType::Apply => EtlReplicationSlot::Apply { pipeline_id, prefix },
            WorkerType::TableSync { table_id } => EtlReplicationSlot::TableSync {
                pipeline_id,
                table_id: *table_id,
                prefix,
            },
        }
    }
}

} // verus!
