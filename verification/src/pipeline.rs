//! Configuration of a pipeline, and the checks it must pass before any slot
//! is named after it.

use crate::config::BatchConfig;
use crate::config::PgConnectionConfig;
use crate::config::PgConnectionConfigWithoutSecrets;
use crate::config::ValidationError;
use crate::length::lemma_bounded_prefix_fits;
use crate::slots::fits_slot_name;
use crate::slots::slot_name;
use crate::slots::SlotIdentity;
use crate::slots::byte_length;
use crate::slots::DEFAULT_SLOT_PREFIX;
use vstd::prelude::*;

verus! {

/// Largest number of bytes in a slot prefix. With it the longest name, that
/// of a table sync slot with the largest ids, is still short enough for
/// Postgres.
pub const MAX_SLOT_PREFIX_LENGTH: usize = 20;

/// True when `prefix` can be the slot prefix of a pipeline: it is not empty
/// and takes at most `MAX_SLOT_PREFIX_LENGTH` bytes.
pub open spec fn is_valid_slot_prefix(prefix: Seq<char>) -> bool {
    prefix.len() > 0 && byte_length(prefix) <= MAX_SLOT_PREFIX_LENGTH
}

/// The slot prefix of a configuration that names none.
pub fn default_slot_prefix() -> (prefix: String)
    ensures
        prefix@ == DEFAULT_SLOT_PREFIX@,
{
    DEFAULT_SLOT_PREFIX.to_owned()
}

/// Configuration of a pipeline.
#[derive(Clone, Debug)]
pub struct PipelineConfig {
    /// Identifier of the pipeline. It keeps the slots and the state of one
    /// pipeline apart from those of every other.
    pub id: u64,
    /// Name of the Postgres publication to replicate.
    pub publication_name: String,
    /// Connection to the Postgres instance to replicate from.
    pub pg_connection: PgConnectionConfig,
    /// How changes are gathered into batches.
    pub batch: BatchConfig,
    /// Milliseconds between two attempts after a table error.
    pub table_error_retry_delay_ms: u64,
    /// Number of attempts after a table error before someone has to step in.
    pub table_error_retry_max_attempts: u32,
    /// Number of table sync workers that may run at a time.
    pub max_table_sync_workers: u16,
    /// Prefix of the names of the pipeline's slots.
    pub slot_prefix: String,
}

impl PipelineConfig {
    /// True when the configuration can be used: the TLS settings are
    /// acceptable, at least one table sync worker may run, at least one
    /// attempt is allowed after a table error, and the slot prefix is valid.
    pub open spec fn is_valid(&self) -> bool {
        &&& self.pg_connection.tls.is_acceptable()
        &&& self.max_table_sync_workers != 0
        &&& self.table_error_retry_max_attempts != 0
        &&& is_valid_slot_prefix(self.slot_prefix@)
    }

    /// What the checks make of a configuration. They run in a fixed order,
    /// and the first one that fails decides the error.
    pub open spec fn validation_outcome(&self) -> Result<(), ValidationError> {
        if !self.pg_connection.tls.is_acceptable() {
            Err(ValidationError::MissingTrustedRootCerts)
        } else if self.max_table_sync_workers == 0 {
            Err(ValidationError::MaxTableSyncWorkersZero)
        } else if self.table_error_retry_max_attempts == 0 {
            Err(ValidationError::TableErrorRetryMaxAttemptsZero)
        } else if self.slot_prefix@.len() == 0 {
            Err(ValidationError::SlotPrefixEmpty)
        } else if byte_length(self.slot_prefix@) > MAX_SLOT_PREFIX_LENGTH {
            Err(
                ValidationError::SlotPrefixTooLong {
                    max_length: MAX_SLOT_PREFIX_LENGTH,
                    actual_length: byte_length(self.slot_prefix@) as usize,
                },
            )
        } else {
            Ok(())
        }
    }

    /// The same configuration without the secrets of the connection.
    pub open spec fn without_secrets(self) -> PipelineConfigWithoutSecrets {
        PipelineConfigWithoutSecrets {
            id: self.id,
            publication_name: self.publication_name,
            pg_connection: self.pg_connection.without_secrets(),
            batch: self.batch,
            table_error_retry_delay_ms: self.table_error_retry_delay_ms,
            table_error_retry_max_attempts: self.table_error_retry_max_attempts,
            max_table_sync_workers: self.max_table_sync_workers,
            slot_prefix: self.slot_prefix,
        }
    }

    /// Checks the configuration: the TLS settings, that at least one table
    /// sync worker may run, that at least one attempt is allowed after a
    /// table error, and that the slot prefix is neither empty nor too long.
    pub fn validate(&self) -> (result: Result<(), ValidationError>)
        ensures
            result == self.validation_outcome(),
            result is Ok <==> self.is_valid(),
    {
        match self.pg_connection.tls.validate() {
            Ok(()) => {},
            Err(error) => {
                return Err(error);
            },
        }

        if self.max_table_sync_workers == 0 {
            return Err(ValidationError::MaxTableSyncWorkersZero);
        }
        if self.table_error_retry_max_attempts == 0 {
            return Err(ValidationError::TableErrorRetryMaxAttemptsZero);
        }
        if self.slot_prefix.as_str().is_empty() {
            return Err(ValidationError::SlotPrefixEmpty);
        }
        let actual_length: usize = self.slot_prefix.as_str().as_bytes().len();
        if actual_length > MAX_SLOT_PREFIX_LENGTH {
            return Err(
                ValidationError::SlotPrefixTooLong {
                    max_length: MAX_SLOT_PREFIX_LENGTH,
                    actual_length,
                },
            );
        }
        Ok(())
    }
}

/// A [`PipelineConfig`] without its secrets.
#[derive(Clone, Debug)]
pub struct PipelineConfigWithoutSecrets {
    /// Identifier of the pipeline.
    pub id: u64,
    /// Name of the Postgres publication to replicate.
    pub publication_name: String,
    /// Connection to the Postgres instance to replicate from, without the
    /// password.
    pub pg_connection: PgConnectionConfigWithoutSecrets,
    /// How changes are gathered into batches.
    pub batch: BatchConfig,
    /// Milliseconds between two attempts after a table error.
    pub table_error_retry_delay_ms: u64,
    /// Number of attempts after a table error before someone has to step in.
    pub table_error_retry_max_attempts: u32,
    /// Number of table sync workers that may run at a time.
    pub max_table_sync_workers: u16,
    /// Prefix of the names of the pipeline's slots.
    pub slot_prefix: String,
}

impl From<PipelineConfig> for PipelineConfigWithoutSecrets {
    /// Keeps every setting but the secrets of the connection.
    fn from(value: PipelineConfig) -> (stripped: Self) {
        PipelineConfigWithoutSecrets {
            id: value.id,
            publication_name: value.publication_name,
            pg_connection: PgConnectionConfigWithoutSecrets::from(value.pg_connection),
            batch: value.batch,
            table_error_retry_delay_ms: value.table_error_retry_delay_ms,
            table_error_retry_max_attempts: value.table_error_retry_max_attempts,
            max_table_sync_workers: value.max_table_sync_workers,
            slot_prefix: value.slot_prefix,
        }
    }
}

impl vstd::std_specs::convert::FromSpecImpl<PipelineConfig> for PipelineConfigWithoutSecrets {
    open spec fn obeys_from_spec() -> bool {
        true
    }

    open spec fn from_spec(value: PipelineConfig) -> Self {
        value.without_secrets()
    }
}

/// A configuration that passes the checks never makes a slot name too long:
/// the name of every slot with its prefix is short enough for Postgres,
/// whatever the pipeline and the table.
pub proof fn lemma_validated_prefix_fits(config: PipelineConfig, slot: SlotIdentity)
    requires
        config.is_valid(),
        slot.prefix() == config.slot_prefix@,
    ensures
        fits_slot_name(slot_name(slot)),
{
    lemma_bounded_prefix_fits(slot);
}

} // verus!
