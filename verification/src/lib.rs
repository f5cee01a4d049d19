//! Naming of Postgres logical-replication slots for change-data-capture
//! pipelines: the codec between slot identities and slot names, and the
//! pipeline configuration checks that gate the slot prefix.

pub mod cleanup;
pub mod config;
pub mod decimal;
pub mod length;
pub mod pipeline;
pub mod round_trip;
pub mod slots;
pub mod text;
pub mod types;
pub mod worker;
