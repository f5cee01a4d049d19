//! Identifiers shared by the replication modules.

use tokio_postgres::types::Oid;
use vstd::prelude::*;

verus! {

/// Object identifier of a Postgres relation.
#[derive(Debug, Clone, Copy, PartialEq, Eq, Structural, Hash)]
pub struct TableId(pub Oid);

impl TableId {
    /// Wraps a relation object identifier.
    pub fn new(oid: Oid) -> (id: Self)
        ensures
            id.0 == oid,
    {
        TableId(oid)
    }

    /// Returns the wrapped object identifier.
    pub fn into_inner(self) -> (oid: Oid)
        ensures
            oid == self.0,
    {
        self.0
    }
}

} // verus!
