//! What the mutations of a store of schemas, nodes and edges report. Running
//! a statement against the store is the caller's part; these decide what the
//! caller tells its client afterwards.

use vstd::prelude::*;

verus! {

/// The mutations on schemas.
#[derive(Clone, Copy, Debug, Default, PartialEq, Eq)]
pub struct SchemaMutation;

/// The mutations on nodes.
#[derive(Clone, Copy, Debug, Default, PartialEq, Eq)]
pub struct NodeMutation;

/// The mutations on edges.
#[derive(Clone, Copy, Debug, Default, PartialEq, Eq)]
pub struct EdgeMutation;

impl SchemaMutation {
    /// Was a schema deleted? It was if the statement touched any row.
    pub fn delete_schema(&self, rows_affected: u64) -> (deleted: bool)
        ensures
            deleted == (rows_affected > 0),
    {
        rows_affected > 0
    }
}

impl NodeMutation {
    /// Was a node deleted? It was if the statement touched any row.
    pub fn delete_node(&self, rows_affected: u64) -> (deleted: bool)
        ensures
            deleted == (rows_affected > 0),
    {
        rows_affected > 0
    }
}

impl EdgeMutation {
    /// Was an edge deleted? It was if the statement touched any row.
    pub fn delete_edge(&self, rows_affected: u64) -> (deleted: bool)
        ensures
            deleted == (rows_affected > 0),
    {
        rows_affected > 0
    }
}

} // verus!
