//! The raw resource-usage vector attached to a transaction receipt.

use vstd::prelude::*;

verus! {

/// Resource usage of one transaction, as reported by the execution engine:
/// named cost dimensions that a cost metric reduces to a single scalar.
/// This crate never interprets the dimensions itself.
#[derive(Clone, Copy, Debug, PartialEq, Eq, Structural)]
pub struct ExecutionCost {
    pub write_length: u64,
    pub write_count: u64,
    pub read_length: u64,
    pub read_count: u64,
    pub runtime: u64,
}

impl ExecutionCost {
    /// The all-zero usage vector, reported for transactions that execute
    /// nothing (for example plain value transfers).
    pub fn zero() -> (r: Self)
        ensures
            r.write_length == 0,
            r.write_count == 0,
            r.read_length == 0,
            r.read_count == 0,
            r.runtime == 0,
    {
        ExecutionCost {
            write_length: 0,
            write_count: 0,
            read_length: 0,
            read_count: 0,
            runtime: 0,
        }
    }
}

} // verus!
