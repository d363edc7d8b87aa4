//! Per-block input consumed by the estimator: one receipt per transaction
//! of a confirmed block, in block order.

use vstd::prelude::*;

use crate::costs::ExecutionCost;

verus! {

/// The payload kind of a confirmed transaction.  Only the block-reward
/// payload is excluded from fee sampling; every market payload kind takes
/// part in it.
#[derive(Clone, Copy, Debug, PartialEq, Eq, Structural)]
pub enum PayloadKind {
    /// Block reward / coinbase: pays no market fee, never sampled.
    Reward,
    /// Plain value transfer; it has no execution profile, so its unit cost
    /// is derived from its byte length alone.
    Transfer,
    ContractCall,
    ContractDeploy,
}

/// What the estimator reads of one confirmed transaction.
#[derive(Clone, Copy, Debug, PartialEq, Eq, Structural)]
pub struct TxReceipt {
    pub payload_kind: PayloadKind,
    /// Fee paid, in the chain's smallest fee unit.
    pub fee_paid: u64,
    /// Raw length of the serialized transaction in bytes.
    pub byte_length: u64,
    /// Resource usage reported by the execution engine; all-zero for
    /// payload kinds that execute nothing.
    pub execution_cost: ExecutionCost,
}

/// The ordered transaction receipts of one confirmed block.
pub struct BlockReceipt {
    pub tx_receipts: Vec<TxReceipt>,
}

/// A transaction takes part in fee sampling unless it carries the
/// block-reward payload.
pub open spec fn is_eligible(tx: TxReceipt) -> bool {
    tx.payload_kind != PayloadKind::Reward
}

} // verus!
