//! Fee-rate estimation from confirmed block history.
//!
//! The estimator derives three fee-pricing tiers (fast / medium / slow) from
//! the fee rates paid by the transactions of each confirmed block.  Each block
//! contributes one percentile sample per tier, which is blended with the
//! previously persisted estimate and written back to a single-record store.

use vstd::prelude::*;

pub mod costs;
pub mod fee_scalar;
pub mod metrics;
pub mod receipts;
pub mod sampling;
pub mod store;

verus! {

/// The three-tier fee rate readout.  Each tier is computed independently
/// from the same sorted sample set; no structural invariant forces
/// `fast >= medium >= slow`.
#[derive(Clone, Copy, Debug, PartialEq, Eq, Structural)]
pub struct FeeRateEstimate {
    pub fast: u64,
    pub medium: u64,
    pub slow: u64,
}

/// Failures surfaced by the estimator.  None of these terminates the hosting
/// process; callers continue with stale or absent fee guidance.
#[derive(Clone, Copy, Debug, PartialEq, Eq, Structural)]
pub enum EstimatorError {
    /// No block has yet produced an eligible sample: "insufficient data",
    /// not a fault.
    NoEstimateAvailable,
    /// The persisted store could not be created or read during construction;
    /// fatal to construction only.
    StoreOpenFailure,
    /// Persisting a freshly computed estimate failed; the cached and stored
    /// values both remain at their pre-update state.
    StoreWriteFailure,
    /// A read of the underlying record failed; distinct from
    /// `NoEstimateAvailable`.
    StoreReadFailure,
}

} // verus!
