//! Cost metrics: strategies that reduce a transaction's resource usage and
//! byte length to one comparable 64-bit scalar, its "unit cost".

use vstd::prelude::*;

use crate::costs::ExecutionCost;

verus! {

/// A stateless, deterministic reduction of a transaction's footprint to a
/// scalar unit cost.  Both operations are total and never fail; the
/// length-only form serves transactions that have no execution profile
/// (for example plain value transfers).
pub trait CostMetric: Sized {
    /// The scalar this metric assigns to a usage vector plus byte length.
    spec fn unit_cost_from_cost_and_len(&self, cost: ExecutionCost, tx_len: u64) -> u64;

    /// The scalar this metric assigns to a byte length alone.
    spec fn unit_cost_from_len(&self, tx_len: u64) -> u64;

    fn from_cost_and_len(&self, cost: &ExecutionCost, tx_len: u64) -> (r: u64)
        ensures
            r == self.unit_cost_from_cost_and_len(*cost, tx_len),
    ;

    fn from_len(&self, tx_len: u64) -> (r: u64)
        ensures
            r == self.unit_cost_from_len(tx_len),
    ;
}

/// The trivial metric: every transaction has unit cost 1, so a fee rate is
/// just the fee paid.  It isolates the estimator's sampling and blending
/// logic from cost semantics.
pub struct UnitCostMetric;

impl CostMetric for UnitCostMetric {
    open spec fn unit_cost_from_cost_and_len(&self, cost: ExecutionCost, tx_len: u64) -> u64 {
        1u64
    }

    open spec fn unit_cost_from_len(&self, tx_len: u64) -> u64 {
        1u64
    }

    fn from_cost_and_len(&self, cost: &ExecutionCost, tx_len: u64) -> (r: u64) {
        1
    }

    fn from_len(&self, tx_len: u64) -> (r: u64) {
        1
    }
}

/// Granularity of the per-dimension proportions of [`ProportionalCostMetric`]:
/// a dimension that exactly fills its reference limit contributes this much.
pub const PROPORTION_RESOLUTION: u64 = 10000;

/// The production metric: it weights each usage dimension, and the byte
/// length, against a configured reference limit (typically the per-block
/// limits), and sums the scaled proportions.  The result is clamped below
/// at 1, so a unit cost is never zero, and above at `u64::MAX`.
pub struct ProportionalCostMetric {
    pub cost_limits: ExecutionCost,
    pub block_size_limit: u64,
}

impl ProportionalCostMetric {
    /// How much of its reference limit a dimension consumes, scaled by
    /// [`PROPORTION_RESOLUTION`].  A zero limit counts as 1 so the
    /// proportion is always defined.
    pub open spec fn spec_dimension_proportion(value: u64, limit: u64) -> int {
        (value * PROPORTION_RESOLUTION) / (if limit == 0 { 1int } else { limit as int })
    }

    /// The unclamped sum of all six scaled proportions.
    pub open spec fn spec_total_proportion(&self, cost: ExecutionCost, tx_len: u64) -> int {
        Self::spec_dimension_proportion(cost.runtime, self.cost_limits.runtime)
            + Self::spec_dimension_proportion(cost.read_count, self.cost_limits.read_count)
            + Self::spec_dimension_proportion(cost.read_length, self.cost_limits.read_length)
            + Self::spec_dimension_proportion(cost.write_count, self.cost_limits.write_count)
            + Self::spec_dimension_proportion(cost.write_length, self.cost_limits.write_length)
            + Self::spec_dimension_proportion(tx_len, self.block_size_limit)
    }

    /// Clamp a proportion sum into the unit-cost range `1 ..= u64::MAX`.
    pub open spec fn spec_clamp(total: int) -> u64 {
        if total > u64::MAX {
            u64::MAX
        } else if total < 1 {
            1u64
        } else {
            total as u64
        }
    }

    pub fn new(cost_limits: ExecutionCost, block_size_limit: u64) -> (r: Self)
        ensures
            r.cost_limits == cost_limits,
            r.block_size_limit == block_size_limit,
    {
        ProportionalCostMetric { cost_limits, block_size_limit }
    }

    fn dimension_proportion(value: u64, limit: u64) -> (r: u128)
        ensures
            r as int == Self::spec_dimension_proportion(value, limit),
    {
        let den: u128 = if limit == 0 { 1 } else { limit as u128 };
        ((value as u128) * (PROPORTION_RESOLUTION as u128)) / den
    }

    fn clamp(total: u128) -> (r: u64)
        ensures
            r == Self::spec_clamp(total as int),
    {
        if total > u64::MAX as u128 {
            u64::MAX
        } else if total < 1 {
            1
        } else {
            total as u64
        }
    }
}

impl CostMetric for ProportionalCostMetric {
    open spec fn unit_cost_from_cost_and_len(&self, cost: ExecutionCost, tx_len: u64) -> u64 {
        Self::spec_clamp(self.spec_total_proportion(cost, tx_len))
    }

    open spec fn unit_cost_from_len(&self, tx_len: u64) -> u64 {
        Self::spec_clamp(Self::spec_dimension_proportion(tx_len, self.block_size_limit))
    }

    fn from_cost_and_len(&self, cost: &ExecutionCost, tx_len: u64) -> (r: u64) {
        let total: u128 = Self::dimension_proportion(cost.runtime, self.cost_limits.runtime)
            + Self::dimension_proportion(cost.read_count, self.cost_limits.read_count)
            + Self::dimension_proportion(cost.read_length, self.cost_limits.read_length)
            + Self::dimension_proportion(cost.write_count, self.cost_limits.write_count)
            + Self::dimension_proportion(cost.write_length, self.cost_limits.write_length)
            + Self::dimension_proportion(tx_len, self.block_size_limit);
        Self::clamp(total)
    }

    fn from_len(&self, tx_len: u64) -> (r: u64) {
        Self::clamp(Self::dimension_proportion(tx_len, self.block_size_limit))
    }
}

} // verus!
