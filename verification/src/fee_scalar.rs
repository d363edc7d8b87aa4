//! The scalar fee-rate estimator: it learns from each confirmed block and
//! serves the last committed three-tier estimate.

use vstd::prelude::*;

use crate::metrics::CostMetric;
use crate::receipts::{is_eligible, BlockReceipt, PayloadKind, TxReceipt};
use crate::sampling::{
    next_estimate, sample_estimate, sort_fee_rates, spec_next_estimate, spec_sample_estimate,
    spec_sorted_ascending,
};
use crate::store::EstimateStore;
use crate::{EstimatorError, FeeRateEstimate};

verus! {

/// The unit cost a metric assigns to one transaction: from its byte length
/// alone where it has no execution profile, else from its usage vector and
/// length.
pub open spec fn spec_unit_cost<M: CostMetric>(m: M, tx: TxReceipt) -> u64 {
    if tx.payload_kind == PayloadKind::Transfer {
        m.unit_cost_from_len(tx.byte_length)
    } else {
        m.unit_cost_from_cost_and_len(tx.execution_cost, tx.byte_length)
    }
}

/// A transaction's fee rate: fee paid over unit cost, floor division.  A
/// zero unit cost is a denominator hazard and counts as 1.
pub open spec fn spec_fee_rate(fee: u64, unit_cost: u64) -> u64 {
    (fee as int / (if unit_cost == 0 {
        1int
    } else {
        unit_cost as int
    })) as u64
}

pub open spec fn spec_receipt_fee_rate<M: CostMetric>(m: M, tx: TxReceipt) -> u64 {
    spec_fee_rate(tx.fee_paid, spec_unit_cost(m, tx))
}

/// The fee rates of a block's eligible transactions, in block order.
pub open spec fn spec_eligible_fee_rates<M: CostMetric>(m: M, txs: Seq<TxReceipt>) -> Seq<u64>
    decreases txs.len(),
{
    if txs.len() == 0 {
        Seq::empty()
    } else {
        let rest = spec_eligible_fee_rates(m, txs.drop_last());
        if is_eligible(txs.last()) {
            rest.push(spec_receipt_fee_rate(m, txs.last()))
        } else {
            rest
        }
    }
}

/// What one confirmed block does to the estimator state: nothing where no
/// transaction is eligible; otherwise one percentile sample per tier,
/// blended against the prior estimate (or taken as is for the first ever
/// observation).
pub open spec fn spec_block_update<M: CostMetric>(
    m: M,
    prior: Option<FeeRateEstimate>,
    txs: Seq<TxReceipt>,
) -> Option<FeeRateEstimate> {
    let rates = spec_eligible_fee_rates(m, txs);
    if rates.len() == 0 {
        prior
    } else {
        Some(spec_next_estimate(prior, spec_sample_estimate(spec_sorted_ascending(rates))))
    }
}

fn compute_fee_rate<M: CostMetric>(metric: &M, tx: &TxReceipt) -> (r: u64)
    ensures
        r == spec_receipt_fee_rate(*metric, *tx),
{
    let unit_cost = if tx.payload_kind == PayloadKind::Transfer {
        metric.from_len(tx.byte_length)
    } else {
        metric.from_cost_and_len(&tx.execution_cost, tx.byte_length)
    };
    let den = if unit_cost == 0 {
        1
    } else {
        unit_cost
    };
    tx.fee_paid / den
}

fn eligible_fee_rates<M: CostMetric>(metric: &M, txs: &Vec<TxReceipt>) -> (r: Vec<u64>)
    ensures
        r@ == spec_eligible_fee_rates(*metric, txs@),
{
    let mut out: Vec<u64> = Vec::new();
    proof {
        assert(txs@.take(0) =~= Seq::<TxReceipt>::empty());
    }
    let mut k: usize = 0;
    while k < txs.len()
        invariant
            k <= txs@.len(),
            out@ == spec_eligible_fee_rates(*metric, txs@.take(k as int)),
        decreases txs@.len() - k,
    {
        let tx = &txs[k];
        proof {
            assert(txs@.take(k as int + 1).drop_last() =~= txs@.take(k as int));
            assert(txs@.take(k as int + 1).last() == txs@[k as int]);
        }
        if tx.payload_kind != PayloadKind::Reward {
            let rate = compute_fee_rate(metric, tx);
            out.push(rate);
        }
        k += 1;
    }
    proof {
        assert(txs@.take(txs@.len() as int) =~= txs@);
    }
    out
}

/// The concrete estimator: a cost metric strategy, a persisted
/// single-record store, and an in-memory cache of the last committed
/// estimate.  It is the single writer of its store; readers only ever see
/// a complete three-tier snapshot, never a partially updated one.
pub struct ScalarFeeRateEstimator<M: CostMetric, S: EstimateStore> {
    metric: M,
    store: S,
    cached_estimate: Option<FeeRateEstimate>,
}

impl<M: CostMetric, S: EstimateStore> ScalarFeeRateEstimator<M, S> {
    /// The estimator is consistent: the in-memory cache mirrors the
    /// store's durable record.
    pub closed spec fn wf(&self) -> bool {
        self.cached_estimate == self.store.contents()
    }

    /// The estimator state: the last committed estimate, absent until a
    /// block with an eligible transaction has been observed.
    pub closed spec fn estimate(&self) -> Option<FeeRateEstimate> {
        self.cached_estimate
    }

    /// The cost metric strategy bound at construction.
    pub closed spec fn metric(&self) -> M {
        self.metric
    }

    /// Open the estimator over an already-opened record store: load the
    /// persisted estimate, if any, into the cache and bind the metric.  A
    /// store that cannot be read is fatal to construction.
    pub fn open(store: S, metric: M) -> (r: Result<Self, EstimatorError>)
        ensures
            match r {
                Ok(est) => est.wf() && est.estimate() == store.contents() && est.metric()
                    == metric && est.spec_store() == store,
                Err(e) => e == EstimatorError::StoreOpenFailure,
            },
    {
        let loaded = store.read_estimate();
        match loaded {
            Ok(v) => Ok(ScalarFeeRateEstimator { metric, store, cached_estimate: v }),
            Err(_) => Err(EstimatorError::StoreOpenFailure),
        }
    }

    /// Read the current estimate.  This never computes anything: it
    /// returns the last committed result, or reports that no block has
    /// yet produced an eligible sample.
    pub fn get_rate_estimates(&self) -> (r: Result<FeeRateEstimate, EstimatorError>)
        ensures
            match r {
                Ok(v) => self.estimate() == Some(v),
                Err(e) => e == EstimatorError::NoEstimateAvailable && self.estimate() is None,
            },
    {
        match &self.cached_estimate {
            Some(e) => Ok(*e),
            None => Err(EstimatorError::NoEstimateAvailable),
        }
    }

    /// The record store the estimator owns.
    pub closed spec fn spec_store(&self) -> S {
        self.store
    }

    /// Hand the record store back, consuming the estimator; the last
    /// committed estimate stays durable in it.
    pub fn into_store(self) -> (r: S)
        ensures
            r == self.spec_store(),
            self.wf() ==> r.contents() == self.estimate(),
    {
        self.store
    }

    /// Learn from one confirmed block.  A block without eligible
    /// transactions is a success that changes nothing.  Otherwise the new
    /// estimate is persisted before it is cached: on a write failure both
    /// the store and the cache keep their pre-update values, and the
    /// caller may retry on the next block.
    pub fn notify_block(&mut self, receipt: &BlockReceipt) -> (r: Result<(), EstimatorError>)
        requires
            old(self).wf(),
        ensures
            final(self).wf(),
            final(self).metric() == old(self).metric(),
            ({
                let updated = spec_block_update(
                    old(self).metric(),
                    old(self).estimate(),
                    receipt.tx_receipts@,
                );
                match r {
                    Ok(()) => final(self).estimate() == updated,
                    Err(e) => e == EstimatorError::StoreWriteFailure && spec_eligible_fee_rates(
                        old(self).metric(),
                        receipt.tx_receipts@,
                    ).len() != 0 && final(self).estimate() == old(self).estimate(),
                }
            }),
    {
        let rates = eligible_fee_rates(&self.metric, &receipt.tx_receipts);
        if rates.len() == 0 {
            return Ok(());
        }
        let sorted = sort_fee_rates(&rates);
        let sampled = sample_estimate(&sorted);
        let updated = next_estimate(&self.cached_estimate, &sampled);
        match self.store.upsert_estimate(&updated) {
            Ok(()) => {
                self.cached_estimate = Some(updated);
                Ok(())
            },
            Err(_) => Err(EstimatorError::StoreWriteFailure),
        }
    }
}

/// Idempotence of emptiness: a block without an eligible transaction
/// leaves any estimator state exactly as it was, no matter how often it
/// is replayed; in particular it never creates a first estimate.
pub proof fn lemma_empty_block_is_identity<M: CostMetric>(
    m: M,
    prior: Option<FeeRateEstimate>,
    txs: Seq<TxReceipt>,
)
    requires
        spec_eligible_fee_rates(m, txs).len() == 0,
    ensures
        spec_block_update(m, prior, txs) == prior,
        spec_block_update(m, spec_block_update(m, prior, txs), txs) == prior,
{
}

/// First-observation exactness: the first block whose eligible set is one
/// single transaction of unit cost 1 sets every tier to exactly that
/// transaction's fee.
pub proof fn lemma_first_observation_exact<M: CostMetric>(m: M, txs: Seq<TxReceipt>, tx: TxReceipt)
    requires
        spec_eligible_fee_rates(m, txs) =~= seq![spec_receipt_fee_rate(m, tx)],
        spec_unit_cost(m, tx) == 1,
    ensures
        spec_block_update(m, None, txs) == Some(
            FeeRateEstimate { fast: tx.fee_paid, medium: tx.fee_paid, slow: tx.fee_paid },
        ),
{
    let rates = spec_eligible_fee_rates(m, txs);
    let f = spec_receipt_fee_rate(m, tx);
    assert(f == ((tx.fee_paid as int / 1int) as u64));
    assert(f == tx.fee_paid);
    crate::sampling::lemma_rate_leq_total_ordering();
    rates.lemma_sort_by_ensures(crate::sampling::rate_leq());
    vstd::seq_lib::lemma_sorted_unique(
        spec_sorted_ascending(rates),
        rates,
        crate::sampling::rate_leq(),
    );
    assert(spec_sorted_ascending(rates) =~= seq![f]);
    assert(spec_sample_estimate(seq![f]) == (FeeRateEstimate { fast: f, medium: f, slow: f }));
}

} // verus!
