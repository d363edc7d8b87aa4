use cost_estimates::costs::ExecutionCost;
use cost_estimates::fee_scalar::ScalarFeeRateEstimator;
use cost_estimates::metrics::{CostMetric, UnitCostMetric};
use cost_estimates::receipts::{BlockReceipt, PayloadKind, TxReceipt};
use cost_estimates::store::MemoryStore;
use cost_estimates::{EstimatorError, FeeRateEstimate};

fn instantiate_test_db<CM: CostMetric>(
    m: CM,
) -> ScalarFeeRateEstimator<CM, MemoryStore> {
    ScalarFeeRateEstimator::open(MemoryStore::new(), m)
        .expect("Test failure: could not open fee rate DB")
}

fn make_block_receipt(tx_receipts: Vec<TxReceipt>) -> BlockReceipt {
    BlockReceipt { tx_receipts }
}

fn make_dummy_coinbase_tx() -> TxReceipt {
    TxReceipt {
        payload_kind: PayloadKind::Reward,
        fee_paid: 0,
        byte_length: 1,
        execution_cost: ExecutionCost::zero(),
    }
}

fn make_dummy_transfer_tx(fee: u64) -> TxReceipt {
    TxReceipt {
        payload_kind: PayloadKind::Transfer,
        fee_paid: fee,
        byte_length: 1,
        execution_cost: ExecutionCost::zero(),
    }
}

fn make_dummy_cc_tx(fee: u64) -> TxReceipt {
    TxReceipt {
        payload_kind: PayloadKind::ContractCall,
        fee_paid: fee,
        byte_length: 1,
        execution_cost: ExecutionCost::zero(),
    }
}

#[test]
fn test_empty_fee_estimator() {
    let metric = UnitCostMetric;
    let estimator = instantiate_test_db(metric);
    assert_eq!(
        estimator
            .get_rate_estimates()
            .expect_err("Empty rate estimator should error."),
        EstimatorError::NoEstimateAvailable
    );
}

#[test]
fn test_fee_estimator() {
    let metric = UnitCostMetric;
    let mut estimator = instantiate_test_db(metric);

    assert_eq!(
        estimator
            .get_rate_estimates()
            .expect_err("Empty rate estimator should error."),
        EstimatorError::NoEstimateAvailable,
        "Empty rate estimator should return no estimate available"
    );

    let empty_block_receipt = make_block_receipt(vec![]);
    estimator
        .notify_block(&empty_block_receipt)
        .expect("Should be able to process an empty block");

    assert_eq!(
        estimator
            .get_rate_estimates()
            .expect_err("Empty rate estimator should error."),
        EstimatorError::NoEstimateAvailable,
        "Empty block should not update the estimator"
    );

    let coinbase_only_receipt = make_block_receipt(vec![make_dummy_coinbase_tx()]);

    estimator
        .notify_block(&coinbase_only_receipt)
        .expect("Should be able to process an empty block");

    assert_eq!(
        estimator
            .get_rate_estimates()
            .expect_err("Empty rate estimator should error."),
        EstimatorError::NoEstimateAvailable,
        "Coinbase-only block should not update the estimator"
    );

    let single_tx_receipt =
        make_block_receipt(vec![make_dummy_coinbase_tx(), make_dummy_cc_tx(1)]);

    estimator
        .notify_block(&single_tx_receipt)
        .expect("Should be able to process block receipt");

    assert_eq!(
        estimator
            .get_rate_estimates()
            .expect("Should be able to create estimate now"),
        FeeRateEstimate {
            fast: 1,
            medium: 1,
            slow: 1
        }
    );

    let double_tx_receipt = make_block_receipt(vec![
        make_dummy_coinbase_tx(),
        make_dummy_cc_tx(1),
        make_dummy_transfer_tx(10),
    ]);

    estimator
        .notify_block(&double_tx_receipt)
        .expect("Should be able to process block receipt");

    // estimate should increase for "fast" and "medium":
    // 10 * 1/2 + 1 * 1/2 = 5
    assert_eq!(
        estimator
            .get_rate_estimates()
            .expect("Should be able to create estimate now"),
        FeeRateEstimate {
            fast: 5,
            medium: 5,
            slow: 1
        }
    );

    // estimate should increase for "fast" and "medium":
    // new value: 10 * 1/2 + 5 * 1/2 = 7
    estimator
        .notify_block(&double_tx_receipt)
        .expect("Should be able to process block receipt");
    assert_eq!(
        estimator
            .get_rate_estimates()
            .expect("Should be able to create estimate now"),
        FeeRateEstimate {
            fast: 7,
            medium: 7,
            slow: 1
        }
    );

    // estimate should increase for "fast" and "medium":
    // new value: 10 * 1/2 + 7 * 1/2 = 8
    estimator
        .notify_block(&double_tx_receipt)
        .expect("Should be able to process block receipt");
    assert_eq!(
        estimator
            .get_rate_estimates()
            .expect("Should be able to create estimate now"),
        FeeRateEstimate {
            fast: 8,
            medium: 8,
            slow: 1
        }
    );

    // estimate should increase for "fast" and "medium":
    // new value: 10 * 1/2 + 8 * 1/2 = 9
    estimator
        .notify_block(&double_tx_receipt)
        .expect("Should be able to process block receipt");
    assert_eq!(
        estimator
            .get_rate_estimates()
            .expect("Should be able to create estimate now"),
        FeeRateEstimate {
            fast: 9,
            medium: 9,
            slow: 1
        }
    );

    // estimate should increase for "fast" and "medium":
    // new value: 10 * 1/2 + 9 * 1/2 = 9
    // note: we get a little "stuck" by the integer weighting here: 9/2 = 4.5, and 10/2 = 5, so we get stuck at 9,
    //       even though if we had more accuracy, we'd move to 10 on the estimate. This isn't too damaging in practice:
    //       fee rates are expressed in the chain's smallest fee unit, which should have much more resolution than this.
    estimator
        .notify_block(&double_tx_receipt)
        .expect("Should be able to process block receipt");
    assert_eq!(
        estimator
            .get_rate_estimates()
            .expect("Should be able to create estimate now"),
        FeeRateEstimate {
            fast: 9,
            medium: 9,
            slow: 1
        }
    );

    // make a large block receipt, and expect:
    //  measured fast = 950, medium = 500, slow = 50
    //  new fast: 950/2 + 9/2 = 475 + 4 = 479
    //  new medium: 500/2 + 9/2 = 250 + 4 = 254
    //  new slow: 50/2 + 1/2 = 25 + 0 = 25

    // the same 100 fees as an in-order iteration would produce, in a fixed
    // scrambled order (the estimator sorts, so the order must not matter)
    let mut receipts: Vec<TxReceipt> = Vec::new();
    for i in 0..100u64 {
        receipts.push(make_dummy_cc_tx(((i * 37) % 100) * 10));
    }

    estimator
        .notify_block(&make_block_receipt(receipts))
        .expect("Should be able to process block receipt");

    assert_eq!(
        estimator
            .get_rate_estimates()
            .expect("Should be able to create estimate now"),
        FeeRateEstimate {
            fast: 479,
            medium: 254,
            slow: 25
        }
    );
}
