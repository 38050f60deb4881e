//! The chunked cost estimator: accumulation, completion, overflow, and the
//! invariance of the total under different chunk bounds.

use ckb_vm_interpreter::estimator::estimate_in_chunks;
use ckb_vm_interpreter::estimator::ChunkedCostEstimator;
use ckb_vm_interpreter::estimator::EstimatorError;

fn synthetic_steps() -> Vec<u64> {
    // 1700 outer-environment steps with a repeating cost pattern: not a
    // multiple of either chunk bound under test.
    (0..1700u64).map(|i| (i % 7) + 1).collect()
}

#[test]
fn chunk_bounds_do_not_change_the_total() {
    let steps = synthetic_steps();
    let with_500 = estimate_in_chunks(&steps, 500).expect("chunked by 500");
    let with_1000 = estimate_in_chunks(&steps, 1000).expect("chunked by 1000");
    assert_eq!(with_500, with_1000);
}

#[test]
fn chunked_total_is_the_plain_sum() {
    let steps = synthetic_steps();
    let expected: u64 = steps.iter().sum();
    assert_eq!(estimate_in_chunks(&steps, 1000), Ok(expected));
    assert_eq!(estimate_in_chunks(&steps, 1), Ok(expected));
    assert_eq!(estimate_in_chunks(&steps, 1700), Ok(expected));
    assert_eq!(estimate_in_chunks(&steps, 5000), Ok(expected));
}

#[test]
fn empty_trace_costs_nothing() {
    let steps: Vec<u64> = Vec::new();
    assert_eq!(estimate_in_chunks(&steps, 1000), Ok(0));
}

#[test]
fn overflowing_trace_is_reported() {
    let steps = vec![u64::MAX, 1];
    assert_eq!(estimate_in_chunks(&steps, 1), Err(EstimatorError::GasOverflow));
    assert_eq!(estimate_in_chunks(&steps, 2), Err(EstimatorError::GasOverflow));
}

#[test]
fn estimator_accumulates_chunk_by_chunk() {
    let mut estimator = ChunkedCostEstimator::new();
    assert_eq!(estimator.current_total(), 0);
    assert_eq!(estimator.chunk_count(), 0);
    assert!(!estimator.is_done());
    estimator.record_chunk(10, false).expect("first chunk");
    estimator.record_chunk(32, false).expect("second chunk");
    assert!(!estimator.is_done());
    estimator.record_chunk(0, true).expect("final chunk");
    assert_eq!(estimator.current_total(), 42);
    assert_eq!(estimator.chunk_count(), 3);
    assert!(estimator.is_done());
}

#[test]
fn estimator_rejects_an_overflowing_chunk() {
    let mut estimator = ChunkedCostEstimator::new();
    estimator.record_chunk(u64::MAX, false).expect("maximal chunk");
    assert_eq!(estimator.record_chunk(1, false), Err(EstimatorError::GasOverflow));
    // The failed chunk left the state unchanged.
    assert_eq!(estimator.current_total(), u64::MAX);
    assert_eq!(estimator.chunk_count(), 1);
    assert!(!estimator.is_done());
}
