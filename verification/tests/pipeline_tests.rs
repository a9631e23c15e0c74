use sha256_bench::circuit::CircuitShape;
use sha256_bench::errors::BenchError;
use sha256_bench::pipeline::Runner;
use sha256_bench::pipeline::Stage;

#[test]
fn capacity_beyond_generator_refused_at_start() {
    match Runner::new(32, CircuitShape::new(1)) {
        Err(e) => assert_eq!(e, BenchError::CapacityTooLarge),
        Ok(_) => panic!("capacity 32 must be refused"),
    }
}

#[test]
fn steps_out_of_order_are_refused() {
    let mut run = Runner::new(17, CircuitShape::new(1)).unwrap();
    assert_eq!(run.note_keys(true).unwrap_err(), BenchError::OutOfOrder);
    assert_eq!(run.provide_proof(Some(vec![1])).unwrap_err(), BenchError::OutOfOrder);
    assert_eq!(run.note_write(true).unwrap_err(), BenchError::OutOfOrder);
    assert_eq!(run.stage(), Stage::AwaitParams);
}

#[test]
fn corrupt_cache_fails_the_run() {
    let mut run = Runner::new(18, CircuitShape::new(1)).unwrap();
    assert_eq!(run.provide_cache(Some(vec![0])).unwrap_err(), BenchError::CorruptParams);
    assert_eq!(run.stage(), Stage::Failed);
    assert_eq!(run.failure(), Some(BenchError::CorruptParams));
    // a failed run accepts no further step
    assert_eq!(run.note_keys(true).unwrap_err(), BenchError::OutOfOrder);
}

#[test]
fn small_capacity_keygen_failure_is_classified() {
    // parameters of capacity 10 exist, but the hash gadget's lookup table
    // cannot fit in 2^10 rows: derivation fails (see the proving tests for
    // the failure itself) and the run ends before any proving work
    let mut run = Runner::new(10, CircuitShape::new(1)).unwrap();
    let writeback = run.provide_cache(None).unwrap();
    assert!(writeback.is_some());
    assert_eq!(run.note_keys(false).unwrap_err(), BenchError::CapacityTooSmall);
    assert_eq!(run.stage(), Stage::Failed);
    assert_eq!(run.failure(), Some(BenchError::CapacityTooSmall));
    assert_eq!(run.provide_proof(Some(vec![1])).unwrap_err(), BenchError::OutOfOrder);
}

#[test]
fn empty_proof_is_refused() {
    let mut run = Runner::new(6, CircuitShape::new(1)).unwrap();
    run.provide_cache(None).unwrap();
    run.note_keys(true).unwrap();
    assert_eq!(run.stage(), Stage::AwaitProof);
    assert_eq!(run.provide_proof(Some(Vec::new())).unwrap_err(), BenchError::ProvingFailed);
    assert_eq!(run.stage(), Stage::Failed);
}

#[test]
fn absent_proof_is_fatal() {
    let mut run = Runner::new(6, CircuitShape::new(1)).unwrap();
    run.provide_cache(None).unwrap();
    run.note_keys(true).unwrap();
    assert_eq!(run.provide_proof(None).unwrap_err(), BenchError::ProvingFailed);
    assert_eq!(run.failure(), Some(BenchError::ProvingFailed));
}

#[test]
fn write_failure_is_fatal() {
    let mut run = Runner::new(6, CircuitShape::new(1)).unwrap();
    run.provide_cache(None).unwrap();
    run.note_keys(true).unwrap();
    run.provide_proof(Some(vec![9, 9, 9])).unwrap();
    assert_eq!(run.note_write(false).unwrap_err(), BenchError::WriteFailed);
    assert_eq!(run.stage(), Stage::Failed);
    assert_eq!(run.failure(), Some(BenchError::WriteFailed));
}

#[test]
fn run_stages_in_order() {
    let shape = CircuitShape::new(1);
    let mut run = Runner::new(6, shape).unwrap();
    assert_eq!(run.cache_name().as_str(), "./sha256_params_k_6");
    let writeback = run.provide_cache(None).unwrap();
    assert!(writeback.is_some());
    assert_eq!(run.stage(), Stage::AwaitKeys);
    run.note_keys(true).unwrap();
    assert_eq!(run.stage(), Stage::AwaitProof);
    let handle = run.keys().unwrap();
    assert_eq!(handle.capacity, 6);
    assert_eq!(handle.repetition_count, 1);
    let proof = vec![7u8; 64];
    let (name, bytes) = run.provide_proof(Some(proof.clone())).unwrap();
    assert_eq!(name.as_str(), "./sha256_proof_k_6_count_1");
    assert_eq!(bytes, proof);
    assert!(!bytes.is_empty());
    run.note_write(true).unwrap();
    assert_eq!(run.stage(), Stage::Done);
    assert_eq!(run.failure(), None);
}

#[test]
fn cache_hit_run_feeds_back_the_blob() {
    // the blob a first run writes back is accepted by a second run of the
    // same capacity, which then has nothing to persist
    let mut first = Runner::new(6, CircuitShape::new(1)).unwrap();
    let blob = first.provide_cache(None).unwrap().unwrap();
    let mut second = Runner::new(6, CircuitShape::new(2)).unwrap();
    let writeback = second.provide_cache(Some(blob)).unwrap();
    assert!(writeback.is_none());
    assert_eq!(second.stage(), Stage::AwaitKeys);
}
