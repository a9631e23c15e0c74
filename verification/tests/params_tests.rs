use sha256_bench::errors::BenchError;
use sha256_bench::params::acquire;
use sha256_bench::params::SetupParameters;

fn expect_corrupt(r: Result<(SetupParameters, Option<Vec<u8>>), BenchError>) {
    match r {
        Err(e) => assert_eq!(e, BenchError::CorruptParams),
        Ok(_) => panic!("a corrupt cache entry must be refused"),
    }
}

#[test]
fn miss_generates_and_returns_blob() {
    let (p, writeback) = acquire(5, None).unwrap();
    assert_eq!(p.capacity(), 5);
    let blob = writeback.expect("a miss must hand back the serialization");
    assert!(blob.len() > 4);
    // the serialization opens with the capacity, little endian
    assert_eq!(&blob[0..4], &[5, 0, 0, 0]);
    // and is byte-identical to what the parameters re-serialize to
    assert_eq!(p.to_cache_blob(), blob);
}

#[test]
fn second_acquire_is_a_byte_identical_hit() {
    let (p1, writeback) = acquire(5, None).unwrap();
    let blob = writeback.unwrap();
    let (p2, writeback2) = acquire(5, Some(blob.clone())).unwrap();
    // the cache hit performs no regeneration and writes nothing back
    assert!(writeback2.is_none());
    assert_eq!(p2.capacity(), 5);
    // byte-identical parameters on the second call
    assert_eq!(p2.to_cache_blob(), blob);
    assert_eq!(p2.to_cache_blob(), p1.to_cache_blob());
}

#[test]
fn regeneration_is_deterministic() {
    // generation draws from a fixed oracle: a lost cache entry would be
    // regenerated byte-identically
    let (_, wb1) = acquire(5, None).unwrap();
    let (_, wb2) = acquire(5, None).unwrap();
    assert_eq!(wb1.unwrap(), wb2.unwrap());
}

#[test]
fn truncated_blob_is_corrupt() {
    expect_corrupt(acquire(5, Some(vec![1, 2, 3])));
    expect_corrupt(acquire(5, Some(Vec::new())));
}

#[test]
fn wrong_capacity_blob_is_corrupt() {
    let (_, writeback) = acquire(5, None).unwrap();
    let blob = writeback.unwrap();
    // a valid entry, but cached under the wrong capacity
    expect_corrupt(acquire(6, Some(blob)));
}

#[test]
fn garbage_after_valid_prefix_is_corrupt() {
    let bad = vec![5, 0, 0, 0, 9, 9, 9];
    expect_corrupt(acquire(5, Some(bad)));
}

#[test]
fn trailing_bytes_are_corrupt() {
    // a serialization with bytes appended is not a serialization
    let (_, writeback) = acquire(5, None).unwrap();
    let mut blob = writeback.unwrap();
    blob.push(0);
    expect_corrupt(acquire(5, Some(blob)));
}

#[test]
fn flipped_point_byte_is_corrupt() {
    let (_, writeback) = acquire(5, None).unwrap();
    let mut blob = writeback.unwrap();
    let mid = blob.len() / 2;
    blob[mid] ^= 0xff;
    // either an invalid point encoding or a different point; the reader
    // rejects invalid encodings, which a flipped high byte produces
    match acquire(5, Some(blob)) {
        Err(e) => assert_eq!(e, BenchError::CorruptParams),
        Ok((p, wb)) => {
            // a flip that still decodes yields a well-formed entry
            assert_eq!(p.capacity(), 5);
            assert!(wb.is_none());
        },
    }
}
