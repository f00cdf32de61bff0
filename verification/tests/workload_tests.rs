use cpu_hash::Sha256Accumulator;
use cpu_hash::Workload;
use cpu_hash::benchmark_tag_vec;
use cpu_hash::to_hex;

const EMPTY_DIGEST: &str = "e3b0c44298fc1c149afbf4c8996fb92427ae41e4649b934ca495991b7852b855";

#[test]
fn determinism_repeated_runs() {
    let w = Workload::standard();
    let first = w.run(5);
    let second = w.run(5);
    assert_eq!(first, second);
    assert_eq!(w.run(0), w.run(0));
}

#[test]
fn iteration_count_sensitivity() {
    let w = Workload::standard();
    for n in [0u64, 1, 2, 100] {
        assert_ne!(w.run(n), w.run(n + 1));
    }
}

#[test]
fn zero_iterations_is_empty_digest() {
    let w = Workload::standard();
    let digest = w.run(0);
    assert_eq!(to_hex(&digest), EMPTY_DIGEST);
}

#[test]
fn single_iteration_known_digest() {
    let w = Workload::standard();
    let digest = w.run(1);
    assert_eq!(
        to_hex(&digest),
        "bbe39f4462976f8a91a3483cce2156e90b31f9823b9ef14aa3db1d16ae4578db"
    );
}

#[test]
fn two_iterations_known_digest() {
    let w = Workload::standard();
    let digest = w.run(2);
    assert_eq!(
        to_hex(&digest),
        "6064ecdd1f635f861a3dd5c4474dc179bdc21a57f2f7b08e678b0cb8ee3c5070"
    );
}

#[test]
fn accumulator_known_vector() {
    let mut acc = Sha256Accumulator::new();
    acc.update(b"abc");
    let digest = acc.finalize();
    assert_eq!(
        to_hex(&digest),
        "ba7816bf8f01cfea414140de5dae2223b00361a396177a9cb410ff61f20015ad"
    );
}

#[test]
fn accumulator_streaming_matches_one_shot() {
    let mut split = Sha256Accumulator::new();
    split.update(b"ab");
    split.update(b"c");
    let mut whole = Sha256Accumulator::new();
    whole.update(b"abc");
    assert_eq!(split.finalize(), whole.finalize());
}

#[test]
fn benchmark_tag_is_constant() {
    assert_eq!(benchmark_tag_vec(), b"cpu-hash-benchmark".to_vec());
}

#[test]
fn tag_too_long_is_rejected() {
    assert!(Workload::new(vec![7u8; 25]).is_none());
    assert!(Workload::new(vec![7u8; 24]).is_some());
    assert!(Workload::new(Vec::new()).is_some());
}

#[test]
fn digest_depends_only_on_tag_and_count() {
    let first = Workload::new(b"tag".to_vec()).unwrap();
    let second = Workload::new(b"tag".to_vec()).unwrap();
    assert_eq!(first.run(3), second.run(3));
}
