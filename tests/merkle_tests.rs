use coinjecture_core::boundary::{coinjecture_compute_merkle_root, CoinjResult};
use coinjecture_core::hash::sha256;
use coinjecture_core::merkle::compute_merkle_root;

#[test]
fn merkle_root_of_no_leaves_is_zero() {
    assert_eq!(compute_merkle_root(&[]), [0u8; 32]);
}

#[test]
fn merkle_root_of_one_leaf_is_the_leaf() {
    let leaf = [0x42u8; 32];
    assert_eq!(compute_merkle_root(&[leaf]), leaf);
}

#[test]
fn merkle_root_of_two_leaves_golden() {
    let root = compute_merkle_root(&[[0x11u8; 32], [0x22u8; 32]]);
    assert_eq!(
        hex::encode(root),
        "5189c77d29fe5d546a045ec46986852785fea5c13ac7da9c115ff5fb6edf817c"
    );
}

#[test]
fn merkle_root_of_odd_count_duplicates_last() {
    let root = compute_merkle_root(&[[0xAAu8; 32], [0xBBu8; 32], [0xCCu8; 32]]);
    assert_eq!(
        hex::encode(root),
        "b3a419030971470a7bb3b165e163a11973b3e81aa1dfb29c0769725346a76fbf"
    );
}

#[test]
fn merkle_root_changes_on_reverse() {
    let leaves = [[0xAAu8; 32], [0xBBu8; 32], [0xCCu8; 32]];
    let mut reversed = leaves;
    reversed.reverse();
    let root = compute_merkle_root(&reversed);
    assert_eq!(
        hex::encode(root),
        "24d274967416fbf30dad2066d075504a7dfaa3210810b5289b10029de4350773"
    );
    assert_ne!(root, compute_merkle_root(&leaves));
}

#[test]
fn merkle_root_is_deterministic() {
    let leaves: Vec<[u8; 32]> = (0..7u8).map(|i| sha256(&[i])).collect();
    assert_eq!(compute_merkle_root(&leaves), compute_merkle_root(&leaves));
}

#[test]
fn merkle_root_through_call_surface() {
    let mut out = [9u8; 32];
    let result = coinjecture_compute_merkle_root(&[[0x11u8; 32], [0x22u8; 32]], &mut out);
    assert_eq!(result, CoinjResult::Success);
    assert_eq!(out, compute_merkle_root(&[[0x11u8; 32], [0x22u8; 32]]));
}

#[test]
fn prop_merkle_1k_performance() {
    // PROPERTY: Merkle root of 1K leaves computes in < 50ms

    let leaves: Vec<[u8; 32]> = (0..1000).map(|i| {
        let mut hash = [0u8; 32];
        hash[0] = (i % 256) as u8;
        hash[1] = ((i / 256) % 256) as u8;
        hash
    }).collect();

    let start = std::time::Instant::now();
    let _ = compute_merkle_root(&leaves);
    let duration = start.elapsed();

    assert!(
        duration.as_millis() < 50,
        "Merkle(1K) took {:?}, expected < 50ms",
        duration
    );
}
