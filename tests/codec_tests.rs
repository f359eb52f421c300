use coinjecture_core::boundary::{coinjecture_compute_header_hash, CoinjResult};
use coinjecture_core::codec::{
    compute_header_hash, decode_block, encode_block_header, CodecError, HEADER_FIXED_LEN,
};
use coinjecture_core::hash::sha256;
use coinjecture_core::types::{BlockHeader, MAX_EXTRA_DATA_LEN};

fn sample_header() -> BlockHeader {
    BlockHeader {
        codec_version: 1,
        block_index: 100,
        timestamp: 1704067400,
        parent_hash: sha256(b"parent_block_99"),
        merkle_root: sha256(b"merkle_root_100"),
        miner_address: sha256(b"miner_alice"),
        commitment: sha256(b"commitment_100"),
        difficulty_target: 1000,
        nonce: 1337,
        extra_data: b"Network B Migration - v4.5.0+".to_vec(),
    }
}

#[test]
fn genesis_header_hash_golden() {
    let genesis = BlockHeader::genesis();
    assert_eq!(genesis.block_index, 0);
    assert_eq!(genesis.timestamp, 1609459200);
    assert_eq!(genesis.difficulty_target, 1000);
    assert_eq!(genesis.nonce, 0);
    assert!(genesis.is_genesis_consistent());
    let hash = compute_header_hash(&genesis).expect("genesis encodes");
    assert_eq!(
        hex::encode(hash),
        "013cc06c55b2c30c19c38d57a625275f029ffb7e21844ee4b686152ed20db649"
    );
}

#[test]
fn header_with_extra_data_golden() {
    let header = sample_header();
    let bytes = encode_block_header(&header).unwrap();
    assert_eq!(bytes.len(), HEADER_FIXED_LEN + 29);
    assert_eq!(hex::encode(&bytes[..20]), "016400000000000000480192650000000014618b");
    assert_eq!(
        hex::encode(compute_header_hash(&header).unwrap()),
        "9c0ab3b421a0dd516c5f414367069bdd4b98c70032acf91d3a74dc95095930c3"
    );
}

#[test]
fn negative_timestamp_is_twos_complement() {
    let mut header = BlockHeader::default();
    header.timestamp = -5;
    let bytes = encode_block_header(&header).unwrap();
    assert_eq!(hex::encode(&bytes[9..17]), "fbffffffffffffff");
    assert_eq!(decode_block(&bytes).unwrap().timestamp, -5);
}

#[test]
fn header_hash_is_deterministic_and_sensitive() {
    let header = sample_header();
    let h1 = compute_header_hash(&header).unwrap();
    let h2 = compute_header_hash(&header).unwrap();
    assert_eq!(h1, h2);
    let mut modified = header.clone();
    modified.block_index += 1;
    assert_ne!(h1, compute_header_hash(&modified).unwrap());
    let genesis_next = {
        let mut g = BlockHeader::genesis();
        g.block_index = 1;
        g
    };
    assert_eq!(
        hex::encode(compute_header_hash(&genesis_next).unwrap()),
        "2d3a8a8a2e8b4260e6354e3597d25f1e161e491b00b2e4c5082ad0be3912cbbd"
    );
}

#[test]
fn round_trip_with_empty_and_maximal_extra_data() {
    let mut header = sample_header();
    header.extra_data = Vec::new();
    let bytes = encode_block_header(&header).unwrap();
    assert_eq!(bytes.len(), HEADER_FIXED_LEN);
    assert_eq!(decode_block(&bytes).unwrap(), header);

    header.extra_data = vec![0xABu8; MAX_EXTRA_DATA_LEN];
    let bytes = encode_block_header(&header).unwrap();
    assert_eq!(decode_block(&bytes).unwrap(), header);

    let full = sample_header();
    assert_eq!(decode_block(&encode_block_header(&full).unwrap()).unwrap(), full);
}

#[test]
fn encode_rejects_invalid_headers() {
    let mut header = sample_header();
    header.extra_data = vec![0u8; MAX_EXTRA_DATA_LEN + 1];
    assert_eq!(encode_block_header(&header), Err(CodecError::ExtraDataTooLong));
    assert_eq!(compute_header_hash(&header), Err(CodecError::ExtraDataTooLong));
    let mut header = sample_header();
    header.codec_version = 2;
    assert_eq!(encode_block_header(&header), Err(CodecError::UnsupportedVersion));
}

#[test]
fn decode_rejects_empty_and_short_input() {
    assert_eq!(decode_block(&[]), Err(CodecError::Truncated));
    assert_eq!(decode_block(&[1]), Err(CodecError::Truncated));
    assert_eq!(decode_block(&[0u8; HEADER_FIXED_LEN - 1]), Err(CodecError::Truncated));
}

#[test]
fn decode_rejects_unknown_version() {
    let mut bytes = encode_block_header(&sample_header()).unwrap();
    bytes[0] = 7;
    assert_eq!(decode_block(&bytes), Err(CodecError::UnsupportedVersion));
}

#[test]
fn decode_rejects_trailing_and_missing_bytes() {
    let mut bytes = encode_block_header(&sample_header()).unwrap();
    bytes.push(0);
    assert_eq!(decode_block(&bytes), Err(CodecError::LengthMismatch));
    bytes.pop();
    bytes.pop();
    assert_eq!(decode_block(&bytes), Err(CodecError::LengthMismatch));
}

#[test]
fn decode_rejects_oversized_declared_length() {
    let mut bytes = encode_block_header(&BlockHeader::default()).unwrap();
    bytes[161] = 0xFF;
    bytes[162] = 0x01;
    assert_eq!(decode_block(&bytes), Err(CodecError::ExtraDataTooLong));
}

#[test]
fn decode_survives_arbitrary_bytes() {
    for len in 0..400usize {
        let bytes: Vec<u8> = (0..len).map(|i| (i * 31 % 251) as u8).collect();
        let _ = decode_block(&bytes);
    }
}

#[test]
fn header_hash_through_call_surface() {
    let header = sample_header();
    let mut out = [0u8; 32];
    assert_eq!(coinjecture_compute_header_hash(&header, &mut out), CoinjResult::Success);
    assert_eq!(out, compute_header_hash(&header).unwrap());

    let mut bad = sample_header();
    bad.codec_version = 9;
    let mut untouched = [5u8; 32];
    assert_eq!(
        coinjecture_compute_header_hash(&bad, &mut untouched),
        CoinjResult::ErrorEncoding
    );
    assert_eq!(untouched, [5u8; 32]);
}

#[test]
fn prop_header_hash_performance() {
    // PROPERTY: Header hashing is fast (< 1ms)

    let header = BlockHeader::default();

    let start = std::time::Instant::now();
    let _ = compute_header_hash(&header);
    let duration = start.elapsed();

    assert!(
        duration.as_millis() < 1,
        "Header hash took {:?}, expected < 1ms",
        duration
    );
}

#[test]
fn codec_version_on_call_surface() {
    assert_eq!(coinjecture_core::boundary::coinjecture_codec_version(), 1);
}
