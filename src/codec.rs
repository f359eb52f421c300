//! The canonical binary form of a block header and its strict decoder.
//!
//! Layout, in order: codec version (1 byte), block index (8), timestamp (8),
//! parent hash (32), merkle root (32), miner address (32), commitment (32),
//! difficulty target (8), nonce (8), the length of `extra_data` (4), then
//! `extra_data` itself. Integers are little-endian; the timestamp is written
//! in two's complement.

use vstd::prelude::*;
use vstd::bytes::{
    lemma_auto_spec_u32_to_from_le_bytes, lemma_auto_spec_u64_to_from_le_bytes,
    spec_u32_from_le_bytes, spec_u32_to_le_bytes, spec_u64_from_le_bytes, spec_u64_to_le_bytes,
    u32_from_le_bytes, u32_to_le_bytes, u64_from_le_bytes, u64_to_le_bytes,
};
use crate::hash::{digest, digest_collision_exists, sha256};
use crate::types::{BlockHeader, HeaderModel, CODEC_VERSION, MAX_EXTRA_DATA_LEN};

verus! {

/// The length of the canonical form of a header without `extra_data`.
pub const HEADER_FIXED_LEN: usize = 165;

/// Why bytes could not be decoded, or a header could not be encoded.
#[derive(Clone, Copy, Debug, PartialEq, Eq, Structural)]
pub enum CodecError {
    /// Fewer bytes than the fixed part of a header.
    Truncated,
    /// A codec version other than the one this core knows.
    UnsupportedVersion,
    /// `extra_data` longer than its bound.
    ExtraDataTooLong,
    /// The declared `extra_data` length differs from the bytes that remain.
    LengthMismatch,
}

/// The canonical bytes of `h`.
pub open spec fn encode_spec(h: HeaderModel) -> Seq<u8> {
    seq![h.codec_version] + spec_u64_to_le_bytes(h.block_index) + spec_u64_to_le_bytes(
        h.timestamp as u64,
    ) + h.parent_hash + h.merkle_root + h.miner_address + h.commitment + spec_u64_to_le_bytes(
        h.difficulty_target,
    ) + spec_u64_to_le_bytes(h.nonce) + spec_u32_to_le_bytes(h.extra_data.len() as u32)
        + h.extra_data
}

/// Why `h` cannot be encoded, where it is not valid.
pub open spec fn encode_error(h: HeaderModel) -> CodecError {
    if h.codec_version != CODEC_VERSION {
        CodecError::UnsupportedVersion
    } else {
        CodecError::ExtraDataTooLong
    }
}

/// The declared length of `extra_data` in bytes `b`.
pub open spec fn declared_extra_len(b: Seq<u8>) -> u32 {
    spec_u32_from_le_bytes(b.subrange(161, 165))
}

/// What strict decoding makes of `b`.
pub open spec fn decode_spec(b: Seq<u8>) -> Result<HeaderModel, CodecError> {
    if b.len() < HEADER_FIXED_LEN {
        Err(CodecError::Truncated)
    } else if b[0] != CODEC_VERSION {
        Err(CodecError::UnsupportedVersion)
    } else if declared_extra_len(b) > MAX_EXTRA_DATA_LEN {
        Err(CodecError::ExtraDataTooLong)
    } else if b.len() != HEADER_FIXED_LEN + declared_extra_len(b) {
        Err(CodecError::LengthMismatch)
    } else {
        Ok(
            HeaderModel {
                codec_version: b[0],
                block_index: spec_u64_from_le_bytes(b.subrange(1, 9)),
                timestamp: spec_u64_from_le_bytes(b.subrange(9, 17)) as i64,
                parent_hash: b.subrange(17, 49),
                merkle_root: b.subrange(49, 81),
                miner_address: b.subrange(81, 113),
                commitment: b.subrange(113, 145),
                difficulty_target: spec_u64_from_le_bytes(b.subrange(145, 153)),
                nonce: spec_u64_from_le_bytes(b.subrange(153, 161)),
                extra_data: b.subrange(165, b.len() as int),
            },
        )
    }
}

/// The consensus hash of `h`: the hash of its canonical bytes.
pub open spec fn header_hash_spec(h: HeaderModel) -> Seq<u8> {
    digest(encode_spec(h))
}

fn append_bytes(out: &mut Vec<u8>, src: &[u8])
    ensures
        final(out)@ == old(out)@ + src@,
{
    let mut i: usize = 0;
    while i < src.len()
        invariant
            i <= src@.len(),
            out@ == old(out)@ + src@.subrange(0, i as int),
        decreases src@.len() - i,
    {
        out.push(src[i]);
        i += 1;
        assert(out@ =~= old(out)@ + src@.subrange(0, i as int));
    }
    assert(src@.subrange(0, src@.len() as int) =~= src@);
}

fn read_hash(bytes: &[u8], start: usize) -> (r: [u8; 32])
    requires
        start + 32 <= bytes@.len(),
    ensures
        r@ == bytes@.subrange(start as int, start + 32),
{
    let n = bytes.len();
    let mut r = [0u8; 32];
    let mut i: usize = 0;
    while i < 32
        invariant
            i <= 32,
            start + 32 <= n,
            n == bytes@.len(),
            forall|k: int| 0 <= k < i ==> r@[k] == bytes@[start + k],
        decreases 32 - i,
    {
        r[i] = bytes[start + i];
        i += 1;
    }
    assert(r@ =~= bytes@.subrange(start as int, start + 32));
    r
}

fn read_u64(bytes: &[u8], start: usize) -> (r: u64)
    requires
        start + 8 <= bytes@.len(),
    ensures
        r == spec_u64_from_le_bytes(bytes@.subrange(start as int, start + 8)),
{
    let n = bytes.len();
    u64_from_le_bytes(vstd::slice::slice_subrange(bytes, start, start + 8))
}

/// The canonical bytes of `h`; an error where `h` has an unknown codec
/// version or `extra_data` beyond its bound.
pub fn encode_block_header(h: &BlockHeader) -> (r: Result<Vec<u8>, CodecError>)
    ensures
        r is Ok <==> h@.valid(),
        r matches Ok(b) ==> b@ == encode_spec(h@),
        r matches Err(e) ==> e == encode_error(h@),
{
    if h.codec_version != CODEC_VERSION {
        return Err(CodecError::UnsupportedVersion);
    }
    if h.extra_data.len() > MAX_EXTRA_DATA_LEN {
        return Err(CodecError::ExtraDataTooLong);
    }
    let mut out: Vec<u8> = Vec::with_capacity(HEADER_FIXED_LEN + h.extra_data.len());
    out.push(h.codec_version);
    let mut field = u64_to_le_bytes(h.block_index);
    out.append(&mut field);
    let mut field = u64_to_le_bytes(h.timestamp as u64);
    out.append(&mut field);
    append_bytes(&mut out, &h.parent_hash);
    append_bytes(&mut out, &h.merkle_root);
    append_bytes(&mut out, &h.miner_address);
    append_bytes(&mut out, &h.commitment);
    let mut field = u64_to_le_bytes(h.difficulty_target);
    out.append(&mut field);
    let mut field = u64_to_le_bytes(h.nonce);
    out.append(&mut field);
    let mut field = u32_to_le_bytes(h.extra_data.len() as u32);
    out.append(&mut field);
    append_bytes(&mut out, h.extra_data.as_slice());
    assert(out@ =~= encode_spec(h@));
    Ok(out)
}

/// Strictly decodes `bytes` into a header. Any byte sequence, empty ones
/// included, gives either a valid header or the error that `decode_spec`
/// names.
pub fn decode_block(bytes: &[u8]) -> (r: Result<BlockHeader, CodecError>)
    ensures
        r matches Ok(h) ==> decode_spec(bytes@) == Ok::<HeaderModel, CodecError>(h@) && h@.valid(),
        r matches Err(e) ==> decode_spec(bytes@) == Err::<HeaderModel, CodecError>(e),
{
    let n = bytes.len();
    if n < HEADER_FIXED_LEN {
        return Err(CodecError::Truncated);
    }
    if bytes[0] != CODEC_VERSION {
        return Err(CodecError::UnsupportedVersion);
    }
    let extra_len = u32_from_le_bytes(vstd::slice::slice_subrange(bytes, 161, 165));
    if extra_len as usize > MAX_EXTRA_DATA_LEN {
        return Err(CodecError::ExtraDataTooLong);
    }
    if n - HEADER_FIXED_LEN != extra_len as usize {
        return Err(CodecError::LengthMismatch);
    }
    let extra = vstd::slice::slice_to_vec(vstd::slice::slice_subrange(bytes, HEADER_FIXED_LEN, n));
    let h = BlockHeader {
        codec_version: bytes[0],
        block_index: read_u64(bytes, 1),
        timestamp: read_u64(bytes, 9) as i64,
        parent_hash: read_hash(bytes, 17),
        merkle_root: read_hash(bytes, 49),
        miner_address: read_hash(bytes, 81),
        commitment: read_hash(bytes, 113),
        difficulty_target: read_u64(bytes, 145),
        nonce: read_u64(bytes, 153),
        extra_data: extra,
    };
    Ok(h)
}

/// The consensus hash of `h`: the hash of its canonical bytes, or the
/// encoding error where `h` cannot be encoded.
pub fn compute_header_hash(h: &BlockHeader) -> (r: Result<[u8; 32], CodecError>)
    ensures
        r is Ok <==> h@.valid(),
        r matches Ok(d) ==> d@ == header_hash_spec(h@),
        r matches Err(e) ==> e == encode_error(h@),
{
    match encode_block_header(h) {
        Ok(bytes) => Ok(sha256(bytes.as_slice())),
        Err(e) => Err(e),
    }
}

/// Decoding the canonical bytes of a valid header gives back that header,
/// field for field; `extra_data` may be empty or of the largest permitted
/// length.
pub proof fn lemma_decode_encode_round_trip(h: HeaderModel)
    requires
        h.valid(),
    ensures
        decode_spec(encode_spec(h)) == Ok::<HeaderModel, CodecError>(h),
{
    lemma_auto_spec_u64_to_from_le_bytes();
    lemma_auto_spec_u32_to_from_le_bytes();
    let e = encode_spec(h);
    let t = h.timestamp;
    assert(((t as u64) as i64) == t) by (bit_vector);
    assert(e.len() == HEADER_FIXED_LEN + h.extra_data.len());
    assert(e.subrange(1, 9) =~= spec_u64_to_le_bytes(h.block_index));
    assert(e.subrange(9, 17) =~= spec_u64_to_le_bytes(t as u64));
    assert(e.subrange(17, 49) =~= h.parent_hash);
    assert(e.subrange(49, 81) =~= h.merkle_root);
    assert(e.subrange(81, 113) =~= h.miner_address);
    assert(e.subrange(113, 145) =~= h.commitment);
    assert(e.subrange(145, 153) =~= spec_u64_to_le_bytes(h.difficulty_target));
    assert(e.subrange(153, 161) =~= spec_u64_to_le_bytes(h.nonce));
    assert(e.subrange(161, 165) =~= spec_u32_to_le_bytes(h.extra_data.len() as u32));
    assert(e.subrange(165, e.len() as int) =~= h.extra_data);
}

/// Strict decoding accepts only canonical bytes: whatever decodes to a
/// header is exactly that header's encoding.
pub proof fn lemma_decode_canonical(b: Seq<u8>)
    requires
        decode_spec(b) is Ok,
    ensures
        encode_spec(decode_spec(b)->Ok_0) == b,
{
    lemma_auto_spec_u64_to_from_le_bytes();
    lemma_auto_spec_u32_to_from_le_bytes();
    let h = decode_spec(b)->Ok_0;
    let x = spec_u64_from_le_bytes(b.subrange(9, 17));
    assert(((x as i64) as u64) == x) by (bit_vector);
    assert(h.extra_data.len() as u32 == declared_extra_len(b));
    assert(spec_u64_to_le_bytes(h.block_index) == b.subrange(1, 9));
    assert(spec_u64_to_le_bytes(h.timestamp as u64) == b.subrange(9, 17));
    assert(spec_u64_to_le_bytes(h.difficulty_target) == b.subrange(145, 153));
    assert(spec_u64_to_le_bytes(h.nonce) == b.subrange(153, 161));
    assert(spec_u32_to_le_bytes(h.extra_data.len() as u32) == b.subrange(161, 165));
    assert(encode_spec(h) =~= b);
}

/// Valid headers that differ in any field have different consensus hashes,
/// unless the hash has a collision.
pub proof fn lemma_header_hash_distinct(h1: HeaderModel, h2: HeaderModel)
    requires
        h1.valid(),
        h2.valid(),
        h1 != h2,
    ensures
        header_hash_spec(h1) != header_hash_spec(h2) || digest_collision_exists(),
{
    lemma_decode_encode_round_trip(h1);
    lemma_decode_encode_round_trip(h2);
    let e1 = encode_spec(h1);
    let e2 = encode_spec(h2);
    assert(e1 != e2);
    if header_hash_spec(h1) == header_hash_spec(h2) {
        assert(digest(e1) == digest(e2));
    }
}

} // verus!
