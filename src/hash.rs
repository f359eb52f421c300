//! The hash primitive that every commitment of the chain is built on.

use vstd::prelude::*;

verus! {

/// What SHA-256 yields on `data`.
pub uninterp spec fn sha256_of(data: Seq<u8>) -> Seq<u8>;

/// The 32 bytes of the SHA-256 digest of `data`.
pub open spec fn digest(data: Seq<u8>) -> Seq<u8> {
    Seq::new(32, |i: int| sha256_of(data)[i])
}

/// Two distinct byte sequences with the same digest exist.
pub open spec fn digest_collision_exists() -> bool {
    exists|x: Seq<u8>, y: Seq<u8>| x != y && #[trigger] digest(x) == #[trigger] digest(y)
}

/// Relies on `sha2::Sha256::digest` (through the `Digest` trait): the SHA-256
/// digest of the input, as a 32-byte array.
#[verifier::external_body]
fn sha256_digest(data: &[u8]) -> (r: [u8; 32])
    ensures
        r@ == sha256_of(data@),
{
    <sha2::Sha256 as sha2::Digest>::digest(data).into()
}

/// SHA-256 of `data`: 32 bytes that depend on `data` alone.
pub fn sha256(data: &[u8]) -> (r: [u8; 32])
    ensures
        r@ == digest(data@),
{
    let r = sha256_digest(data);
    assert(r@ =~= digest(data@));
    r
}

/// The hash of any byte sequence is 32 bytes long, and equal inputs always
/// hash to equal outputs.
pub proof fn lemma_hash_reproducible(a: Seq<u8>, b: Seq<u8>)
    requires
        a == b,
    ensures
        digest(a).len() == 32,
        digest(a) == digest(b),
{
}

} // verus!
