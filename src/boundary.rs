//! The flat call surface that other implementations use: plain values and
//! result codes in place of the library's aggregate results.

use vstd::prelude::*;
use crate::codec::{compute_header_hash, header_hash_spec};
use crate::hash::{digest, sha256};
use crate::merkle::{compute_merkle_root, hash_views, merkle_root_spec};
use crate::types::{BlockHeader, HardwareTier, Problem, Solution, VerifyBudget, CODEC_VERSION};
use crate::verify::{verify_solution, verify_spec};

verus! {

/// Result codes of the call surface.
#[derive(Clone, Copy, Debug, PartialEq, Eq, Structural)]
pub enum CoinjResult {
    Success,
    ErrorInvalidInput,
    ErrorOutOfMemory,
    ErrorVerificationFailed,
    ErrorEncoding,
    ErrorInternal,
}

/// The tier with surface number `code`, counted from 0 for Mobile to 4 for
/// Cluster.
pub fn tier_from_code(code: u32) -> (r: Option<HardwareTier>)
    ensures
        r is Some <==> code < 5,
        r matches Some(t) ==> t.rank() == code,
{
    match code {
        0 => Some(HardwareTier::Mobile),
        1 => Some(HardwareTier::Desktop),
        2 => Some(HardwareTier::Workstation),
        3 => Some(HardwareTier::Server),
        4 => Some(HardwareTier::Cluster),
        _ => None,
    }
}

/// Writes the hash of `input` to `out_hash`.
pub fn coinjecture_sha256_hash(input: &[u8], out_hash: &mut [u8; 32]) -> (r: CoinjResult)
    ensures
        r == CoinjResult::Success,
        final(out_hash)@ == digest(input@),
{
    *out_hash = sha256(input);
    CoinjResult::Success
}

/// Writes the consensus hash of `header` to `out_hash`; `ErrorEncoding`, with
/// `out_hash` untouched, where the header cannot be encoded.
pub fn coinjecture_compute_header_hash(header: &BlockHeader, out_hash: &mut [u8; 32]) -> (r:
    CoinjResult)
    ensures
        header@.valid() ==> r == CoinjResult::Success && final(out_hash)@ == header_hash_spec(header@),
        !header@.valid() ==> r == CoinjResult::ErrorEncoding && *final(out_hash) == *old(out_hash),
{
    match compute_header_hash(header) {
        Ok(h) => {
            *out_hash = h;
            CoinjResult::Success
        },
        Err(_) => CoinjResult::ErrorEncoding,
    }
}

/// Writes the Merkle root of `tx_hashes` to `out_root`.
pub fn coinjecture_compute_merkle_root(tx_hashes: &[[u8; 32]], out_root: &mut [u8; 32]) -> (r:
    CoinjResult)
    ensures
        r == CoinjResult::Success,
        final(out_root)@ == merkle_root_spec(hash_views(tx_hashes@)),
{
    *out_root = compute_merkle_root(tx_hashes);
    CoinjResult::Success
}

/// Verifies `solution` and writes 1 to `out_valid` for a valid one, 0 for an
/// invalid one. An empty problem gives `ErrorInvalidInput`, any other error
/// of the verifier `ErrorVerificationFailed`; `out_valid` is then untouched.
pub fn coinjecture_verify_subset_sum(
    problem: &Problem,
    solution: &Solution,
    budget: &VerifyBudget,
    out_valid: &mut i32,
) -> (r: CoinjResult)
    ensures
        problem.elements@.len() == 0 ==> r == CoinjResult::ErrorInvalidInput && *final(out_valid)
            == *old(out_valid),
        problem.elements@.len() > 0 ==> match verify_spec(
            problem.tier,
            problem.elements@,
            problem.target,
            solution.indices@,
            budget.max_ops,
        ) {
            Ok(v) => r == CoinjResult::Success && *final(out_valid) == (if v.valid {
                1i32
            } else {
                0i32
            }),
            Err(_) => r == CoinjResult::ErrorVerificationFailed && *final(out_valid) == *old(
                out_valid,
            ),
        },
{
    if problem.elements.len() == 0 {
        return CoinjResult::ErrorInvalidInput;
    }
    match verify_solution(problem, solution, budget) {
        Ok(v) => {
            *out_valid = if v.valid {
                1
            } else {
                0
            };
            CoinjResult::Success
        },
        Err(_) => CoinjResult::ErrorVerificationFailed,
    }
}

/// The codec version of the canonical header form.
pub fn coinjecture_codec_version() -> (r: u32)
    ensures
        r == CODEC_VERSION as u32,
{
    CODEC_VERSION as u32
}

} // verus!
