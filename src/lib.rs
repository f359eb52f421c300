//! Deterministic consensus core: a hash primitive, a Merkle commitment over
//! transaction hashes, the canonical block-header codec and a budget-bounded
//! verifier for subset-sum puzzles, with the flat call surface around them.
//! Beside the core stand the integer rules of the fee market and the exact
//! constants and settlement rules of the dimensional liquidity pools.

pub mod boundary;
pub mod codec;
pub mod dimensional_pools;
pub mod fee_market;
pub mod hash;
pub mod merkle;
pub mod types;
pub mod verify;

pub use types::{
    BlockHeader, HardwareTier, Problem, ProblemType, Solution, VerifyBudget, VerifyResult,
    CODEC_VERSION,
};
