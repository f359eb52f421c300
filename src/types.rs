//! The value types that the consensus core reads and produces.

use vstd::prelude::*;

verus! {

/// The one codec version this core reads and writes.
pub const CODEC_VERSION: u8 = 1;

/// The largest number of bytes a header may carry in `extra_data`.
pub const MAX_EXTRA_DATA_LEN: usize = 256;

/// The frozen timestamp of the genesis header.
pub const GENESIS_TIMESTAMP: i64 = 1609459200;

/// The frozen difficulty target of the genesis header.
pub const GENESIS_DIFFICULTY: u64 = 1000;

/// The frozen nonce of the genesis header.
pub const GENESIS_NONCE: u64 = 0;

/// The canonical summary of one block.
#[derive(Clone, Debug, PartialEq, Eq)]
pub struct BlockHeader {
    pub codec_version: u8,
    pub block_index: u64,
    pub timestamp: i64,
    pub parent_hash: [u8; 32],
    pub merkle_root: [u8; 32],
    pub miner_address: [u8; 32],
    pub commitment: [u8; 32],
    pub difficulty_target: u64,
    pub nonce: u64,
    pub extra_data: Vec<u8>,
}

/// A header as mathematical values.
pub ghost struct HeaderModel {
    pub codec_version: u8,
    pub block_index: u64,
    pub timestamp: i64,
    pub parent_hash: Seq<u8>,
    pub merkle_root: Seq<u8>,
    pub miner_address: Seq<u8>,
    pub commitment: Seq<u8>,
    pub difficulty_target: u64,
    pub nonce: u64,
    pub extra_data: Seq<u8>,
}

impl View for BlockHeader {
    type V = HeaderModel;

    open spec fn view(&self) -> HeaderModel {
        HeaderModel {
            codec_version: self.codec_version,
            block_index: self.block_index,
            timestamp: self.timestamp,
            parent_hash: self.parent_hash@,
            merkle_root: self.merkle_root@,
            miner_address: self.miner_address@,
            commitment: self.commitment@,
            difficulty_target: self.difficulty_target,
            nonce: self.nonce,
            extra_data: self.extra_data@,
        }
    }
}

impl HeaderModel {
    /// Every hash-sized field holds exactly 32 bytes.
    pub open spec fn fixed_fields_sized(self) -> bool {
        &&& self.parent_hash.len() == 32
        &&& self.merkle_root.len() == 32
        &&& self.miner_address.len() == 32
        &&& self.commitment.len() == 32
    }

    /// The header can be written in canonical form: a known codec version and
    /// `extra_data` within its bound.
    pub open spec fn valid(self) -> bool {
        &&& self.fixed_fields_sized()
        &&& self.codec_version == CODEC_VERSION
        &&& self.extra_data.len() <= MAX_EXTRA_DATA_LEN
    }

    /// A header at index 0 carries the frozen genesis values.
    pub open spec fn genesis_consistent(self) -> bool {
        self.block_index == 0 ==> {
            &&& self.timestamp == GENESIS_TIMESTAMP
            &&& self.difficulty_target == GENESIS_DIFFICULTY
            &&& self.nonce == GENESIS_NONCE
        }
    }
}

impl BlockHeader {
    /// The genesis header: index 0, the frozen timestamp, difficulty and
    /// nonce, and all-zero hash fields.
    pub fn genesis() -> (r: BlockHeader)
        ensures
            r@.valid(),
            r@.genesis_consistent(),
            r@.block_index == 0,
            r@.parent_hash == Seq::new(32, |i: int| 0u8),
            r@.merkle_root == Seq::new(32, |i: int| 0u8),
            r@.miner_address == Seq::new(32, |i: int| 0u8),
            r@.commitment == Seq::new(32, |i: int| 0u8),
            r@.extra_data.len() == 0,
    {
        let r = BlockHeader {
            codec_version: CODEC_VERSION,
            block_index: 0,
            timestamp: GENESIS_TIMESTAMP,
            parent_hash: [0u8; 32],
            merkle_root: [0u8; 32],
            miner_address: [0u8; 32],
            commitment: [0u8; 32],
            difficulty_target: GENESIS_DIFFICULTY,
            nonce: GENESIS_NONCE,
            extra_data: Vec::new(),
        };
        assert(r@.parent_hash =~= Seq::new(32, |i: int| 0u8));
        r
    }

    /// Whether the header keeps the genesis rule: index 0 only with the frozen
    /// genesis values.
    pub fn is_genesis_consistent(&self) -> (r: bool)
        ensures
            r == self@.genesis_consistent(),
    {
        self.block_index != 0 || (self.timestamp == GENESIS_TIMESTAMP
            && self.difficulty_target == GENESIS_DIFFICULTY && self.nonce == GENESIS_NONCE)
    }
}

impl Default for BlockHeader {
    /// The current codec version and zero in every other field.
    fn default() -> (r: BlockHeader)
        ensures
            r@.valid(),
            r@.block_index == 0,
            r@.timestamp == 0,
            r@.parent_hash == Seq::new(32, |i: int| 0u8),
            r@.merkle_root == Seq::new(32, |i: int| 0u8),
            r@.miner_address == Seq::new(32, |i: int| 0u8),
            r@.commitment == Seq::new(32, |i: int| 0u8),
            r@.difficulty_target == 0,
            r@.nonce == 0,
            r@.extra_data.len() == 0,
    {
        let r = BlockHeader {
            codec_version: CODEC_VERSION,
            block_index: 0,
            timestamp: 0,
            parent_hash: [0u8; 32],
            merkle_root: [0u8; 32],
            miner_address: [0u8; 32],
            commitment: [0u8; 32],
            difficulty_target: 0,
            nonce: 0,
            extra_data: Vec::new(),
        };
        assert(r@.parent_hash =~= Seq::new(32, |i: int| 0u8));
        r
    }
}

/// The hardware classes that bound a puzzle's size and its verification
/// budget, in increasing order.
#[derive(Clone, Copy, Debug, PartialEq, Eq, Structural, Hash)]
pub enum HardwareTier {
    Mobile,
    Desktop,
    Workstation,
    Server,
    Cluster,
}

impl HardwareTier {
    /// Position of the tier in the order Mobile < Desktop < Workstation <
    /// Server < Cluster.
    pub open spec fn rank(self) -> nat {
        match self {
            HardwareTier::Mobile => 0,
            HardwareTier::Desktop => 1,
            HardwareTier::Workstation => 2,
            HardwareTier::Server => 3,
            HardwareTier::Cluster => 4,
        }
    }

    /// The permitted element counts of a problem on this tier, both ends
    /// included.
    pub open spec fn range_spec(self) -> (usize, usize) {
        match self {
            HardwareTier::Mobile => (1, 12),
            HardwareTier::Desktop => (4, 16),
            HardwareTier::Workstation => (8, 20),
            HardwareTier::Server => (12, 24),
            HardwareTier::Cluster => (16, 32),
        }
    }

    /// The tier with number `v`, counted from 1 for Mobile to 5 for Cluster.
    pub fn from_u8(v: u8) -> (r: Option<HardwareTier>)
        ensures
            r matches Some(t) <==> 1 <= v <= 5,
            r matches Some(t) ==> t.rank() + 1 == v,
    {
        match v {
            1 => Some(HardwareTier::Mobile),
            2 => Some(HardwareTier::Desktop),
            3 => Some(HardwareTier::Workstation),
            4 => Some(HardwareTier::Server),
            5 => Some(HardwareTier::Cluster),
            _ => None,
        }
    }

    /// The permitted element counts `(min, max)` of a problem on this tier.
    pub fn element_range(&self) -> (r: (usize, usize))
        ensures
            r == self.range_spec(),
            1 <= r.0 <= r.1,
    {
        match self {
            HardwareTier::Mobile => (1, 12),
            HardwareTier::Desktop => (4, 16),
            HardwareTier::Workstation => (8, 20),
            HardwareTier::Server => (12, 24),
            HardwareTier::Cluster => (16, 32),
        }
    }
}

/// The kinds of puzzle; subset-sum is the one in use.
#[derive(Clone, Copy, Debug, PartialEq, Eq, Structural, Hash)]
pub enum ProblemType {
    SubsetSum,
}

/// A puzzle instance.
#[derive(Clone, Debug, PartialEq, Eq)]
pub struct Problem {
    pub problem_type: ProblemType,
    pub tier: HardwareTier,
    pub elements: Vec<i64>,
    pub target: i64,
    pub timestamp: i64,
}

/// A claimed answer: positions into the problem's elements, untrusted.
#[derive(Clone, Debug, PartialEq, Eq)]
pub struct Solution {
    pub indices: Vec<u32>,
    pub timestamp: i64,
}

/// The resource ceiling of one verification call.
#[derive(Clone, Copy, Debug, PartialEq, Eq, Structural)]
pub struct VerifyBudget {
    pub max_ops: u64,
    pub max_duration_ms: u64,
    pub max_memory_bytes: u64,
}

/// The verdict of one verification call.
#[derive(Clone, Copy, Debug, PartialEq, Eq, Structural)]
pub struct VerifyResult {
    pub valid: bool,
    pub ops_used: u64,
}

/// The budget that a tier is granted.
pub open spec fn tier_budget(tier: HardwareTier) -> VerifyBudget {
    match tier {
        HardwareTier::Mobile => VerifyBudget {
            max_ops: 10_000,
            max_duration_ms: 1_000,
            max_memory_bytes: 1_048_576,
        },
        HardwareTier::Desktop => VerifyBudget {
            max_ops: 50_000,
            max_duration_ms: 2_000,
            max_memory_bytes: 4_194_304,
        },
        HardwareTier::Workstation => VerifyBudget {
            max_ops: 100_000,
            max_duration_ms: 5_000,
            max_memory_bytes: 16_777_216,
        },
        HardwareTier::Server => VerifyBudget {
            max_ops: 500_000,
            max_duration_ms: 10_000,
            max_memory_bytes: 67_108_864,
        },
        HardwareTier::Cluster => VerifyBudget {
            max_ops: 1_000_000,
            max_duration_ms: 30_000,
            max_memory_bytes: 268_435_456,
        },
    }
}

impl VerifyBudget {
    /// The budget granted to `tier`.
    pub fn from_tier(tier: HardwareTier) -> (r: VerifyBudget)
        ensures
            r == tier_budget(tier),
            r.max_ops > 0,
            r.max_duration_ms > 0,
            r.max_memory_bytes > 0,
    {
        match tier {
            HardwareTier::Mobile => VerifyBudget {
                max_ops: 10_000,
                max_duration_ms: 1_000,
                max_memory_bytes: 1_048_576,
            },
            HardwareTier::Desktop => VerifyBudget {
                max_ops: 50_000,
                max_duration_ms: 2_000,
                max_memory_bytes: 4_194_304,
            },
            HardwareTier::Workstation => VerifyBudget {
                max_ops: 100_000,
                max_duration_ms: 5_000,
                max_memory_bytes: 16_777_216,
            },
            HardwareTier::Server => VerifyBudget {
                max_ops: 500_000,
                max_duration_ms: 10_000,
                max_memory_bytes: 67_108_864,
            },
            HardwareTier::Cluster => VerifyBudget {
                max_ops: 1_000_000,
                max_duration_ms: 30_000,
                max_memory_bytes: 268_435_456,
            },
        }
    }
}

/// A higher tier never gets less of any budget field than a lower one.
pub proof fn lemma_budget_monotonic(lower: HardwareTier, higher: HardwareTier)
    requires
        lower.rank() <= higher.rank(),
    ensures
        tier_budget(lower).max_ops <= tier_budget(higher).max_ops,
        tier_budget(lower).max_duration_ms <= tier_budget(higher).max_duration_ms,
        tier_budget(lower).max_memory_bytes <= tier_budget(higher).max_memory_bytes,
{
}

} // verus!
