//! A congestion-driven base fee: it rises when blocks run above their target
//! number of transactions and falls, down to a floor, when they run below.

use vstd::prelude::*;

verus! {

/// An amount of tokens.
pub type Balance = u128;

/// Fee market configuration.
#[derive(Clone, Copy, Debug)]
pub struct FeeMarketConfig {
    /// Target transactions per block
    pub target_transactions: usize,
    /// Maximum transactions per block
    pub max_transactions: usize,
    /// Initial base fee
    pub initial_base_fee: Balance,
    /// The base fee moves by at most 1 / `max_change_denominator` of itself per
    /// block, at twice the target or at an empty block
    pub max_change_denominator: u64,
    /// Minimum base fee (floor)
    pub min_base_fee: Balance,
}

/// Fee market state.
#[derive(Clone, Copy, Debug)]
pub struct FeeMarket {
    /// Current base fee
    pub base_fee: Balance,
    /// Target transactions per block
    pub target_transactions: usize,
    /// Maximum transactions per block
    pub max_transactions: usize,
    /// Configuration
    pub config: FeeMarketConfig,
}

/// How a transaction's fee splits between burning and the miner.
#[derive(Clone, Copy, Debug)]
pub struct FeeBreakdown {
    pub total_fee: Balance,
    pub base_fee: Balance,
    pub priority_fee: Balance,
    pub burn_amount: Balance,
    pub miner_reward: Balance,
}

/// The change of the base fee for `actual` transactions against `target`:
/// `base · (actual − target) / target / denominator`, each division rounding
/// toward zero.
pub open spec fn fee_change(base: int, actual: int, target: int, denominator: int) -> int {
    if actual >= target {
        base * (actual - target) / target / denominator
    } else {
        -(base * (target - actual) / target / denominator)
    }
}

/// The base fee after a block of `actual` transactions: unchanged at the
/// target, otherwise moved by `fee_change` and kept at or above the floor.
pub open spec fn next_base_fee(m: FeeMarket, actual: int) -> int {
    let target = m.target_transactions as int;
    let base = m.base_fee as int;
    if actual == target {
        base
    } else {
        let moved = base + fee_change(base, actual, target, m.config.max_change_denominator as int);
        if moved >= m.config.min_base_fee {
            moved
        } else {
            m.config.min_base_fee as int
        }
    }
}

/// The update for `actual` transactions divides by non-zero numbers and its
/// intermediate values fit in a `Balance`.
pub open spec fn update_defined(m: FeeMarket, actual: int) -> bool {
    let target = m.target_transactions as int;
    let base = m.base_fee as int;
    actual != target ==> {
        &&& target > 0
        &&& m.config.max_change_denominator > 0
        &&& base * (if actual >= target {
            actual - target
        } else {
            target - actual
        }) <= u128::MAX
        &&& base + fee_change(base, actual, target, m.config.max_change_denominator as int)
            <= u128::MAX
    }
}

impl Default for FeeMarketConfig {
    /// A target of 100 transactions out of 200, a base fee that starts at 1000
    /// and moves by at most an eighth per block, and a floor of 100.
    fn default() -> (r: FeeMarketConfig)
        ensures
            r.target_transactions == 100,
            r.max_transactions == 200,
            r.initial_base_fee == 1000,
            r.max_change_denominator == 8,
            r.min_base_fee == 100,
    {
        FeeMarketConfig {
            target_transactions: 100,
            max_transactions: 200,
            initial_base_fee: 1000,
            max_change_denominator: 8,
            min_base_fee: 100,
        }
    }
}

impl FeeMarket {
    /// A market at the configuration's initial base fee and limits.
    pub fn new(config: FeeMarketConfig) -> (r: FeeMarket)
        ensures
            r.base_fee == config.initial_base_fee,
            r.target_transactions == config.target_transactions,
            r.max_transactions == config.max_transactions,
            r.config == config,
    {
        FeeMarket {
            base_fee: config.initial_base_fee,
            target_transactions: config.target_transactions,
            max_transactions: config.max_transactions,
            config,
        }
    }

    /// Moves the base fee after a block of `transactions_in_block`
    /// transactions.
    pub fn update_base_fee(&mut self, transactions_in_block: usize)
        requires
            update_defined(*old(self), transactions_in_block as int),
        ensures
            final(self).base_fee == next_base_fee(*old(self), transactions_in_block as int),
            final(self).target_transactions == old(self).target_transactions,
            final(self).max_transactions == old(self).max_transactions,
            final(self).config == old(self).config,
    {
        let target = self.target_transactions;
        let actual = transactions_in_block;
        if actual == target {
            return;
        }
        let base = self.base_fee;
        let denominator = self.config.max_change_denominator as u128;
        let min_fee = self.config.min_base_fee;
        let new_fee: u128;
        if actual > target {
            let delta = (actual - target) as u128;
            let change = base * delta / target as u128 / denominator;
            new_fee = if base + change >= min_fee {
                base + change
            } else {
                min_fee
            };
        } else {
            let delta = (target - actual) as u128;
            let change = base * delta / target as u128 / denominator;
            proof {
                let t = target as int;
                let q = (base * delta) as int / t;
                assert(q <= base) by (nonlinear_arith)
                    requires
                        q == (base as int * delta as int) / t,
                        delta as int <= t,
                        t > 0,
                        base >= 0,
                ;
                assert(q / denominator as int <= q) by (nonlinear_arith)
                    requires
                        q >= 0,
                        denominator > 0,
                ;
            }
            new_fee = if base - change >= min_fee {
                base - change
            } else {
                min_fee
            };
        }
        self.base_fee = new_fee;
    }

    /// The base fee plus the priority fee.
    pub fn calculate_total_fee(&self, priority_fee: Balance) -> (r: Balance)
        requires
            self.base_fee + priority_fee <= u128::MAX,
        ensures
            r == self.base_fee + priority_fee,
    {
        self.base_fee + priority_fee
    }

    /// Whether `total_fee` covers the base fee plus the priority fee, and the
    /// floor.
    pub fn validate_fee(&self, total_fee: Balance, priority_fee: Balance) -> (r: bool)
        ensures
            r == (total_fee >= self.base_fee + priority_fee && total_fee
                >= self.config.min_base_fee),
    {
        match self.base_fee.checked_add(priority_fee) {
            Some(required) => total_fee >= required && total_fee >= self.config.min_base_fee,
            None => false,
        }
    }

    /// The miner's part of a fee: the priority fee, capped by the total.
    pub fn get_miner_reward(&self, total_fee: Balance, priority_fee: Balance) -> (r: Balance)
        ensures
            r == if priority_fee <= total_fee {
                priority_fee
            } else {
                total_fee
            },
    {
        if priority_fee <= total_fee {
            priority_fee
        } else {
            total_fee
        }
    }

    /// The burnt part of a fee: all that does not go to the miner.
    pub fn get_burn_amount(&self, total_fee: Balance, priority_fee: Balance) -> (r: Balance)
        ensures
            r + (if priority_fee <= total_fee {
                priority_fee
            } else {
                total_fee
            }) == total_fee,
    {
        let miner = self.get_miner_reward(total_fee, priority_fee);
        total_fee - miner
    }

    /// The base fee that a block of `expected_transactions` would lead to; the
    /// market itself is left as it is.
    pub fn simulate_next_base_fee(&self, expected_transactions: usize) -> (r: Balance)
        requires
            update_defined(*self, expected_transactions as int),
        ensures
            r == next_base_fee(*self, expected_transactions as int),
    {
        let mut simulated = *self;
        simulated.update_base_fee(expected_transactions);
        simulated.base_fee
    }
}

impl Default for FeeMarket {
    fn default() -> (r: FeeMarket)
        ensures
            r.base_fee == 1000,
            r.target_transactions == 100,
            r.max_transactions == 200,
            r.config.max_change_denominator == 8,
            r.config.min_base_fee == 100,
            r.config.initial_base_fee == 1000,
            r.config.target_transactions == 100,
            r.config.max_transactions == 200,
    {
        FeeMarket::new(FeeMarketConfig::default())
    }
}

impl FeeBreakdown {
    /// The split of `total_fee` at `market`'s base fee.
    pub fn new(market: &FeeMarket, total_fee: Balance, priority_fee: Balance) -> (r: FeeBreakdown)
        ensures
            r.total_fee == total_fee,
            r.base_fee == market.base_fee,
            r.priority_fee == priority_fee,
            r.miner_reward == (if priority_fee <= total_fee {
                priority_fee
            } else {
                total_fee
            }),
            r.burn_amount + r.miner_reward == total_fee,
    {
        let burn_amount = market.get_burn_amount(total_fee, priority_fee);
        let miner_reward = market.get_miner_reward(total_fee, priority_fee);
        FeeBreakdown {
            total_fee,
            base_fee: market.base_fee,
            priority_fee,
            burn_amount,
            miner_reward,
        }
    }
}

/// Away from the target the base fee never falls below the floor, and it
/// rises above the target and does not rise below it.
pub proof fn lemma_base_fee_direction(m: FeeMarket, actual: int)
    requires
        update_defined(m, actual),
        actual >= 0,
    ensures
        actual != m.target_transactions ==> next_base_fee(m, actual) >= m.config.min_base_fee,
        actual > m.target_transactions ==> next_base_fee(m, actual) >= m.base_fee,
        actual < m.target_transactions && m.base_fee >= m.config.min_base_fee ==> next_base_fee(
            m,
            actual,
        ) <= m.base_fee,
{
    let target = m.target_transactions as int;
    let base = m.base_fee as int;
    let d = m.config.max_change_denominator as int;
    if actual > target {
        assert(base * (actual - target) >= 0) by (nonlinear_arith)
            requires
                base >= 0,
                actual - target > 0,
        ;
    } else if actual < target {
        assert(base * (target - actual) >= 0) by (nonlinear_arith)
            requires
                base >= 0,
                target - actual > 0,
        ;
    }
}

} // verus!
