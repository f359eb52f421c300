//! The constants and pure rules of the dimensional liquidity pools, held as
//! exact fixed-point values so that every node computes them identically.
//!
//! The Satoshi constants η = λ = 1/√2 are kept in units of 10^-16; the
//! dimensionless times τ_n, the scale factors D_n = e^(-η·τ_n) and the
//! normalized allocation ratios p_n are kept in thousandths.

use vstd::prelude::*;

verus! {

/// The unit of the Satoshi constants: they are stored times 10^16.
pub const SATOSHI_SCALE: u64 = 10_000_000_000_000_000;

/// η = 1/√2, times 10^16.
pub const SATOSHI_ETA: u64 = 7_071_067_811_865_476;

/// λ = 1/√2, times 10^16.
pub const SATOSHI_LAMBDA: u64 = 7_071_067_811_865_476;

/// The unit of times, scale factors and allocation ratios: thousandths.
pub const MILLI: u64 = 1000;

/// The three economic scales.
#[derive(Clone, Copy, Debug, PartialEq, Eq, Structural, Hash)]
pub enum DimensionalPool {
    D1,
    D2,
    D3,
}

/// Why a swap cannot be settled.
#[derive(Clone, Copy, Debug, PartialEq, Eq, Structural)]
pub enum SwapError {
    /// The source pool holds less than the amount swapped in.
    InsufficientSourceLiquidity,
    /// The amount out is below the caller's minimum.
    SlippageExceeded,
    /// The destination pool holds less than the amount swapped out.
    InsufficientDestinationLiquidity,
}

/// The position of a pool in the order D1, D2, D3.
pub open spec fn pool_index(pool: DimensionalPool) -> u8 {
    match pool {
        DimensionalPool::D1 => 0,
        DimensionalPool::D2 => 1,
        DimensionalPool::D3 => 2,
    }
}

/// τ_n of a pool, in thousandths.
pub open spec fn tau_spec(pool: DimensionalPool) -> u64 {
    match pool {
        DimensionalPool::D1 => 0,
        DimensionalPool::D2 => 200,
        DimensionalPool::D3 => 410,
    }
}

/// D_n of a pool, in thousandths.
pub open spec fn factor_spec(pool: DimensionalPool) -> u64 {
    match pool {
        DimensionalPool::D1 => 1000,
        DimensionalPool::D2 => 867,
        DimensionalPool::D3 => 750,
    }
}

/// p_n of a pool, in thousandths.
pub open spec fn ratio_spec(pool: DimensionalPool) -> u64 {
    match pool {
        DimensionalPool::D1 => 561,
        DimensionalPool::D2 => 486,
        DimensionalPool::D3 => 421,
    }
}

/// The ASCII bytes of `pool:`.
pub open spec fn pool_key_prefix() -> Seq<u8> {
    seq![112u8, 111u8, 111u8, 108u8, 58u8]
}

/// The ASCII bytes of `swap:`.
pub open spec fn swap_key_prefix() -> Seq<u8> {
    seq![115u8, 119u8, 97u8, 112u8, 58u8]
}

/// The pools in their order.
pub fn all_pools() -> (r: [DimensionalPool; 3])
    ensures
        r@ == seq![DimensionalPool::D1, DimensionalPool::D2, DimensionalPool::D3],
{
    let r = [DimensionalPool::D1, DimensionalPool::D2, DimensionalPool::D3];
    assert(r@ =~= seq![DimensionalPool::D1, DimensionalPool::D2, DimensionalPool::D3]);
    r
}

/// The dimensionless time τ_n of `pool`, in thousandths.
pub fn get_tau(pool: DimensionalPool) -> (r: u64)
    ensures
        r == tau_spec(pool),
{
    match pool {
        DimensionalPool::D1 => 0,
        DimensionalPool::D2 => 200,
        DimensionalPool::D3 => 410,
    }
}

/// The scale factor D_n of `pool`, in thousandths.
pub fn get_dimensional_factor(pool: DimensionalPool) -> (r: u64)
    ensures
        r == factor_spec(pool),
{
    match pool {
        DimensionalPool::D1 => 1000,
        DimensionalPool::D2 => 867,
        DimensionalPool::D3 => 750,
    }
}

/// The normalized allocation ratio p_n of `pool`, in thousandths.
pub fn get_allocation_ratio(pool: DimensionalPool) -> (r: u64)
    ensures
        r == ratio_spec(pool),
{
    match pool {
        DimensionalPool::D1 => 561,
        DimensionalPool::D2 => 486,
        DimensionalPool::D3 => 421,
    }
}

/// The descriptive name of `pool`.
pub fn pool_name(pool: DimensionalPool) -> (r: &'static str)
    ensures
        pool == DimensionalPool::D1 ==> r@ == "Genesis"@,
        pool == DimensionalPool::D2 ==> r@ == "Coupling"@,
        pool == DimensionalPool::D3 ==> r@ == "First Harmonic"@,
{
    match pool {
        DimensionalPool::D1 => "Genesis",
        DimensionalPool::D2 => "Coupling",
        DimensionalPool::D3 => "First Harmonic",
    }
}

/// The phase θ(τ) = λ·τ for `tau` in thousandths, in units of 10^-16,
/// rounded down.
pub fn calculate_phase(tau: u64) -> (r: u128)
    ensures
        r == (SATOSHI_LAMBDA as int * tau as int) / MILLI as int,
{
    assert(SATOSHI_LAMBDA as int * tau as int <= 7_071_067_811_865_476 * 18_446_744_073_709_551_615)
        by (nonlinear_arith);
    (SATOSHI_LAMBDA as u128 * tau as u128) / MILLI as u128
}

/// The storage key of a pool's liquidity record: `pool:` and the pool's
/// position.
pub fn make_pool_key(pool: DimensionalPool) -> (r: Vec<u8>)
    ensures
        r@ == pool_key_prefix().push(pool_index(pool)),
{
    let index: u8 = match pool {
        DimensionalPool::D1 => 0,
        DimensionalPool::D2 => 1,
        DimensionalPool::D3 => 2,
    };
    let mut key: Vec<u8> = Vec::new();
    key.push(112u8);
    key.push(111u8);
    key.push(111u8);
    key.push(108u8);
    key.push(58u8);
    key.push(index);
    assert(key@ =~= pool_key_prefix().push(pool_index(pool)));
    key
}

/// The storage key of a swap record: `swap:` and the transaction hash.
pub fn make_swap_key(tx_hash: &[u8; 32]) -> (r: Vec<u8>)
    ensures
        r@ == swap_key_prefix() + tx_hash@,
{
    let mut key: Vec<u8> = Vec::new();
    key.push(115u8);
    key.push(119u8);
    key.push(97u8);
    key.push(112u8);
    key.push(58u8);
    let mut i: usize = 0;
    while i < 32
        invariant
            i <= 32,
            key@ == swap_key_prefix() + tx_hash@.subrange(0, i as int),
        decreases 32 - i,
    {
        key.push(tx_hash[i]);
        i += 1;
        assert(key@ =~= swap_key_prefix() + tx_hash@.subrange(0, i as int));
    }
    assert(tx_hash@.subrange(0, 32) =~= tx_hash@);
    key
}

/// The source and destination liquidity after swapping `amount_in` out of
/// the source pool for `amount_out` out of the destination pool. The source
/// must hold `amount_in`, `amount_out` must reach `min_amount_out`, and the
/// destination must hold `amount_out`, checked in that order.
pub fn settle_swap(
    from_liquidity: u128,
    to_liquidity: u128,
    amount_in: u128,
    amount_out: u128,
    min_amount_out: u128,
) -> (r: Result<(u128, u128), SwapError>)
    ensures
        from_liquidity < amount_in ==> r == Err::<(u128, u128), SwapError>(
            SwapError::InsufficientSourceLiquidity,
        ),
        from_liquidity >= amount_in && amount_out < min_amount_out ==> r == Err::<
            (u128, u128),
            SwapError,
        >(SwapError::SlippageExceeded),
        from_liquidity >= amount_in && amount_out >= min_amount_out && to_liquidity < amount_out
            ==> r == Err::<(u128, u128), SwapError>(SwapError::InsufficientDestinationLiquidity),
        from_liquidity >= amount_in && amount_out >= min_amount_out && to_liquidity >= amount_out
            ==> r == Ok::<(u128, u128), SwapError>(
            ((from_liquidity - amount_in) as u128, (to_liquidity - amount_out) as u128),
        ),
{
    if from_liquidity < amount_in {
        return Err(SwapError::InsufficientSourceLiquidity);
    }
    if amount_out < min_amount_out {
        return Err(SwapError::SlippageExceeded);
    }
    if to_liquidity < amount_out {
        return Err(SwapError::InsufficientDestinationLiquidity);
    }
    Ok((from_liquidity - amount_in, to_liquidity - amount_out))
}

/// The sum of `liquidities`, or `None` where it does not fit in a `u128`.
pub fn total_liquidity(liquidities: &[u128]) -> (r: Option<u128>)
    ensures
        r matches Some(t) ==> t == sum_of(liquidities@),
        r is None <==> sum_of(liquidities@) > u128::MAX,
{
    let mut total: u128 = 0;
    let mut i: usize = 0;
    while i < liquidities.len()
        invariant
            i <= liquidities@.len(),
            total == sum_of(liquidities@.subrange(0, i as int)),
        decreases liquidities@.len() - i,
    {
        let ghost prefix = liquidities@.subrange(0, i as int);
        assert(liquidities@.subrange(0, i + 1).drop_last() =~= prefix);
        proof {
            lemma_sum_of_prefix_bound(liquidities@, i + 1);
        }
        match total.checked_add(liquidities[i]) {
            Some(t) => {
                total = t;
            },
            None => {
                proof {
                    lemma_sum_of_prefix_bound(liquidities@, liquidities@.len() as int);
                    assert(liquidities@.subrange(0, liquidities@.len() as int) =~= liquidities@);
                }
                return None;
            },
        }
        i += 1;
    }
    assert(liquidities@.subrange(0, i as int) =~= liquidities@);
    Some(total)
}

/// The sum of a sequence of amounts.
pub open spec fn sum_of(s: Seq<u128>) -> int
    decreases s.len(),
{
    if s.len() == 0 {
        0
    } else {
        sum_of(s.drop_last()) + s.last()
    }
}

proof fn lemma_sum_of_prefix_bound(s: Seq<u128>, k: int)
    requires
        0 <= k <= s.len(),
    ensures
        forall|j: int| 0 <= j <= k ==> sum_of(#[trigger] s.subrange(0, j)) <= sum_of(
            s.subrange(0, k),
        ),
    decreases k,
{
    if k > 0 {
        lemma_sum_of_prefix_bound(s, k - 1);
        assert(s.subrange(0, k).drop_last() =~= s.subrange(0, k - 1));
    }
}

/// η² + λ² = 1 to within 10^-10: the constants lie on the unit circle.
pub proof fn lemma_unit_circle()
    ensures
        ({
            let sq = SATOSHI_ETA as int * SATOSHI_ETA as int + SATOSHI_LAMBDA as int
                * SATOSHI_LAMBDA as int;
            let one = SATOSHI_SCALE as int * SATOSHI_SCALE as int;
            (sq - one) * 10_000_000_000 < one && (one - sq) * 10_000_000_000 < one
        }),
{
}

/// The allocation ratios sum to between 1.4 and 1.5: they are normalized by
/// the root of Σ D_n², not by Σ D_n.
pub proof fn lemma_allocation_ratios_sum()
    ensures
        1400 < ratio_spec(DimensionalPool::D1) + ratio_spec(DimensionalPool::D2) + ratio_spec(
            DimensionalPool::D3,
        ) < 1500,
{
}

} // verus!
