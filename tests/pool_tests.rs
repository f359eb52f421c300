use coinjecture_core::dimensional_pools::{
    all_pools, calculate_phase, get_allocation_ratio, get_dimensional_factor, get_tau,
    make_pool_key, make_swap_key, pool_name, settle_swap, total_liquidity, DimensionalPool,
    SwapError, MILLI, SATOSHI_ETA, SATOSHI_LAMBDA, SATOSHI_SCALE,
};

fn satoshi(v: u64) -> f64 {
    v as f64 / SATOSHI_SCALE as f64
}

#[test]
fn test_satoshi_constant() {
    // Verify η = λ = 1/√2
    let sqrt_2 = 2.0_f64.sqrt();
    assert!((satoshi(SATOSHI_ETA) - 1.0 / sqrt_2).abs() < 1e-10);
    assert!((satoshi(SATOSHI_LAMBDA) - 1.0 / sqrt_2).abs() < 1e-10);
}

#[test]
fn test_unit_circle_constraint() {
    // Verify |μ|² = η² + λ² = 1
    let magnitude_squared = satoshi(SATOSHI_ETA).powi(2) + satoshi(SATOSHI_LAMBDA).powi(2);
    assert!((magnitude_squared - 1.0).abs() < 1e-10);
}

#[test]
fn test_allocation_ratios_sum() {
    // Allocation ratios should be dimensionless and properly normalized
    let sum: f64 = all_pools()
        .iter()
        .map(|p| get_allocation_ratio(*p) as f64 / MILLI as f64)
        .sum();
    // Sum should be approximately 1.468 (normalized by √3.177)
    assert!(sum > 1.4 && sum < 1.5);
}

#[test]
fn test_phase_evolution() {
    // θ(τ) = λτ = τ/√2
    let tau = 1.0;
    let phase = calculate_phase((tau * MILLI as f64) as u64) as f64 / SATOSHI_SCALE as f64;
    let expected = tau / 2.0_f64.sqrt();
    assert!((phase - expected).abs() < 1e-10);
}

#[test]
fn pool_constants_in_thousandths() {
    assert_eq!(get_tau(DimensionalPool::D1), 0);
    assert_eq!(get_tau(DimensionalPool::D2), 200);
    assert_eq!(get_tau(DimensionalPool::D3), 410);
    assert_eq!(get_dimensional_factor(DimensionalPool::D1), 1000);
    assert_eq!(get_dimensional_factor(DimensionalPool::D2), 867);
    assert_eq!(get_dimensional_factor(DimensionalPool::D3), 750);
    assert_eq!(get_allocation_ratio(DimensionalPool::D1), 561);
    assert_eq!(get_allocation_ratio(DimensionalPool::D3), 421);
    assert_eq!(pool_name(DimensionalPool::D3), "First Harmonic");
    assert_eq!(calculate_phase(410), 2_899_137_802_864_845);
}

#[test]
fn storage_keys() {
    assert_eq!(make_pool_key(DimensionalPool::D2), b"pool:\x01".to_vec());
    let mut expected = b"swap:".to_vec();
    expected.extend_from_slice(&[7u8; 32]);
    assert_eq!(make_swap_key(&[7u8; 32]), expected);
}

#[test]
fn swap_settlement_rules() {
    assert_eq!(settle_swap(100, 500, 40, 46, 45), Ok((60, 454)));
    assert_eq!(settle_swap(10, 500, 40, 46, 45), Err(SwapError::InsufficientSourceLiquidity));
    assert_eq!(settle_swap(100, 500, 40, 44, 45), Err(SwapError::SlippageExceeded));
    assert_eq!(settle_swap(100, 20, 40, 46, 45), Err(SwapError::InsufficientDestinationLiquidity));
}

#[test]
fn total_liquidity_sums_or_reports_overflow() {
    assert_eq!(total_liquidity(&[561, 486, 421]), Some(1468));
    assert_eq!(total_liquidity(&[]), Some(0));
    assert_eq!(total_liquidity(&[u128::MAX, 1]), None);
}
