use endcoin::constants::FEE_BPS_DENOMINATOR;
use endcoin::error::AmmError;
use endcoin::fee::{apply_fee, compute_fee_bps};
use endcoin::liquidity::{build_emission_outcome, compute_liquidity, integer_sqrt, scale_emission};
use endcoin::swap::{check_reserves, check_swap_amounts};

#[test]
fn apply_fee_happy_path_and_invalid_bps() {
    let (net, fee) = apply_fee(5_000, 100).expect("fee applies");
    assert_eq!((net, fee), (4_950, 50));

    let err = apply_fee(1_000, FEE_BPS_DENOMINATOR + 1).unwrap_err();
    assert_eq!(err, AmmError::InvalidFeeBps);
}

#[test]
fn apply_fee_rounds_down_without_dust() {
    let (net, fee) = apply_fee(1, 333).expect("fee applies");
    assert_eq!((net, fee), (0, 1));

    let (net, fee) = apply_fee(10_001, 10_000).expect("max fee");
    assert_eq!((net, fee), (0, 10_001));
}

#[test]
fn weighted_swap_rejects_zero_amount() {
    let err = check_swap_amounts(0, 100, 100).unwrap_err();
    assert_eq!(err, AmmError::InputAmountTooSmall);
}

#[test]
fn weighted_swap_rejects_zero_reserves() {
    let err = check_swap_amounts(10, 0, 100).unwrap_err();
    assert_eq!(err, AmmError::InsufficientLiquidity);

    let err = check_swap_amounts(10, 100, 0).unwrap_err();
    assert_eq!(err, AmmError::InsufficientLiquidity);
}

#[test]
fn weighted_invariant_requires_liquidity() {
    let err = check_reserves(0, 1).unwrap_err();
    assert_eq!(err, AmmError::InsufficientLiquidity);
}

#[test]
fn liquidity_is_integer_sqrt_of_product() {
    let liquidity = compute_liquidity(9, 16).unwrap();
    assert_eq!(liquidity, 12);
}

#[test]
fn apply_fee_zero_rate_and_zero_amount_are_free() {
    assert_eq!(apply_fee(12_345, 0), Ok((12_345, 0)));
    assert_eq!(apply_fee(0, 500), Ok((0, 0)));
}

#[test]
fn apply_fee_rounds_down_above_one_unit() {
    // 1_999 * 100 / 10_000 = 19.99 -> 19
    assert_eq!(apply_fee(1_999, 100), Ok((1_980, 19)));
    assert_eq!(apply_fee(u64::MAX, 10_000), Ok((0, u64::MAX)));
}

#[test]
fn apply_fee_splitting_saves_at_most_one_unit() {
    // whole trade: 6 * 5000 / 10000 = 3; two halves: 1 + 1 = 2
    let (_, whole) = apply_fee(6, 5_000).unwrap();
    let (_, half) = apply_fee(3, 5_000).unwrap();
    assert_eq!(whole, 3);
    assert_eq!(half, 1);
    assert!(whole <= half + half + 1);
    // tiny trades never escape the fee
    let (_, tiny) = apply_fee(1, 1).unwrap();
    assert_eq!(tiny, 1);
}

#[test]
fn apply_fee_is_monotone_in_amount() {
    let mut last = 0;
    for amount in 0..2_000u64 {
        let (net, fee) = apply_fee(amount, 30).unwrap();
        assert_eq!(net + fee, amount);
        assert!(fee >= last);
        last = fee;
    }
}

#[test]
fn compute_fee_bps_rounds_down_without_minimum() {
    assert_eq!(compute_fee_bps(1, 333), Ok(0));
    assert_eq!(compute_fee_bps(5_000, 100), Ok(50));
    assert_eq!(compute_fee_bps(0, 100), Ok(0));
    assert_eq!(compute_fee_bps(1_000, 0), Ok(0));
    assert_eq!(compute_fee_bps(u64::MAX, 10_000), Ok(u64::MAX));
    assert_eq!(compute_fee_bps(1_000, 10_001), Err(AmmError::InvalidFeeBps));
}

#[test]
fn integer_sqrt_edge_values() {
    assert_eq!(integer_sqrt(0), 0);
    assert_eq!(integer_sqrt(1), 1);
    assert_eq!(integer_sqrt(2), 1);
    assert_eq!(integer_sqrt(3), 1);
    assert_eq!(integer_sqrt(4), 2);
    assert_eq!(integer_sqrt(99), 9);
    assert_eq!(integer_sqrt(100), 10);
    assert_eq!(integer_sqrt(u128::MAX - 1), u64::MAX as u128);
}

#[test]
fn liquidity_lies_between_the_amounts() {
    assert_eq!(compute_liquidity(7, 7), Ok(7));
    assert_eq!(compute_liquidity(0, 1_000), Ok(0));
    assert_eq!(compute_liquidity(2, 1_000), compute_liquidity(1_000, 2));
    let l = compute_liquidity(2, 1_000).unwrap();
    assert_eq!(l, 44);
    assert!(2 <= l && l <= 1_000);
    assert_eq!(compute_liquidity(u64::MAX, u64::MAX), Ok(u64::MAX));
}

#[test]
fn scale_emission_multiplies_by_thousand_or_overflows() {
    assert_eq!(scale_emission(0), Ok(0));
    assert_eq!(scale_emission(2), Ok(2_000));
    assert_eq!(scale_emission(u64::MAX / 1_000), Ok((u64::MAX / 1_000) * 1_000));
    assert_eq!(scale_emission(u64::MAX / 1_000 + 1), Err(AmmError::ArithmeticOverflow));
}

#[test]
fn emission_outcome_carries_liquidity() {
    let outcome = build_emission_outcome(9_000, 16_000).unwrap();
    assert_eq!(outcome.amount_a, 9_000);
    assert_eq!(outcome.amount_b, 16_000);
    assert_eq!(outcome.liquidity, 12_000);
}

#[test]
fn larger_deposit_mints_more_liquidity() {
    let pool = compute_liquidity(2_000, 3_000).unwrap();
    let rewards = compute_liquidity(0, 0).unwrap();
    assert_eq!(pool, 2_449);
    assert!(rewards <= pool);
    let bigger = compute_liquidity(2_001, 3_000).unwrap();
    assert!(pool <= bigger);
}
