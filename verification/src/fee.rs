//! Trading fees in basis points.
use vstd::prelude::*;

use crate::constants::FEE_BPS_DENOMINATOR;
use crate::error::AmmError;

verus! {

/// `amount * fee_bps / 10 000`, rounded down.
pub open spec fn floor_fee(amount: int, fee_bps: int) -> int {
    (amount * fee_bps) / (FEE_BPS_DENOMINATOR as int)
}

/// The fee that a trade of `amount` pays: the rounded-down share, but at
/// least one unit whenever both the amount and the fee rate are positive.
pub open spec fn trade_fee(amount: int, fee_bps: int) -> int {
    if fee_bps > 0 && amount > 0 && floor_fee(amount, fee_bps) == 0 {
        1
    } else {
        floor_fee(amount, fee_bps)
    }
}

proof fn lemma_floor_fee_bounds(amount: int, fee_bps: int)
    requires
        0 <= amount,
        0 <= fee_bps <= FEE_BPS_DENOMINATOR,
    ensures
        0 <= floor_fee(amount, fee_bps) <= amount,
        amount * fee_bps <= amount * 10_000,
{
    assert(0 <= amount * fee_bps <= amount * 10_000) by (nonlinear_arith)
        requires
            0 <= amount,
            0 <= fee_bps <= 10_000,
    ;
    assert((amount * fee_bps) / 10_000 <= amount) by (nonlinear_arith)
        requires
            0 <= amount * fee_bps <= amount * 10_000,
    ;
    assert(0 <= (amount * fee_bps) / 10_000) by (nonlinear_arith)
        requires
            0 <= amount * fee_bps,
    ;
}

/// Splits `amount` into the part that reaches the pool and the fee.
///
/// Returns `InvalidFeeBps` when `fee_bps` exceeds 10 000; otherwise
/// `(amount - fee, fee)` with `fee == trade_fee(amount, fee_bps)`.
pub fn apply_fee(amount: u64, fee_bps: u16) -> (r: Result<(u64, u64), AmmError>)
    ensures
        fee_bps > FEE_BPS_DENOMINATOR ==> r == Err::<(u64, u64), AmmError>(AmmError::InvalidFeeBps),
        fee_bps <= FEE_BPS_DENOMINATOR ==> r == Ok::<(u64, u64), AmmError>((
            (amount - trade_fee(amount as int, fee_bps as int)) as u64,
            trade_fee(amount as int, fee_bps as int) as u64,
        )),
        r matches Ok((net, fee)) ==> net + fee == amount,
{
    if fee_bps as u64 > FEE_BPS_DENOMINATOR as u64 {
        return Err(AmmError::InvalidFeeBps);
    }
    proof {
        lemma_floor_fee_bounds(amount as int, fee_bps as int);
        assert((amount as u128) * (fee_bps as u128) <= u128::MAX) by (nonlinear_arith)
            requires
                amount <= u64::MAX,
                fee_bps <= 10_000,
        ;
    }
    let product = match (amount as u128).checked_mul(fee_bps as u128) {
        Some(p) => p,
        None => return Err(AmmError::ArithmeticOverflow),
    };
    let mut fee: u128 = product / (FEE_BPS_DENOMINATOR as u128);
    if fee_bps > 0 && amount > 0 && fee == 0 {
        fee = 1;
    }
    if fee > u64::MAX as u128 {
        return Err(AmmError::ArithmeticOverflow);
    }
    let fee = fee as u64;
    if fee > amount {
        return Err(AmmError::ArithmeticOverflow);
    }
    Ok((amount - fee, fee))
}

/// Fee of `amount_lamports` at `fee_bps`, rounded down, with no minimum.
///
/// Returns `InvalidFeeBps` when `fee_bps` exceeds 10 000.
pub fn compute_fee_bps(amount_lamports: u64, fee_bps: u16) -> (r: Result<u64, AmmError>)
    ensures
        fee_bps > 10_000 ==> r == Err::<u64, AmmError>(AmmError::InvalidFeeBps),
        fee_bps <= 10_000 ==> r == Ok::<u64, AmmError>(
            floor_fee(amount_lamports as int, fee_bps as int) as u64,
        ),
{
    if fee_bps as u64 > 10_000 {
        return Err(AmmError::InvalidFeeBps);
    }
    if fee_bps == 0 || amount_lamports == 0 {
        return Ok(0);
    }
    proof {
        lemma_floor_fee_bounds(amount_lamports as int, fee_bps as int);
        assert((amount_lamports as u128) * (fee_bps as u128) <= u128::MAX) by (nonlinear_arith)
            requires
                amount_lamports <= u64::MAX,
                fee_bps <= 10_000,
        ;
    }
    let numerator = match (amount_lamports as u128).checked_mul(fee_bps as u128) {
        Some(n) => n,
        None => return Err(AmmError::ArithmeticOverflow),
    };
    let fee = numerator / (FEE_BPS_DENOMINATOR as u128);
    if fee > u64::MAX as u128 {
        return Err(AmmError::ArithmeticOverflow);
    }
    Ok(fee as u64)
}


/// A trade never pays more than it brings: for every valid fee rate the fee lies
/// between zero and the amount, so the net input is never negative.
pub proof fn lemma_fee_within_amount(amount: u64, fee_bps: u16)
    requires
        fee_bps <= FEE_BPS_DENOMINATOR,
    ensures
        0 <= trade_fee(amount as int, fee_bps as int) <= amount,
        floor_fee(amount as int, fee_bps as int) <= trade_fee(amount as int, fee_bps as int)
            <= floor_fee(amount as int, fee_bps as int) + 1,
{
    lemma_floor_fee_bounds(amount as int, fee_bps as int);
}

/// Every trade of a positive amount at a positive fee rate pays at least one unit,
/// so no amount is small enough to trade for free.
pub proof fn lemma_positive_trade_pays_fee(amount: u64, fee_bps: u16)
    requires
        0 < amount,
        0 < fee_bps <= FEE_BPS_DENOMINATOR,
    ensures
        trade_fee(amount as int, fee_bps as int) >= 1,
{
    lemma_floor_fee_bounds(amount as int, fee_bps as int);
}

/// A larger trade never pays a smaller fee.
pub proof fn lemma_fee_monotone(smaller: u64, larger: u64, fee_bps: u16)
    requires
        smaller <= larger,
        fee_bps <= FEE_BPS_DENOMINATOR,
    ensures
        trade_fee(smaller as int, fee_bps as int) <= trade_fee(larger as int, fee_bps as int),
{
    let a = smaller as int;
    let b = larger as int;
    let f = fee_bps as int;
    assert(a * f <= b * f) by (nonlinear_arith)
        requires
            0 <= a <= b,
            0 <= f,
    ;
    vstd::arithmetic::div_mod::lemma_div_is_ordered(a * f, b * f, 10_000);
    lemma_floor_fee_bounds(a, f);
    lemma_floor_fee_bounds(b, f);
}

/// Splitting a trade in two saves at most one unit of fee compared with
/// trading the whole amount at once.
pub proof fn lemma_split_saves_at_most_one_unit(first: u64, second: u64, fee_bps: u16)
    requires
        fee_bps <= FEE_BPS_DENOMINATOR,
    ensures
        trade_fee(first as int + second as int, fee_bps as int)
            <= trade_fee(first as int, fee_bps as int) + trade_fee(second as int, fee_bps as int) + 1,
{
    let a = first as int;
    let b = second as int;
    let f = fee_bps as int;
    let x = a * f;
    let y = b * f;
    assert((a + b) * f == x + y) by (nonlinear_arith)
        requires
            x == a * f,
            y == b * f,
    ;
    assert(0 <= x && 0 <= y) by (nonlinear_arith)
        requires
            x == a * f,
            y == b * f,
            0 <= a,
            0 <= b,
            0 <= f,
    ;
    vstd::arithmetic::div_mod::lemma_fundamental_div_mod(x, 10_000);
    vstd::arithmetic::div_mod::lemma_fundamental_div_mod(y, 10_000);
    vstd::arithmetic::div_mod::lemma_fundamental_div_mod(x + y, 10_000);
    vstd::arithmetic::div_mod::lemma_mod_bound(x, 10_000);
    vstd::arithmetic::div_mod::lemma_mod_bound(y, 10_000);
    vstd::arithmetic::div_mod::lemma_mod_bound(x + y, 10_000);
    assert((x + y) / 10_000 <= x / 10_000 + y / 10_000 + 1) by (nonlinear_arith)
        requires
            x == 10_000 * (x / 10_000) + x % 10_000,
            y == 10_000 * (y / 10_000) + y % 10_000,
            x + y == 10_000 * ((x + y) / 10_000) + (x + y) % 10_000,
            0 <= x % 10_000 < 10_000,
            0 <= y % 10_000 < 10_000,
            0 <= (x + y) % 10_000 < 10_000,
    ;
    lemma_floor_fee_bounds(a, f);
    lemma_floor_fee_bounds(b, f);
}

} // verus!
