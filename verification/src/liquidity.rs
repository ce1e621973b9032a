//! Integer square root and the liquidity minted for an emission.
use vstd::prelude::*;

use crate::constants::EMISSION_SCALE;
use crate::error::AmmError;

verus! {

/// `root` is the integer square root of `value`: the largest integer whose
/// square does not exceed `value`.
pub open spec fn is_integer_sqrt(value: int, root: int) -> bool {
    &&& 0 <= root
    &&& root * root <= value
    &&& value < (root + 1) * (root + 1)
}

/// An integer has at most one integer square root.
pub proof fn lemma_integer_sqrt_unique(value: int, r1: int, r2: int)
    requires
        is_integer_sqrt(value, r1),
        is_integer_sqrt(value, r2),
    ensures
        r1 == r2,
{
    if r1 < r2 {
        assert((r1 + 1) * (r1 + 1) <= r2 * r2) by (nonlinear_arith)
            requires
                0 <= r1 < r2,
        ;
    } else if r2 < r1 {
        assert((r2 + 1) * (r2 + 1) <= r1 * r1) by (nonlinear_arith)
            requires
                0 <= r2 < r1,
        ;
    }
}

/// One Newton step from any positive guess never lands below the root:
/// `((x + v / x) / 2 + 1)^2 > v`.
proof fn lemma_newton_step_stays_above(v: int, x: int)
    requires
        0 <= v,
        0 < x,
    ensures
        ((x + v / x) / 2 + 1) * ((x + v / x) / 2 + 1) > v,
{
    let q = v / x;
    let y = (x + q) / 2;
    let t = y + 1;
    vstd::arithmetic::div_mod::lemma_fundamental_div_mod(v, x);
    vstd::arithmetic::div_mod::lemma_mod_bound(v, x);
    assert(v < (q + 1) * x) by (nonlinear_arith)
        requires
            v == x * q + v % x,
            0 <= v % x < x,
    ;
    assert(2 * t >= x + q + 1);
    assert(t * t > v) by (nonlinear_arith)
        requires
            v < (q + 1) * x,
            2 * t >= x + q + 1,
            0 < x,
            0 <= q,
    {
        // (q + 1) * x <= (2t - x) * x = t^2 - (t - x)^2 <= t^2
        assert((q + 1) * x <= (2 * t - x) * x);
        assert((2 * t - x) * x == t * t - (t - x) * (t - x));
        assert((t - x) * (t - x) >= 0);
    }
}

/// A guess whose square exceeds `v` strictly decreases under a Newton step.
proof fn lemma_newton_step_decreases(v: int, x: int)
    requires
        0 <= v,
        0 < x,
        x * x > v,
    ensures
        (x + v / x) / 2 < x,
{
    let q = v / x;
    vstd::arithmetic::div_mod::lemma_fundamental_div_mod(v, x);
    vstd::arithmetic::div_mod::lemma_mod_bound(v, x);
    assert(q < x) by (nonlinear_arith)
        requires
            v == x * q + v % x,
            0 <= v % x,
            x * x > v,
            0 < x,
    ;
}

/// The sum `x + v / x` computed by a Newton step fits when `1 <= x <= v`.
proof fn lemma_newton_sum_bounded(v: int, x: int)
    requires
        1 <= x <= v,
    ensures
        x + v / x <= v + 1,
{
    let q = v / x;
    vstd::arithmetic::div_mod::lemma_fundamental_div_mod(v, x);
    vstd::arithmetic::div_mod::lemma_mod_bound(v, x);
    assert(q + x <= v + 1) by (nonlinear_arith)
        requires
            v == x * q + v % x,
            0 <= v % x,
            1 <= x <= v,
            0 <= q,
    {
        assert(x * (q + x - v - 1) <= (v - x) * (1 - x));
        assert((v - x) * (1 - x) <= 0);
    }
}

/// Integer square root by Newton's iteration, starting from `value` itself.
pub fn integer_sqrt(value: u128) -> (r: u128)
    requires
        value < u128::MAX,
    ensures
        is_integer_sqrt(value as int, r as int),
{
    if value == 0 {
        assert(is_integer_sqrt(0, 0)) by (nonlinear_arith);
        return 0;
    }
    let mut x0: u128 = value;
    proof {
        lemma_newton_sum_bounded(value as int, value as int);
        lemma_newton_step_stays_above(value as int, value as int);
        assert((value as int + 1) * (value as int + 1) > value) by (nonlinear_arith)
            requires
                value >= 1,
        ;
    }
    let mut x1: u128 = (x0 + value / x0) / 2;
    while x1 < x0
        invariant
            0 < value < u128::MAX,
            1 <= x0 <= value,
            (x0 as int + 1) * (x0 as int + 1) > value,
            x1 as int == (x0 as int + value as int / x0 as int) / 2,
            (x1 as int + 1) * (x1 as int + 1) > value,
        decreases x0,
    {
        x0 = x1;
        assert(x0 >= 1) by (nonlinear_arith)
            requires
                (x0 as int + 1) * (x0 as int + 1) > value,
                value >= 1,
                x0 >= 0,
        ;
        proof {
            lemma_newton_sum_bounded(value as int, x0 as int);
            lemma_newton_step_stays_above(value as int, x0 as int);
        }
        x1 = (x0 + value / x0) / 2;
    }
    proof {
        if (x0 as int) * (x0 as int) > value as int {
            lemma_newton_step_decreases(value as int, x0 as int);
        }
    }
    x0
}

/// Liquidity minted for a deposit of `amount_a` and `amount_b`: the integer
/// square root of their product. The product of two `u64` always fits, and so
/// does its root, so this never fails.
pub fn compute_liquidity(amount_a: u64, amount_b: u64) -> (r: Result<u64, AmmError>)
    ensures
        r matches Ok(l) && is_integer_sqrt(amount_a as int * amount_b as int, l as int),
{
    proof {
        assert((amount_a as u128) * (amount_b as u128) < u128::MAX) by (nonlinear_arith)
            requires
                amount_a <= u64::MAX,
                amount_b <= u64::MAX,
        ;
    }
    let product = match (amount_a as u128).checked_mul(amount_b as u128) {
        Some(p) => p,
        None => return Err(AmmError::ArithmeticOverflow),
    };
    let liquidity = integer_sqrt(product);
    proof {
        assert(liquidity <= u64::MAX) by (nonlinear_arith)
            requires
                liquidity as int * liquidity as int <= amount_a as int * amount_b as int,
                amount_a <= u64::MAX,
                amount_b <= u64::MAX,
                liquidity >= 0,
        {
            if liquidity > u64::MAX {
                assert(liquidity as int * liquidity as int >= (u64::MAX as int + 1) * (u64::MAX as int + 1));
                assert(amount_a as int * amount_b as int <= u64::MAX as int * u64::MAX as int);
            }
        }
    }
    if liquidity > u64::MAX as u128 {
        return Err(AmmError::ArithmeticOverflow);
    }
    Ok(liquidity as u64)
}

/// The liquidity of a deposit lies between the two deposited amounts (it is
/// their integer geometric mean), does not depend on their order, and equals
/// the amount when both amounts are equal.
pub proof fn lemma_liquidity_between_amounts(amount_a: u64, amount_b: u64, liquidity: u64)
    requires
        is_integer_sqrt(amount_a as int * amount_b as int, liquidity as int),
    ensures
        (if amount_a <= amount_b { amount_a } else { amount_b }) <= liquidity,
        liquidity <= (if amount_a <= amount_b { amount_b } else { amount_a }),
        is_integer_sqrt(amount_b as int * amount_a as int, liquidity as int),
        amount_a == amount_b ==> liquidity == amount_a,
{
    let a = amount_a as int;
    let b = amount_b as int;
    let l = liquidity as int;
    let lo = if a <= b { a } else { b };
    let hi = if a <= b { b } else { a };
    assert(lo * lo <= a * b && a * b <= hi * hi) by (nonlinear_arith)
        requires
            0 <= lo <= hi,
            (lo == a && hi == b) || (lo == b && hi == a),
    ;
    if l > hi {
        assert(l * l > hi * hi) by (nonlinear_arith)
            requires
                0 <= hi < l,
        ;
    }
    if l < lo {
        assert((l + 1) * (l + 1) <= lo * lo) by (nonlinear_arith)
            requires
                0 <= l < lo,
        ;
    }
    assert(a * b == b * a) by (nonlinear_arith);
}

/// A deposit that is at least as large in both tokens mints at least as much
/// liquidity.
pub proof fn lemma_liquidity_monotone(
    amount_a: u64,
    amount_b: u64,
    liquidity: u64,
    larger_a: u64,
    larger_b: u64,
    larger_liquidity: u64,
)
    requires
        amount_a <= larger_a,
        amount_b <= larger_b,
        is_integer_sqrt(amount_a as int * amount_b as int, liquidity as int),
        is_integer_sqrt(larger_a as int * larger_b as int, larger_liquidity as int),
    ensures
        liquidity <= larger_liquidity,
{
    let v = amount_a as int * amount_b as int;
    let w = larger_a as int * larger_b as int;
    assert(v <= w) by (nonlinear_arith)
        requires
            0 <= amount_a <= larger_a,
            0 <= amount_b <= larger_b,
            v == amount_a as int * amount_b as int,
            w == larger_a as int * larger_b as int,
    ;
    if liquidity > larger_liquidity {
        let r = liquidity as int;
        let s = larger_liquidity as int;
        assert((s + 1) * (s + 1) <= r * r) by (nonlinear_arith)
            requires
                0 <= s < r,
        ;
    }
}

/// Which account an emission is minted into.
#[derive(Clone, Copy, Debug, PartialEq, Eq, Structural)]
pub enum EmissionTarget {
    Pool,
    Rewards,
}

/// Token amounts of one emission and the liquidity that backs them.
#[derive(Clone, Copy, Debug, PartialEq, Eq, Structural)]
pub struct EmissionOutcome {
    pub amount_a: u64,
    pub amount_b: u64,
    pub liquidity: u64,
}

/// Scales a rounded emission to token units with three decimals.
///
/// Returns `ArithmeticOverflow` exactly when the scaled amount exceeds `u64::MAX`.
pub fn scale_emission(rounded: u64) -> (r: Result<u64, AmmError>)
    ensures
        rounded * EMISSION_SCALE <= u64::MAX ==> r == Ok::<u64, AmmError>(
            (rounded * EMISSION_SCALE) as u64,
        ),
        rounded * EMISSION_SCALE > u64::MAX ==> r == Err::<u64, AmmError>(
            AmmError::ArithmeticOverflow,
        ),
{
    match rounded.checked_mul(EMISSION_SCALE) {
        Some(scaled) => Ok(scaled),
        None => Err(AmmError::ArithmeticOverflow),
    }
}

/// Assembles an emission of `amount_a` and `amount_b` together with its liquidity.
/// Never fails.
pub fn build_emission_outcome(amount_a: u64, amount_b: u64) -> (r: Result<EmissionOutcome, AmmError>)
    ensures
        r matches Ok(o) && o.amount_a == amount_a && o.amount_b == amount_b
            && is_integer_sqrt(amount_a as int * amount_b as int, o.liquidity as int),
{
    let liquidity = match compute_liquidity(amount_a, amount_b) {
        Ok(l) => l,
        Err(e) => return Err(e),
    };
    Ok(EmissionOutcome { amount_a, amount_b, liquidity })
}

} // verus!
