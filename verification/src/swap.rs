//! Integer rules of a swap; the weighted pricing itself is floating-point
//! and is computed by the caller between these steps.
use vstd::prelude::*;

use crate::constants::{FEE_BPS_DENOMINATOR, MAX_SWAP_OUTPUT_BPS};
use crate::error::AmmError;
use crate::fee::{apply_fee, trade_fee};
use crate::guards::{enforce_recent_parameters, recent_parameters_outcome};
use crate::state::{same_address, Address, Amm, Clock, Pool, SST};

verus! {

/// Token balances that a swap reads: the trader's two accounts and the two reserves.
#[derive(Clone, Copy, Debug, PartialEq, Eq)]
pub struct PoolBalances {
    pub trader_a: u64,
    pub trader_b: u64,
    pub reserve_a: u64,
    pub reserve_b: u64,
}

/// The reserves a swap trades against, seen from the input side.
#[derive(Clone, Copy, Debug, PartialEq, Eq)]
pub struct SwapSides {
    pub reserve_in: u64,
    pub reserve_out: u64,
}

/// First step of a swap: the input must be positive and the fee and oracle
/// values must be usable at `clock`.
pub fn check_swap_request(amm: &Amm, sst: &SST, clock: &Clock, input_amount: u64) -> (r: Result<
    (),
    AmmError,
>)
    ensures
        input_amount == 0 ==> r == Err::<(), AmmError>(AmmError::InputAmountTooSmall),
        input_amount > 0 ==> r == recent_parameters_outcome(*amm, *sst, *clock),
{
    if input_amount == 0 {
        return Err(AmmError::InputAmountTooSmall);
    }
    enforce_recent_parameters(amm, sst, clock)
}

/// Picks the input and output side of a swap and checks that the trader holds
/// the input amount. `swap_a` means token A goes in and token B comes out.
pub fn select_swap_sides(swap_a: bool, input_amount: u64, balances: &PoolBalances) -> (r: Result<
    SwapSides,
    AmmError,
>)
    ensures
        ({
            let held = if swap_a { balances.trader_a } else { balances.trader_b };
            let sides = if swap_a {
                SwapSides { reserve_in: balances.reserve_a, reserve_out: balances.reserve_b }
            } else {
                SwapSides { reserve_in: balances.reserve_b, reserve_out: balances.reserve_a }
            };
            &&& input_amount > held ==> r == Err::<SwapSides, AmmError>(AmmError::InsufficientBalance)
            &&& input_amount <= held ==> r == Ok::<SwapSides, AmmError>(sides)
        }),
{
    let (held, reserve_in, reserve_out) = if swap_a {
        (balances.trader_a, balances.reserve_a, balances.reserve_b)
    } else {
        (balances.trader_b, balances.reserve_b, balances.reserve_a)
    };
    if input_amount > held {
        return Err(AmmError::InsufficientBalance);
    }
    Ok(SwapSides { reserve_in, reserve_out })
}

/// Both reserves must hold liquidity before a weighted invariant is taken.
pub fn check_reserves(reserve_end: u64, reserve_gaia: u64) -> (r: Result<(), AmmError>)
    ensures
        r is Ok <==> (reserve_end > 0 && reserve_gaia > 0),
        r is Err ==> r == Err::<(), AmmError>(AmmError::InsufficientLiquidity),
{
    if reserve_end > 0 && reserve_gaia > 0 {
        Ok(())
    } else {
        Err(AmmError::InsufficientLiquidity)
    }
}

/// The part of the input that is priced after the fee is taken; it must be positive.
pub fn net_swap_input(input_amount: u64, fee_bps: u16) -> (r: Result<u64, AmmError>)
    ensures
        fee_bps > FEE_BPS_DENOMINATOR ==> r == Err::<u64, AmmError>(AmmError::InvalidFeeBps),
        fee_bps <= FEE_BPS_DENOMINATOR && input_amount == trade_fee(input_amount as int, fee_bps as int)
            ==> r == Err::<u64, AmmError>(AmmError::InputAmountTooSmall),
        fee_bps <= FEE_BPS_DENOMINATOR && input_amount != trade_fee(input_amount as int, fee_bps as int)
            ==> r == Ok::<u64, AmmError>((input_amount - trade_fee(input_amount as int, fee_bps as int)) as u64),
{
    if fee_bps <= FEE_BPS_DENOMINATOR {
        proof {
            crate::fee::lemma_fee_within_amount(input_amount, fee_bps);
        }
    }
    let (taxed_input, _fee) = match apply_fee(input_amount, fee_bps) {
        Ok(split) => split,
        Err(e) => return Err(e),
    };
    if taxed_input == 0 {
        return Err(AmmError::InputAmountTooSmall);
    }
    Ok(taxed_input)
}

/// Integer preconditions of the weighted swap formula: a positive priced input
/// and two non-empty reserves.
pub fn check_swap_amounts(amount_in_after_fee: u64, reserve_in: u64, reserve_out: u64) -> (r: Result<
    (),
    AmmError,
>)
    ensures
        amount_in_after_fee == 0 ==> r == Err::<(), AmmError>(AmmError::InputAmountTooSmall),
        amount_in_after_fee > 0 && (reserve_in == 0 || reserve_out == 0) ==> r == Err::<(), AmmError>(
            AmmError::InsufficientLiquidity,
        ),
        amount_in_after_fee > 0 && reserve_in > 0 && reserve_out > 0 ==> r == Ok::<(), AmmError>(()),
{
    if amount_in_after_fee == 0 {
        return Err(AmmError::InputAmountTooSmall);
    }
    if reserve_in == 0 || reserve_out == 0 {
        return Err(AmmError::InsufficientLiquidity);
    }
    Ok(())
}

/// Share of the output reserve, in basis points rounded down, that `output` takes.
pub open spec fn output_share_bps(output: int, reserve_out: int) -> int {
    (output * FEE_BPS_DENOMINATOR) / reserve_out
}

/// Last integer step of a swap: the output must reach the trader's minimum and
/// may take at most `MAX_SWAP_OUTPUT_BPS` of the output reserve.
pub fn check_swap_output(output: u64, min_output_amount: u64, reserve_out: u64) -> (r: Result<
    (),
    AmmError,
>)
    requires
        reserve_out > 0,
    ensures
        output < min_output_amount ==> r == Err::<(), AmmError>(AmmError::OutputTooSmall),
        output >= min_output_amount && output_share_bps(output as int, reserve_out as int)
            > MAX_SWAP_OUTPUT_BPS ==> r == Err::<(), AmmError>(AmmError::PriceImpactTooHigh),
        output >= min_output_amount && output_share_bps(output as int, reserve_out as int)
            <= MAX_SWAP_OUTPUT_BPS ==> r == Ok::<(), AmmError>(()),
        r is Ok ==> output * FEE_BPS_DENOMINATOR < (MAX_SWAP_OUTPUT_BPS + 1) * reserve_out,
{
    if output < min_output_amount {
        return Err(AmmError::OutputTooSmall);
    }
    proof {
        assert((output as u128) * (FEE_BPS_DENOMINATOR as u128) <= u128::MAX) by (nonlinear_arith)
            requires
                output <= u64::MAX,
        ;
    }
    let scaled = match (output as u128).checked_mul(FEE_BPS_DENOMINATOR as u128) {
        Some(s) => s,
        None => return Err(AmmError::ArithmeticOverflow),
    };
    let output_share = scaled / (reserve_out as u128);
    if output_share > MAX_SWAP_OUTPUT_BPS as u128 {
        return Err(AmmError::PriceImpactTooHigh);
    }
    proof {
        let x = output as int * 10_000;
        let d = reserve_out as int;
        vstd::arithmetic::div_mod::lemma_fundamental_div_mod(x, d);
        vstd::arithmetic::div_mod::lemma_mod_bound(x, d);
        assert(x < (MAX_SWAP_OUTPUT_BPS + 1) * d) by (nonlinear_arith)
            requires
                x == d * (x / d) + x % d,
                x % d < d,
                x / d <= MAX_SWAP_OUTPUT_BPS,
                d > 0,
        ;
    }
    Ok(())
}

/// The fields of a token account that a swap checks.
#[derive(Clone, Copy, Debug, PartialEq, Eq)]
pub struct TokenAccountView {
    pub address: Address,
    pub owner: Address,
    pub mint: Address,
}

/// A reserve account passed to a swap must be the pool's canonical reserve for
/// `mint`, owned by the pool authority and holding that mint.
pub fn validate_reserve_account(
    account: &TokenAccountView,
    canonical_reserve: &Address,
    pool_authority: &Address,
    mint: &Address,
) -> (r: Result<(), AmmError>)
    ensures
        r is Ok <==> (account.address == *canonical_reserve && account.owner == *pool_authority
            && account.mint == *mint),
        r is Err ==> r == Err::<(), AmmError>(AmmError::InvalidPoolAccount),
{
    if !same_address(&account.address, canonical_reserve) {
        return Err(AmmError::InvalidPoolAccount);
    }
    if !same_address(&account.owner, pool_authority) {
        return Err(AmmError::InvalidPoolAccount);
    }
    if !same_address(&account.mint, mint) {
        return Err(AmmError::InvalidPoolAccount);
    }
    Ok(())
}

/// The values a swap reads from its accounts.
#[derive(Clone, Copy, Debug, PartialEq, Eq)]
pub struct SwapExactTokensForTokens {
    pub amm: Amm,
    pub sst: SST,
    pub pool: Pool,
    pub pool_authority: Address,
    pub mint_a: Address,
    pub mint_b: Address,
    pub pool_account_a: TokenAccountView,
    pub pool_account_b: TokenAccountView,
    pub balances: PoolBalances,
    pub clock: Clock,
}

/// Outcomes of the floating-point pricing steps, computed by the caller: the
/// temperature weights, the weighted invariant before the swap, and the weighted
/// output for the input after the fee.
#[derive(Clone, Copy, Debug, PartialEq, Eq)]
pub struct SwapPricing {
    pub weights: Result<(), AmmError>,
    pub invariant: Result<(), AmmError>,
    pub output: Result<u64, AmmError>,
}

/// What an accepted swap moves: `input_amount` from the trader into the input
/// reserve, `output_amount` from the output reserve to the trader.
#[derive(Clone, Copy, Debug, PartialEq, Eq)]
pub struct SwapPlan {
    pub input_amount: u64,
    pub net_input_amount: u64,
    pub output_amount: u64,
    pub reserve_in: u64,
    pub reserve_out: u64,
}

/// Whether `account` is the canonical reserve for `mint` held by `authority`.
pub open spec fn reserve_ok(account: TokenAccountView, canonical: Address, authority: Address, mint: Address) -> bool {
    account.address == canonical && account.owner == authority && account.mint == mint
}

/// The outcome of a swap of `input_amount` (token A in when `swap_a`), in the
/// order its rules apply: canonical reserves, a positive input, usable fee and
/// oracle values, valid weights, the trader's balance, non-empty reserves and a
/// valid invariant, the fee, a positive priced input, the weighted output, the
/// trader's minimum and the price-impact cap.
pub open spec fn swap_outcome(
    ctx: SwapExactTokensForTokens,
    swap_a: bool,
    input_amount: u64,
    min_output_amount: u64,
    pricing: SwapPricing,
) -> Result<SwapPlan, AmmError> {
    let held = if swap_a { ctx.balances.trader_a } else { ctx.balances.trader_b };
    let reserve_in = if swap_a { ctx.balances.reserve_a } else { ctx.balances.reserve_b };
    let reserve_out = if swap_a { ctx.balances.reserve_b } else { ctx.balances.reserve_a };
    let fee = trade_fee(input_amount as int, ctx.amm.fee as int);
    let net = input_amount - fee;
    if !reserve_ok(ctx.pool_account_a, ctx.pool.reserve_a, ctx.pool_authority, ctx.mint_a) {
        Err(AmmError::InvalidPoolAccount)
    } else if !reserve_ok(ctx.pool_account_b, ctx.pool.reserve_b, ctx.pool_authority, ctx.mint_b) {
        Err(AmmError::InvalidPoolAccount)
    } else if input_amount == 0 {
        Err(AmmError::InputAmountTooSmall)
    } else if recent_parameters_outcome(ctx.amm, ctx.sst, ctx.clock) is Err {
        Err(recent_parameters_outcome(ctx.amm, ctx.sst, ctx.clock)->Err_0)
    } else if pricing.weights is Err {
        Err(pricing.weights->Err_0)
    } else if input_amount > held {
        Err(AmmError::InsufficientBalance)
    } else if ctx.balances.reserve_a == 0 || ctx.balances.reserve_b == 0 {
        Err(AmmError::InsufficientLiquidity)
    } else if pricing.invariant is Err {
        Err(pricing.invariant->Err_0)
    } else if ctx.amm.fee > FEE_BPS_DENOMINATOR {
        Err(AmmError::InvalidFeeBps)
    } else if net == 0 {
        Err(AmmError::InputAmountTooSmall)
    } else if pricing.output is Err {
        Err(pricing.output->Err_0)
    } else if pricing.output->Ok_0 < min_output_amount {
        Err(AmmError::OutputTooSmall)
    } else if output_share_bps(pricing.output->Ok_0 as int, reserve_out as int) > MAX_SWAP_OUTPUT_BPS {
        Err(AmmError::PriceImpactTooHigh)
    } else {
        Ok(
            SwapPlan {
                input_amount,
                net_input_amount: net as u64,
                output_amount: pricing.output->Ok_0,
                reserve_in,
                reserve_out,
            },
        )
    }
}

impl SwapExactTokensForTokens {
    /// Decides a swap of `input_amount`, token A in when `swap_a`, given the
    /// outcomes of its floating-point pricing steps. An accepted swap takes at
    /// least `min_output_amount` and at most `MAX_SWAP_OUTPUT_BPS` of the output reserve.
    pub fn swap(&self, swap_a: bool, input_amount: u64, min_output_amount: u64, pricing: &SwapPricing) -> (r:
        Result<SwapPlan, AmmError>)
        ensures
            r == swap_outcome(*self, swap_a, input_amount, min_output_amount, *pricing),
            r matches Ok(plan) ==> {
                &&& plan.output_amount >= min_output_amount
                &&& plan.output_amount * FEE_BPS_DENOMINATOR < (MAX_SWAP_OUTPUT_BPS + 1) * plan.reserve_out
                &&& plan.net_input_amount + trade_fee(input_amount as int, self.amm.fee as int) == input_amount
                &&& recent_parameters_outcome(self.amm, self.sst, self.clock) is Ok
            },
    {
        match validate_reserve_account(&self.pool_account_a, &self.pool.reserve_a, &self.pool_authority, &self.mint_a) {
            Ok(()) => {},
            Err(e) => return Err(e),
        }
        match validate_reserve_account(&self.pool_account_b, &self.pool.reserve_b, &self.pool_authority, &self.mint_b) {
            Ok(()) => {},
            Err(e) => return Err(e),
        }
        match check_swap_request(&self.amm, &self.sst, &self.clock, input_amount) {
            Ok(()) => {},
            Err(e) => return Err(e),
        }
        match pricing.weights {
            Ok(()) => {},
            Err(e) => return Err(e),
        }
        let sides = match select_swap_sides(swap_a, input_amount, &self.balances) {
            Ok(s) => s,
            Err(e) => return Err(e),
        };
        match check_reserves(self.balances.reserve_a, self.balances.reserve_b) {
            Ok(()) => {},
            Err(e) => return Err(e),
        }
        match pricing.invariant {
            Ok(()) => {},
            Err(e) => return Err(e),
        }
        if self.amm.fee <= FEE_BPS_DENOMINATOR {
            proof {
                crate::fee::lemma_fee_within_amount(input_amount, self.amm.fee);
            }
        }
        let net_input_amount = match net_swap_input(input_amount, self.amm.fee) {
            Ok(n) => n,
            Err(e) => return Err(e),
        };
        match check_swap_amounts(net_input_amount, sides.reserve_in, sides.reserve_out) {
            Ok(()) => {},
            Err(e) => return Err(e),
        }
        let output_amount = match pricing.output {
            Ok(o) => o,
            Err(e) => return Err(e),
        };
        match check_swap_output(output_amount, min_output_amount, sides.reserve_out) {
            Ok(()) => {},
            Err(e) => return Err(e),
        }
        Ok(
            SwapPlan {
                input_amount,
                net_input_amount,
                output_amount,
                reserve_in: sides.reserve_in,
                reserve_out: sides.reserve_out,
            },
        )
    }
}

} // verus!
