//! Properties that relate several instructions: parameter changes and the swaps
//! that follow them.
use vstd::prelude::*;

use crate::constants::{
    FEE_BPS_DENOMINATOR, MAX_ORACLE_STALENESS_SECONDS, MAX_SWAP_OUTPUT_BPS, PARAM_UPDATE_COOLDOWN_SLOTS,
};
use crate::fee::trade_fee;
use crate::guards::recent_parameters_outcome;
use crate::state::{Amm, Clock, SST};
use crate::swap::{reserve_ok, swap_outcome, SwapExactTokensForTokens, SwapPlan, SwapPricing};
use crate::error::AmmError;
use crate::instructions::{pull_feed_transition, TemperatureReading};
use crate::oracle::feed_read_outcome;
use crate::state::Address;

verus! {

/// After the fee changes at `update_slot` (the state `UpdateFee::update_fee`
/// leaves), no swap passes its parameter checks until the cooldown has passed;
/// in particular a swap in the same slot as the fee change is refused.
pub proof fn lemma_fee_update_blocks_swaps_within_cooldown(
    amm: Amm,
    new_fee: u16,
    update_slot: u64,
    sst: SST,
    clock: Clock,
)
    requires
        clock.slot < update_slot + PARAM_UPDATE_COOLDOWN_SLOTS,
    ensures
        recent_parameters_outcome(
            Amm { fee: new_fee, last_fee_update_slot: update_slot, ..amm },
            sst,
            clock,
        ) is Err,
{
}

/// After an oracle pull at `pull_clock` (the state `PullFeed::pull_feed` leaves),
/// no swap passes its parameter checks until the cooldown has passed; in
/// particular a swap in the same slot as the pull is refused.
pub proof fn lemma_oracle_pull_blocks_swaps_within_cooldown(
    amm: Amm,
    sst: SST,
    temperature_bits: u64,
    pull_clock: Clock,
    clock: Clock,
)
    requires
        clock.slot < pull_clock.slot + PARAM_UPDATE_COOLDOWN_SLOTS,
    ensures
        recent_parameters_outcome(
            amm,
            SST {
                temperature_bits,
                last_updated_slot: pull_clock.slot,
                last_updated_unix_timestamp: pull_clock.unix_timestamp,
                ..sst
            },
            clock,
        ) is Err,
{
}

/// Once the cooldown after both the last oracle pull and the last fee change has
/// passed, and while the pulled value is not older than the staleness bound,
/// swaps pass their parameter checks.
pub proof fn lemma_swaps_allowed_after_cooldown(
    amm: Amm,
    sst: SST,
    temperature_bits: u64,
    pull_clock: Clock,
    clock: Clock,
)
    requires
        sst.created,
        pull_clock.unix_timestamp > 0,
        0 <= clock.unix_timestamp - pull_clock.unix_timestamp <= MAX_ORACLE_STALENESS_SECONDS,
        clock.slot >= pull_clock.slot + PARAM_UPDATE_COOLDOWN_SLOTS,
        clock.slot >= amm.last_fee_update_slot + PARAM_UPDATE_COOLDOWN_SLOTS,
    ensures
        recent_parameters_outcome(
            amm,
            SST {
                temperature_bits,
                last_updated_slot: pull_clock.slot,
                last_updated_unix_timestamp: pull_clock.unix_timestamp,
                ..sst
            },
            clock,
        ) is Ok,
{
}

/// A swap decided within the cooldown after the last fee change is refused,
/// whatever its pricing; with canonical reserves, a positive input and a fresh,
/// settled oracle value the refusal is `ParameterRecentlyUpdated`.
pub proof fn lemma_fee_update_blocks_swap(
    ctx: SwapExactTokensForTokens,
    swap_a: bool,
    input_amount: u64,
    min_output_amount: u64,
    pricing: SwapPricing,
)
    requires
        ctx.clock.slot < ctx.amm.last_fee_update_slot + PARAM_UPDATE_COOLDOWN_SLOTS,
    ensures
        swap_outcome(ctx, swap_a, input_amount, min_output_amount, pricing) is Err,
        ({
            &&& reserve_ok(ctx.pool_account_a, ctx.pool.reserve_a, ctx.pool_authority, ctx.mint_a)
            &&& reserve_ok(ctx.pool_account_b, ctx.pool.reserve_b, ctx.pool_authority, ctx.mint_b)
            &&& input_amount > 0
            &&& ctx.sst.created
            &&& ctx.sst.last_updated_unix_timestamp > 0
            &&& 0 <= ctx.clock.unix_timestamp - ctx.sst.last_updated_unix_timestamp
                <= MAX_ORACLE_STALENESS_SECONDS
            &&& ctx.clock.slot >= ctx.sst.last_updated_slot + PARAM_UPDATE_COOLDOWN_SLOTS
            &&& ctx.amm.last_fee_update_slot < u64::MAX
        }) ==> swap_outcome(ctx, swap_a, input_amount, min_output_amount, pricing) == Err::<
            crate::swap::SwapPlan,
            AmmError,
        >(AmmError::ParameterRecentlyUpdated),
{
}

/// None of the pricing outcomes carries `e`: an error `e` of the swap then comes
/// from the swap's own rules.
pub open spec fn pricing_never_reports(pricing: SwapPricing, e: AmmError) -> bool {
    &&& pricing.weights != Err::<(), AmmError>(e)
    &&& pricing.invariant != Err::<(), AmmError>(e)
    &&& pricing.output != Err::<u64, AmmError>(e)
}

/// A swap never takes more of the input token than the trader holds: an accepted
/// swap's input is at most the trader's balance of the token going in (token A
/// when `swap_a`); a refusal for insufficient balance means the input exceeds that
/// balance; an input up to the whole balance is never refused for it; and once
/// the reserves, the input, the fee and oracle values and the weights pass, an
/// input above the balance is refused for it.
pub proof fn lemma_swap_never_exceeds_input_balance(
    ctx: SwapExactTokensForTokens,
    swap_a: bool,
    input_amount: u64,
    min_output_amount: u64,
    pricing: SwapPricing,
)
    ensures
        swap_outcome(ctx, swap_a, input_amount, min_output_amount, pricing) is Ok ==> input_amount <= (
        if swap_a {
            ctx.balances.trader_a
        } else {
            ctx.balances.trader_b
        }),
        pricing_never_reports(pricing, AmmError::InsufficientBalance) && swap_outcome(
            ctx,
            swap_a,
            input_amount,
            min_output_amount,
            pricing,
        ) == Err::<SwapPlan, AmmError>(AmmError::InsufficientBalance) ==> input_amount > (if swap_a {
            ctx.balances.trader_a
        } else {
            ctx.balances.trader_b
        }),
        pricing_never_reports(pricing, AmmError::InsufficientBalance) && input_amount <= (if swap_a {
            ctx.balances.trader_a
        } else {
            ctx.balances.trader_b
        }) ==> swap_outcome(ctx, swap_a, input_amount, min_output_amount, pricing) != Err::<
            SwapPlan,
            AmmError,
        >(AmmError::InsufficientBalance),
        ({
            &&& reserve_ok(ctx.pool_account_a, ctx.pool.reserve_a, ctx.pool_authority, ctx.mint_a)
            &&& reserve_ok(ctx.pool_account_b, ctx.pool.reserve_b, ctx.pool_authority, ctx.mint_b)
            &&& input_amount > 0
            &&& recent_parameters_outcome(ctx.amm, ctx.sst, ctx.clock) is Ok
            &&& pricing.weights is Ok
            &&& input_amount > (if swap_a { ctx.balances.trader_a } else { ctx.balances.trader_b })
        }) ==> swap_outcome(ctx, swap_a, input_amount, min_output_amount, pricing) == Err::<
            SwapPlan,
            AmmError,
        >(AmmError::InsufficientBalance),
{
}

/// An accepted swap's plan moves exactly the requested input and the priced
/// output, names the pool's real reserves (the input token's reserve in, the
/// other token's reserve out), gives the output at least the trader's minimum,
/// and takes at most `MAX_SWAP_OUTPUT_BPS` of the output token's reserve.
pub proof fn lemma_swap_plan_respects_output_reserve(
    ctx: SwapExactTokensForTokens,
    swap_a: bool,
    input_amount: u64,
    min_output_amount: u64,
    pricing: SwapPricing,
)
    ensures
        swap_outcome(ctx, swap_a, input_amount, min_output_amount, pricing) matches Ok(plan) ==> {
            &&& reserve_ok(ctx.pool_account_a, ctx.pool.reserve_a, ctx.pool_authority, ctx.mint_a)
            &&& reserve_ok(ctx.pool_account_b, ctx.pool.reserve_b, ctx.pool_authority, ctx.mint_b)
            &&& input_amount > 0
            &&& recent_parameters_outcome(ctx.amm, ctx.sst, ctx.clock) is Ok
            &&& pricing.weights is Ok
            &&& pricing.invariant is Ok
            &&& ctx.balances.reserve_a > 0
            &&& ctx.balances.reserve_b > 0
            &&& ctx.amm.fee <= FEE_BPS_DENOMINATOR
            &&& plan.net_input_amount > 0
            &&& plan.input_amount == input_amount
            &&& pricing.output == Ok::<u64, AmmError>(plan.output_amount)
            &&& plan.net_input_amount + trade_fee(input_amount as int, ctx.amm.fee as int) == input_amount
            &&& plan.reserve_in == (if swap_a { ctx.balances.reserve_a } else { ctx.balances.reserve_b })
            &&& plan.reserve_out == (if swap_a { ctx.balances.reserve_b } else { ctx.balances.reserve_a })
            &&& plan.output_amount >= min_output_amount
            &&& (if swap_a { ctx.balances.reserve_b } else { ctx.balances.reserve_a }) > 0
            &&& (plan.output_amount * FEE_BPS_DENOMINATOR) / (if swap_a {
                ctx.balances.reserve_b
            } else {
                ctx.balances.reserve_a
            }) as int <= MAX_SWAP_OUTPUT_BPS
        },
{
    if ctx.amm.fee <= FEE_BPS_DENOMINATOR {
        crate::fee::lemma_fee_within_amount(input_amount, ctx.amm.fee);
    }
}

/// Every swap that meets all the rules is accepted: canonical reserves, a
/// positive input within the trader's balance of the input token, usable fee and
/// oracle values, successful pricing, non-empty reserves, a valid fee rate that
/// leaves a positive priced input, an output at least the minimum and at most
/// `MAX_SWAP_OUTPUT_BPS` of the output token's reserve. The plan then moves the
/// input into the input token's reserve and the output out of the other.
pub proof fn lemma_swap_accepted_within_rules(
    ctx: SwapExactTokensForTokens,
    swap_a: bool,
    input_amount: u64,
    min_output_amount: u64,
    pricing: SwapPricing,
    output: u64,
)
    requires
        reserve_ok(ctx.pool_account_a, ctx.pool.reserve_a, ctx.pool_authority, ctx.mint_a),
        reserve_ok(ctx.pool_account_b, ctx.pool.reserve_b, ctx.pool_authority, ctx.mint_b),
        input_amount > 0,
        input_amount <= (if swap_a { ctx.balances.trader_a } else { ctx.balances.trader_b }),
        recent_parameters_outcome(ctx.amm, ctx.sst, ctx.clock) is Ok,
        pricing.weights is Ok,
        pricing.invariant is Ok,
        pricing.output == Ok::<u64, AmmError>(output),
        ctx.balances.reserve_a > 0,
        ctx.balances.reserve_b > 0,
        ctx.amm.fee <= FEE_BPS_DENOMINATOR,
        trade_fee(input_amount as int, ctx.amm.fee as int) < input_amount,
        output >= min_output_amount,
        (output * FEE_BPS_DENOMINATOR) / (if swap_a { ctx.balances.reserve_b } else { ctx.balances.reserve_a }) as int
            <= MAX_SWAP_OUTPUT_BPS,
    ensures
        swap_outcome(ctx, swap_a, input_amount, min_output_amount, pricing) == Ok::<SwapPlan, AmmError>(
            SwapPlan {
                input_amount,
                net_input_amount: (input_amount - trade_fee(input_amount as int, ctx.amm.fee as int)) as u64,
                output_amount: output,
                reserve_in: if swap_a { ctx.balances.reserve_a } else { ctx.balances.reserve_b },
                reserve_out: if swap_a { ctx.balances.reserve_b } else { ctx.balances.reserve_a },
            },
        ),
{
}

/// A swap refused for price impact priced an output above `MAX_SWAP_OUTPUT_BPS`
/// of the output token's reserve.
pub proof fn lemma_price_impact_refusal_explained(
    ctx: SwapExactTokensForTokens,
    swap_a: bool,
    input_amount: u64,
    min_output_amount: u64,
    pricing: SwapPricing,
)
    ensures
        pricing_never_reports(pricing, AmmError::PriceImpactTooHigh) && swap_outcome(
            ctx,
            swap_a,
            input_amount,
            min_output_amount,
            pricing,
        ) == Err::<SwapPlan, AmmError>(AmmError::PriceImpactTooHigh) ==> {
            &&& pricing.output is Ok
            &&& (if swap_a { ctx.balances.reserve_b } else { ctx.balances.reserve_a }) > 0
            &&& (pricing.output->Ok_0 * FEE_BPS_DENOMINATOR) / (if swap_a {
                ctx.balances.reserve_b
            } else {
                ctx.balances.reserve_a
            }) as int > MAX_SWAP_OUTPUT_BPS
        },
{
}

/// Each refusal of a swap for one of its own rules names a rule the request
/// breaks: non-canonical reserve accounts, a zero input or one the fee takes
/// whole, an empty reserve, a fee rate above the denominator, or a priced
/// output below the trader's minimum. Once every earlier rule passes, an output
/// below the minimum is refused as too small.
pub proof fn lemma_swap_refusals_explained(
    ctx: SwapExactTokensForTokens,
    swap_a: bool,
    input_amount: u64,
    min_output_amount: u64,
    pricing: SwapPricing,
)
    ensures
        pricing_never_reports(pricing, AmmError::InvalidPoolAccount) && swap_outcome(
            ctx,
            swap_a,
            input_amount,
            min_output_amount,
            pricing,
        ) == Err::<SwapPlan, AmmError>(AmmError::InvalidPoolAccount) ==> !reserve_ok(
            ctx.pool_account_a,
            ctx.pool.reserve_a,
            ctx.pool_authority,
            ctx.mint_a,
        ) || !reserve_ok(ctx.pool_account_b, ctx.pool.reserve_b, ctx.pool_authority, ctx.mint_b),
        pricing_never_reports(pricing, AmmError::InputAmountTooSmall) && swap_outcome(
            ctx,
            swap_a,
            input_amount,
            min_output_amount,
            pricing,
        ) == Err::<SwapPlan, AmmError>(AmmError::InputAmountTooSmall) ==> input_amount == 0 || trade_fee(
            input_amount as int,
            ctx.amm.fee as int,
        ) == input_amount,
        pricing_never_reports(pricing, AmmError::InsufficientLiquidity) && swap_outcome(
            ctx,
            swap_a,
            input_amount,
            min_output_amount,
            pricing,
        ) == Err::<SwapPlan, AmmError>(AmmError::InsufficientLiquidity) ==> ctx.balances.reserve_a == 0
            || ctx.balances.reserve_b == 0,
        pricing_never_reports(pricing, AmmError::InvalidFeeBps) && swap_outcome(
            ctx,
            swap_a,
            input_amount,
            min_output_amount,
            pricing,
        ) == Err::<SwapPlan, AmmError>(AmmError::InvalidFeeBps) ==> ctx.amm.fee > FEE_BPS_DENOMINATOR,
        pricing_never_reports(pricing, AmmError::OutputTooSmall) && swap_outcome(
            ctx,
            swap_a,
            input_amount,
            min_output_amount,
            pricing,
        ) == Err::<SwapPlan, AmmError>(AmmError::OutputTooSmall) ==> pricing.output is Ok
            && pricing.output->Ok_0 < min_output_amount,
        ({
            &&& reserve_ok(ctx.pool_account_a, ctx.pool.reserve_a, ctx.pool_authority, ctx.mint_a)
            &&& reserve_ok(ctx.pool_account_b, ctx.pool.reserve_b, ctx.pool_authority, ctx.mint_b)
            &&& input_amount > 0
            &&& input_amount <= (if swap_a { ctx.balances.trader_a } else { ctx.balances.trader_b })
            &&& recent_parameters_outcome(ctx.amm, ctx.sst, ctx.clock) is Ok
            &&& pricing.weights is Ok
            &&& pricing.invariant is Ok
            &&& ctx.balances.reserve_a > 0
            &&& ctx.balances.reserve_b > 0
            &&& ctx.amm.fee <= FEE_BPS_DENOMINATOR
            &&& trade_fee(input_amount as int, ctx.amm.fee as int) < input_amount
            &&& pricing.output is Ok
            &&& pricing.output->Ok_0 < min_output_amount
        }) ==> swap_outcome(ctx, swap_a, input_amount, min_output_amount, pricing) == Err::<
            SwapPlan,
            AmmError,
        >(AmmError::OutputTooSmall),
{
}

/// An oracle pull that succeeds stores exactly the reading it was given, stamped
/// with the clock of the pull, and changes nothing else of the SST; it succeeds
/// only for an existing SST, the configured feed, a value that reads, a last
/// update at most `MAX_ORACLE_STALENESS_SECONDS` old and a valid temperature; and
/// every pull meeting those rules succeeds.
pub proof fn lemma_pull_feed_stores_fresh_reading(
    sst: SST,
    feed: Address,
    clock: Clock,
    data: Seq<u8>,
    temperature: TemperatureReading,
)
    ensures
        pull_feed_transition(sst, feed, clock, data, temperature) matches Ok(new_sst) ==> {
            &&& sst.created
            &&& feed == sst.oracle_feed
            &&& feed_read_outcome(data, clock.slot) is Ok
            &&& i64::MIN <= clock.unix_timestamp - feed_read_outcome(
                data,
                clock.slot,
            )->Ok_0.last_update_timestamp <= MAX_ORACLE_STALENESS_SECONDS
            &&& temperature.temperature_check is Ok
            &&& new_sst.temperature_bits == temperature.temperature_bits
            &&& new_sst.last_updated_slot == clock.slot
            &&& new_sst.last_updated_unix_timestamp == clock.unix_timestamp
            &&& new_sst.created == sst.created
            &&& new_sst.oracle_feed == sst.oracle_feed
        },
        ({
            &&& sst.created
            &&& feed == sst.oracle_feed
            &&& feed_read_outcome(data, clock.slot) is Ok
            &&& i64::MIN <= clock.unix_timestamp - feed_read_outcome(
                data,
                clock.slot,
            )->Ok_0.last_update_timestamp <= MAX_ORACLE_STALENESS_SECONDS
            &&& temperature.temperature_check is Ok
        }) ==> pull_feed_transition(sst, feed, clock, data, temperature) is Ok,
        !sst.created ==> pull_feed_transition(sst, feed, clock, data, temperature) == Err::<
            SST,
            AmmError,
        >(AmmError::InvalidTemperature),
        sst.created && feed != sst.oracle_feed ==> pull_feed_transition(
            sst,
            feed,
            clock,
            data,
            temperature,
        ) == Err::<SST, AmmError>(AmmError::OracleFeedMismatch),
{
}

} // verus!
