use endcoin::error::AmmError;
use endcoin::guards::enforce_recent_parameters;
use endcoin::instructions::{PullFeed, TemperatureReading, UpdateFee};
use switchboard_on_demand::on_demand::accounts::pull_feed::PullFeedAccountData;
use endcoin::state::{Amm, Clock, Pool, SST};
use endcoin::swap::{
    check_swap_amounts, check_swap_output, check_swap_request, net_swap_input, select_swap_sides,
    validate_reserve_account, PoolBalances, SwapExactTokensForTokens, SwapPlan, SwapPricing,
    SwapSides, TokenAccountView,
};

const ADMIN: [u8; 32] = [1; 32];
const FEED: [u8; 32] = [7; 32];

fn amm(last_fee_update_slot: u64) -> Amm {
    Amm { admin: ADMIN, fee: 500, created: true, last_fee_update_slot }
}

fn sst(slot: u64, ts: i64) -> SST {
    SST {
        temperature_bits: 21.0f64.to_bits(),
        created: true,
        oracle_feed: FEED,
        last_updated_slot: slot,
        last_updated_unix_timestamp: ts,
    }
}

#[test]
fn recent_parameters_accept_fresh_values() {
    let clock = Clock { slot: 100, unix_timestamp: 10_000 };
    assert_eq!(enforce_recent_parameters(&amm(98), &sst(98, 9_999), &clock), Ok(()));
    // staleness bound is inclusive
    assert_eq!(enforce_recent_parameters(&amm(0), &sst(99, 9_100), &clock), Ok(()));
}

#[test]
fn recent_parameters_reject_each_broken_rule() {
    let clock = Clock { slot: 100, unix_timestamp: 10_000 };
    let mut missing = sst(98, 9_999);
    missing.created = false;
    assert_eq!(
        enforce_recent_parameters(&amm(0), &missing, &clock),
        Err(AmmError::InvalidTemperature)
    );
    assert_eq!(
        enforce_recent_parameters(&amm(0), &sst(0, 0), &clock),
        Err(AmmError::OracleValueMissing)
    );
    assert_eq!(
        enforce_recent_parameters(&amm(0), &sst(98, 10_000 - 901), &clock),
        Err(AmmError::OracleFeedStale)
    );
    let far_past = Clock { slot: 100, unix_timestamp: i64::MIN };
    assert_eq!(
        enforce_recent_parameters(&amm(0), &sst(98, 10), &far_past),
        Err(AmmError::OracleFeedStale)
    );
    assert_eq!(
        enforce_recent_parameters(&amm(0), &sst(100, 9_999), &clock),
        Err(AmmError::ParameterRecentlyUpdated)
    );
    assert_eq!(
        enforce_recent_parameters(&amm(0), &sst(u64::MAX, 9_999), &clock),
        Err(AmmError::ArithmeticOverflow)
    );
    assert_eq!(
        enforce_recent_parameters(&amm(100), &sst(98, 9_999), &clock),
        Err(AmmError::ParameterRecentlyUpdated)
    );
    assert_eq!(
        enforce_recent_parameters(&amm(u64::MAX), &sst(98, 9_999), &clock),
        Err(AmmError::ArithmeticOverflow)
    );
}

#[test]
fn swap_request_rejects_zero_input_first() {
    let clock = Clock { slot: 100, unix_timestamp: 10_000 };
    assert_eq!(
        check_swap_request(&amm(0), &sst(0, 0), &clock, 0),
        Err(AmmError::InputAmountTooSmall)
    );
    assert_eq!(check_swap_request(&amm(0), &sst(90, 9_990), &clock, 5), Ok(()));
}

#[test]
fn swap_is_blocked_in_the_slot_of_a_fee_update_and_allowed_after() {
    let mut ctx = UpdateFee { amm: amm(0), admin: ADMIN, current_slot: 500 };
    ctx.update_fee(42).unwrap();
    assert_eq!(ctx.amm.fee, 42);
    assert_eq!(ctx.amm.last_fee_update_slot, 500);
    let oracle = sst(400, 1_000);
    let same_slot = Clock { slot: 500, unix_timestamp: 1_001 };
    assert_eq!(
        enforce_recent_parameters(&ctx.amm, &oracle, &same_slot),
        Err(AmmError::ParameterRecentlyUpdated)
    );
    let next_slot = Clock { slot: 501, unix_timestamp: 1_001 };
    assert_eq!(enforce_recent_parameters(&ctx.amm, &oracle, &next_slot), Ok(()));
}

#[test]
fn swap_is_blocked_in_the_slot_of_an_oracle_pull() {
    let mut ctx = PullFeed { amm: amm(0), sst: sst(0, 0), feed: FEED };
    let pull_clock = Clock { slot: 700, unix_timestamp: 5_000 };
    let mut feed: PullFeedAccountData = bytemuck::Zeroable::zeroed();
    feed.max_staleness = 50;
    feed.result.slot = 690;
    feed.result.value = 22_500_000_000_000_000_000;
    feed.last_update_timestamp = 4_990;
    let mut data = vec![196, 27, 108, 196, 10, 215, 219, 40];
    data.extend_from_slice(bytemuck::bytes_of(&feed));
    let reading = TemperatureReading { temperature_bits: 22.5f64.to_bits(), temperature_check: Ok(()) };
    ctx.pull_feed(&pull_clock, &data, reading).unwrap();
    assert_eq!(
        enforce_recent_parameters(&ctx.amm, &ctx.sst, &pull_clock),
        Err(AmmError::ParameterRecentlyUpdated)
    );
    let later = Clock { slot: 701, unix_timestamp: 5_002 };
    assert_eq!(enforce_recent_parameters(&ctx.amm, &ctx.sst, &later), Ok(()));
}

#[test]
fn swap_sides_follow_direction_and_check_balance() {
    let balances = PoolBalances { trader_a: 50, trader_b: 5, reserve_a: 1_000, reserve_b: 2_000 };
    assert_eq!(
        select_swap_sides(true, 50, &balances),
        Ok(SwapSides { reserve_in: 1_000, reserve_out: 2_000 })
    );
    assert_eq!(
        select_swap_sides(false, 5, &balances),
        Ok(SwapSides { reserve_in: 2_000, reserve_out: 1_000 })
    );
    assert_eq!(select_swap_sides(true, 51, &balances), Err(AmmError::InsufficientBalance));
    assert_eq!(select_swap_sides(false, 6, &balances), Err(AmmError::InsufficientBalance));
}

#[test]
fn net_swap_input_takes_the_fee() {
    assert_eq!(net_swap_input(10_000, 500), Ok(9_500));
    assert_eq!(net_swap_input(1, 333), Err(AmmError::InputAmountTooSmall));
    assert_eq!(net_swap_input(1, 10_001), Err(AmmError::InvalidFeeBps));
}

#[test]
fn swap_output_respects_minimum_and_price_impact() {
    assert_eq!(check_swap_output(99, 100, 1_000_000), Err(AmmError::OutputTooSmall));
    // exactly the cap of 1000 bps is allowed
    assert_eq!(check_swap_output(100_000, 0, 1_000_000), Ok(()));
    assert_eq!(check_swap_output(100_100, 0, 1_000_000), Err(AmmError::PriceImpactTooHigh));
    // a swap of the whole input reserve moves about half the output reserve
    assert_eq!(check_swap_output(499_000, 0, 1_000_000), Err(AmmError::PriceImpactTooHigh));
    assert_eq!(check_swap_output(9_800, 9_000, 1_000_000), Ok(()));
}

#[test]
fn swap_rejects_noncanonical_pool_accounts() {
    let authority = [3; 32];
    let mint = [4; 32];
    let canonical = [5; 32];
    let good = TokenAccountView { address: canonical, owner: authority, mint };
    assert_eq!(validate_reserve_account(&good, &canonical, &authority, &mint), Ok(()));
    let spoofed = TokenAccountView { address: [6; 32], owner: authority, mint };
    assert_eq!(
        validate_reserve_account(&spoofed, &canonical, &authority, &mint),
        Err(AmmError::InvalidPoolAccount)
    );
    let wrong_owner = TokenAccountView { address: canonical, owner: [9; 32], mint };
    assert_eq!(
        validate_reserve_account(&wrong_owner, &canonical, &authority, &mint),
        Err(AmmError::InvalidPoolAccount)
    );
    let wrong_mint = TokenAccountView { address: canonical, owner: authority, mint: [8; 32] };
    assert_eq!(
        validate_reserve_account(&wrong_mint, &canonical, &authority, &mint),
        Err(AmmError::InvalidPoolAccount)
    );
}

#[test]
fn swap_happy_path_passes_every_step() {
    let clock = Clock { slot: 1_000, unix_timestamp: 50_000 };
    let amm = amm(10);
    let oracle = sst(998, 49_999);
    let input = 10_000;
    assert_eq!(check_swap_request(&amm, &oracle, &clock, input), Ok(()));
    let balances = PoolBalances { trader_a: 250_000, trader_b: 250_000, reserve_a: 1_000_000, reserve_b: 1_000_000 };
    let sides = select_swap_sides(true, input, &balances).unwrap();
    let taxed = net_swap_input(input, amm.fee).unwrap();
    assert_eq!(taxed, 9_500);
    assert_eq!(check_swap_amounts(taxed, sides.reserve_in, sides.reserve_out), Ok(()));
    // equal weights: the weighted formula reduces to the constant-product output
    let base = sides.reserve_in as f64 / (sides.reserve_in + taxed) as f64;
    let output = ((sides.reserve_out as f64) * (1.0 - base)).floor() as u64;
    assert_eq!(check_swap_output(output, 0, sides.reserve_out), Ok(()));
    assert!(output > 0 && output < taxed);
}

const AUTHORITY: [u8; 32] = [30; 32];
const MINT_A: [u8; 32] = [31; 32];
const MINT_B: [u8; 32] = [32; 32];
const RESERVE_A: [u8; 32] = [33; 32];
const RESERVE_B: [u8; 32] = [34; 32];

fn swap_context(clock: Clock, last_fee_update_slot: u64) -> SwapExactTokensForTokens {
    SwapExactTokensForTokens {
        amm: amm(last_fee_update_slot),
        sst: sst(clock.slot - 2, clock.unix_timestamp - 1),
        pool: Pool { amm: [1; 32], mint_a: MINT_A, mint_b: MINT_B, reserve_a: RESERVE_A, reserve_b: RESERVE_B },
        pool_authority: AUTHORITY,
        mint_a: MINT_A,
        mint_b: MINT_B,
        pool_account_a: TokenAccountView { address: RESERVE_A, owner: AUTHORITY, mint: MINT_A },
        pool_account_b: TokenAccountView { address: RESERVE_B, owner: AUTHORITY, mint: MINT_B },
        balances: PoolBalances { trader_a: 250_000, trader_b: 250_000, reserve_a: 1_000_000, reserve_b: 1_000_000 },
        clock,
    }
}

fn priced(output: u64) -> SwapPricing {
    SwapPricing { weights: Ok(()), invariant: Ok(()), output: Ok(output) }
}

#[test]
fn swap_decision_happy_path() {
    let clock = Clock { slot: 1_000, unix_timestamp: 50_000 };
    let ctx = swap_context(clock, 10);
    assert_eq!(
        ctx.swap(true, 10_000, 9_000, &priced(9_400)),
        Ok(SwapPlan { input_amount: 10_000, net_input_amount: 9_500, output_amount: 9_400, reserve_in: 1_000_000, reserve_out: 1_000_000 })
    );
}

#[test]
fn swap_decision_refuses_recent_fee_updates() {
    let clock = Clock { slot: 1_000, unix_timestamp: 50_000 };
    let mut update = UpdateFee { amm: amm(0), admin: ADMIN, current_slot: 1_000 };
    update.update_fee(700).unwrap();
    let mut ctx = swap_context(clock, 0);
    ctx.amm = update.amm;
    assert_eq!(ctx.swap(true, 10_000, 0, &priced(9_000)), Err(AmmError::ParameterRecentlyUpdated));
    let later = Clock { slot: 1_002, unix_timestamp: 50_002 };
    let mut after = swap_context(later, 0);
    after.amm = update.amm;
    assert!(after.swap(true, 5_000, 0, &priced(4_500)).is_ok());
}

#[test]
fn swap_decision_applies_rules_in_order() {
    let clock = Clock { slot: 1_000, unix_timestamp: 50_000 };
    let mut spoofed = swap_context(clock, 10);
    spoofed.pool_account_a.address = [99; 32];
    assert_eq!(spoofed.swap(true, 0, 0, &priced(1)), Err(AmmError::InvalidPoolAccount));
    let ctx = swap_context(clock, 10);
    assert_eq!(ctx.swap(true, 0, 0, &priced(1)), Err(AmmError::InputAmountTooSmall));
    let bad_weights = SwapPricing { weights: Err(AmmError::InvalidTemperature), ..priced(1) };
    assert_eq!(ctx.swap(true, 10, 0, &bad_weights), Err(AmmError::InvalidTemperature));
    assert_eq!(ctx.swap(true, 250_001, 0, &priced(1)), Err(AmmError::InsufficientBalance));
    let bad_invariant = SwapPricing { invariant: Err(AmmError::ArithmeticOverflow), ..priced(1) };
    assert_eq!(ctx.swap(true, 10, 0, &bad_invariant), Err(AmmError::ArithmeticOverflow));
    assert_eq!(ctx.swap(true, 1, 0, &priced(1)), Err(AmmError::InputAmountTooSmall));
    let bad_output = SwapPricing { output: Err(AmmError::ArithmeticOverflow), ..priced(1) };
    assert_eq!(ctx.swap(true, 10, 0, &bad_output), Err(AmmError::ArithmeticOverflow));
    assert_eq!(ctx.swap(true, 10_000, 9_500, &priced(9_400)), Err(AmmError::OutputTooSmall));
    assert_eq!(ctx.swap(false, 200_000, 0, &priced(160_000)), Err(AmmError::PriceImpactTooHigh));
    let mut empty = swap_context(clock, 10);
    empty.balances.reserve_b = 0;
    assert_eq!(empty.swap(true, 10, 0, &priced(1)), Err(AmmError::InsufficientLiquidity));
}
