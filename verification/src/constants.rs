//! Protocol-wide constants.
use vstd::prelude::*;

verus! {

/// Denominator of every basis-point quantity: 10 000 bps is 100 %.
pub const FEE_BPS_DENOMINATOR: u16 = 10_000;

/// Lowest LP fee, in basis points, that an AMM may be created with.
pub const MIN_CREATE_FEE_BPS: u16 = 5;

/// Age, in seconds, past which an oracle reading counts as stale.
pub const MAX_ORACLE_STALENESS_SECONDS: i64 = 900;

/// Number of slots that must pass after a fee change or an oracle pull
/// before a swap may use the new value.
pub const PARAM_UPDATE_COOLDOWN_SLOTS: u64 = 1;

/// Largest share of the output reserve, in basis points, that one swap may take.
pub const MAX_SWAP_OUTPUT_BPS: u16 = 1_000;

/// Scale applied to a rounded emission so that amounts carry three decimals.
pub const EMISSION_SCALE: u64 = 1_000;

/// IEEE-754 bit pattern of the default sea-surface temperature (21 degrees Celsius)
/// that a freshly created SST account holds.
pub const DEFAULT_TEMPERATURE_BITS: u64 = 0x4035_0000_0000_0000;

/// Account sizes, discriminator included.
pub const AMM_LEN: usize = 8 + 32 + 2 + 1 + 8;
pub const SST_LEN: usize = 8 + 8 + 1 + 32 + 8 + 8;
pub const POOL_LEN: usize = 8 + 32 + 32 + 32 + 32 + 32;
pub const REWARD_VAULT_LEN: usize = 8 + 32 + 32 + 32 + 1 + 32;

} // verus!
