//! Account state of the program, held as plain values.
use vstd::prelude::*;

verus! {

/// A 32-byte account address.
pub type Address = [u8; 32];

/// Global AMM configuration.
#[derive(Clone, Copy, Debug, PartialEq, Eq)]
pub struct Amm {
    /// Account that has admin authority over the AMM.
    pub admin: Address,
    /// The LP fee taken on each trade, in basis points.
    pub fee: u16,
    /// The AMM has been created.
    pub created: bool,
    /// Slot where the fee was most recently changed.
    pub last_fee_update_slot: u64,
}

/// Sea-surface-temperature oracle state. The temperature, a floating-point
/// number of degrees Celsius, is carried as its IEEE-754 bit pattern.
#[derive(Clone, Copy, Debug, PartialEq, Eq)]
pub struct SST {
    pub temperature_bits: u64,
    pub created: bool,
    /// The oracle feed account used for the temperature.
    pub oracle_feed: Address,
    /// Slot and time of the most recent oracle pull.
    pub last_updated_slot: u64,
    pub last_updated_unix_timestamp: i64,
}

/// A liquidity pool of two mints.
#[derive(Clone, Copy, Debug, PartialEq, Eq)]
pub struct Pool {
    /// The AMM this pool belongs to.
    pub amm: Address,
    /// Mint of token A, Endcoin.
    pub mint_a: Address,
    /// Mint of token B, Gaiacoin.
    pub mint_b: Address,
    /// Canonical reserve account for `mint_a`.
    pub reserve_a: Address,
    /// Canonical reserve account for `mint_b`.
    pub reserve_b: Address,
}

/// Vault holding the reward share of emissions.
#[derive(Clone, Copy, Debug, PartialEq, Eq)]
pub struct RewardVault {
    pub pool: Address,
    pub mint_a: Address,
    pub mint_b: Address,
    pub bump: u8,
    /// External signer that approves reward claims.
    pub whitelist_authority: Address,
}

/// The cluster clock as an instruction sees it.
#[derive(Clone, Copy, Debug, PartialEq, Eq)]
pub struct Clock {
    pub slot: u64,
    pub unix_timestamp: i64,
}

/// Whether two addresses are the same account.
pub fn same_address(a: &Address, b: &Address) -> (r: bool)
    ensures
        r == (*a == *b),
{
    let mut i: usize = 0;
    while i < 32
        invariant
            0 <= i <= 32,
            forall|j: int| 0 <= j < i ==> a[j] == b[j],
        decreases 32 - i,
    {
        if a[i] != b[i] {
            return false;
        }
        i = i + 1;
    }
    proof {
        broadcast use vstd::array::axiom_array_ext_equal;
        assert(*a =~= *b);
    }
    true
}

} // verus!
