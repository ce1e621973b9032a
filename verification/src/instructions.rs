//! The program's instructions as transitions of plain account state.
//! Each context holds the values its instruction reads; the caller copies them
//! out of the accounts before the call and back after it.
use vstd::prelude::*;

use crate::constants::{DEFAULT_TEMPERATURE_BITS, FEE_BPS_DENOMINATOR, MAX_ORACLE_STALENESS_SECONDS, MIN_CREATE_FEE_BPS};
use crate::error::{AmmError, EndcoinError, SstError};
use crate::liquidity::EmissionOutcome;
use crate::oracle::{feed_read_outcome, feed_read_supported, feed_value_defined, read_feed};
use crate::outside::{associated_token_address, spec_associated_token_address};
use crate::state::{same_address, Address, Amm, Clock, Pool, RewardVault, SST};

verus! {

/// Creation of the global AMM account.
#[derive(Clone, Copy, Debug, PartialEq, Eq)]
pub struct CreateAmm {
    pub amm: Amm,
    pub admin: Address,
}

/// A fee rate that an AMM may be created with.
pub open spec fn valid_create_fee(fee: u16) -> bool {
    MIN_CREATE_FEE_BPS <= fee < FEE_BPS_DENOMINATOR
}

impl CreateAmm {
    /// Creates the AMM with `fee` and the signing admin.
    pub fn create_amm(&mut self, fee: u16) -> (r: Result<(), AmmError>)
        ensures
            !valid_create_fee(fee) ==> r == Err::<(), AmmError>(AmmError::InvalidFee),
            valid_create_fee(fee) && old(self).amm.created ==> r == Err::<(), AmmError>(
                AmmError::AlreadyCreated,
            ),
            r is Err ==> *final(self) == *old(self),
            valid_create_fee(fee) && !old(self).amm.created ==> r is Ok,
            r is Ok ==> valid_create_fee(fee) && !old(self).amm.created,
            r is Ok ==> final(self).amm == (Amm {
                admin: old(self).admin,
                fee,
                created: true,
                last_fee_update_slot: 0,
            }),
            final(self).admin == old(self).admin,
    {
        if !(fee >= MIN_CREATE_FEE_BPS && fee < FEE_BPS_DENOMINATOR) {
            return Err(AmmError::InvalidFee);
        }
        if self.amm.created {
            return Err(AmmError::AlreadyCreated);
        }
        self.amm = Amm { admin: self.admin, fee, created: true, last_fee_update_slot: 0 };
        Ok(())
    }
}

/// Change of the AMM admin.
#[derive(Clone, Copy, Debug, PartialEq, Eq)]
pub struct UpdateAmm {
    pub amm: Amm,
    /// The signer of the instruction.
    pub admin: Address,
}

impl UpdateAmm {
    /// Hands admin authority to `new_admin`; only the current admin may.
    pub fn update_admin(&mut self, new_admin: Address) -> (r: Result<(), AmmError>)
        ensures
            !old(self).amm.created ==> r == Err::<(), AmmError>(AmmError::NotCreated),
            old(self).amm.created && old(self).admin != old(self).amm.admin ==> r == Err::<
                (),
                AmmError,
            >(AmmError::NotSigner),
            r is Err ==> *final(self) == *old(self),
            old(self).amm.created && old(self).admin == old(self).amm.admin ==> r is Ok,
            r is Ok ==> old(self).amm.created && old(self).admin == old(self).amm.admin,
            r is Ok ==> final(self).amm == (Amm { admin: new_admin, ..old(self).amm }),
            final(self).admin == old(self).admin,
    {
        if !self.amm.created {
            return Err(AmmError::NotCreated);
        }
        if same_address(&self.admin, &self.amm.admin) {
            self.amm.admin = new_admin;
            Ok(())
        } else {
            Err(AmmError::NotSigner)
        }
    }
}

/// Change of the LP fee.
#[derive(Clone, Copy, Debug, PartialEq, Eq)]
pub struct UpdateFee {
    pub amm: Amm,
    /// The signer of the instruction.
    pub admin: Address,
    /// Slot of the cluster clock when the instruction runs.
    pub current_slot: u64,
}

impl UpdateFee {
    /// Sets the fee to `new_fee` and records the slot of the change; only the
    /// admin may.
    pub fn update_fee(&mut self, new_fee: u16) -> (r: Result<(), AmmError>)
        ensures
            !old(self).amm.created ==> r == Err::<(), AmmError>(AmmError::NotCreated),
            old(self).amm.created && old(self).admin != old(self).amm.admin ==> r == Err::<
                (),
                AmmError,
            >(AmmError::NotSigner),
            r is Err ==> *final(self) == *old(self),
            old(self).amm.created && old(self).admin == old(self).amm.admin ==> r is Ok,
            r is Ok ==> old(self).amm.created && old(self).admin == old(self).amm.admin,
            r is Ok ==> final(self).amm == (Amm {
                fee: new_fee,
                last_fee_update_slot: old(self).current_slot,
                ..old(self).amm
            }),
            final(self).admin == old(self).admin,
            final(self).current_slot == old(self).current_slot,
    {
        if !self.amm.created {
            return Err(AmmError::NotCreated);
        }
        if same_address(&self.admin, &self.amm.admin) {
            self.amm.fee = new_fee;
            self.amm.last_fee_update_slot = self.current_slot;
            Ok(())
        } else {
            Err(AmmError::NotSigner)
        }
    }
}

/// Creation of the sea-surface-temperature account.
#[derive(Clone, Copy, Debug, PartialEq, Eq)]
pub struct CreateSST {
    pub amm: Amm,
    pub sst: SST,
}

impl CreateSST {
    /// Initializes the SST account with the default temperature and the oracle
    /// feed it will be pulled from.
    pub fn create_sst(&mut self, oracle_feed: Address) -> (r: Result<(), SstError>)
        ensures
            old(self).sst.created ==> r == Err::<(), SstError>(SstError::AlreadyInitialized)
                && *final(self) == *old(self),
            !old(self).sst.created ==> r is Ok && final(self).sst == (SST {
                temperature_bits: DEFAULT_TEMPERATURE_BITS,
                created: true,
                oracle_feed,
                last_updated_slot: 0,
                last_updated_unix_timestamp: 0,
            }),
            final(self).amm == old(self).amm,
    {
        if self.sst.created {
            return Err(SstError::AlreadyInitialized);
        }
        self.sst = SST {
            temperature_bits: DEFAULT_TEMPERATURE_BITS,
            created: true,
            oracle_feed,
            last_updated_slot: 0,
            last_updated_unix_timestamp: 0,
        };
        Ok(())
    }
}

/// Manual temperature update by the admin.
#[derive(Clone, Copy, Debug, PartialEq, Eq)]
pub struct UpdateSstTemperature {
    pub amm: Amm,
    /// The signer of the instruction.
    pub admin: Address,
    pub sst: SST,
}

impl UpdateSstTemperature {
    /// Stores a new temperature. `temperature_check` is the outcome of validating
    /// the temperature (finite, within the accepted range), done by the caller in
    /// floating point.
    pub fn update_sst_temperature(&mut self, temperature_bits: u64, temperature_check: Result<
        (),
        AmmError,
    >) -> (r: Result<(), EndcoinError>)
        ensures
            old(self).admin != old(self).amm.admin ==> r == Err::<(), EndcoinError>(
                EndcoinError::Amm(AmmError::UnauthorizedAdmin),
            ),
            old(self).admin == old(self).amm.admin && !old(self).sst.created ==> r == Err::<
                (),
                EndcoinError,
            >(EndcoinError::Sst(SstError::NotInitialized)),
            old(self).admin == old(self).amm.admin && old(self).sst.created
                && temperature_check is Err ==> r == Err::<(), EndcoinError>(
                EndcoinError::Amm(temperature_check->Err_0),
            ),
            r is Err ==> *final(self) == *old(self),
            old(self).admin == old(self).amm.admin && old(self).sst.created
                && temperature_check is Ok ==> r is Ok && final(self).sst == (SST {
                temperature_bits,
                ..old(self).sst
            }),
            final(self).amm == old(self).amm,
            final(self).admin == old(self).admin,
    {
        if !same_address(&self.admin, &self.amm.admin) {
            return Err(EndcoinError::Amm(AmmError::UnauthorizedAdmin));
        }
        if !self.sst.created {
            return Err(EndcoinError::Sst(SstError::NotInitialized));
        }
        match temperature_check {
            Err(e) => return Err(EndcoinError::Amm(e)),
            Ok(()) => {},
        }
        self.sst.temperature_bits = temperature_bits;
        Ok(())
    }
}

/// The feed's temperature as the caller converted it to floating point: its
/// bit pattern and the outcome of validating it (finite, within the accepted range).
#[derive(Clone, Copy, Debug, PartialEq, Eq)]
pub struct TemperatureReading {
    pub temperature_bits: u64,
    pub temperature_check: Result<(), AmmError>,
}

/// Pull of the temperature from the configured oracle feed.
#[derive(Clone, Copy, Debug, PartialEq, Eq)]
pub struct PullFeed {
    pub amm: Amm,
    pub sst: SST,
    /// The feed account passed to the instruction.
    pub feed: Address,
}

/// The SST state after pulling the feed whose account holds `data` at `clock`,
/// or the first rule the pull breaks: the SST must exist, the feed must be the
/// configured one, its value must read, its last update may be at most
/// `MAX_ORACLE_STALENESS_SECONDS` old, and the temperature must be valid.
pub open spec fn pull_feed_transition(
    sst: SST,
    feed: Address,
    clock: Clock,
    data: Seq<u8>,
    temperature: TemperatureReading,
) -> Result<SST, AmmError> {
    if !sst.created {
        Err(AmmError::InvalidTemperature)
    } else if feed != sst.oracle_feed {
        Err(AmmError::OracleFeedMismatch)
    } else {
        match feed_read_outcome(data, clock.slot) {
            Err(e) => Err(e),
            Ok(value) => {
                if !(i64::MIN <= clock.unix_timestamp - value.last_update_timestamp
                    <= MAX_ORACLE_STALENESS_SECONDS) {
                    Err(AmmError::OracleFeedStale)
                } else if temperature.temperature_check is Err {
                    Err(temperature.temperature_check->Err_0)
                } else {
                    Ok(
                        SST {
                            temperature_bits: temperature.temperature_bits,
                            last_updated_slot: clock.slot,
                            last_updated_unix_timestamp: clock.unix_timestamp,
                            ..sst
                        },
                    )
                }
            },
        }
    }
}

impl PullFeed {
    /// Stores the feed's temperature with the slot and time of the pull.
    /// `feed_data` is the feed account's data; `temperature` is its value
    /// converted by the caller.
    pub fn pull_feed(&mut self, clock: &Clock, feed_data: &[u8], temperature: TemperatureReading) -> (r:
        Result<(), AmmError>)
        requires
            old(self).sst.created && old(self).feed == old(self).sst.oracle_feed ==> feed_value_defined(
                feed_data@,
                clock.slot,
            ),
        ensures
            match pull_feed_transition(old(self).sst, old(self).feed, *clock, feed_data@, temperature) {
                Ok(new_sst) => r == Ok::<(), AmmError>(()) && *final(self) == (PullFeed { sst: new_sst, ..*old(self) }),
                Err(e) => r == Err::<(), AmmError>(e) && *final(self) == *old(self),
            },
            old(self).sst.created && old(self).feed == old(self).sst.oracle_feed && feed_read_outcome(
                feed_data@,
                clock.slot,
            ) is Ok && i64::MIN <= clock.unix_timestamp - feed_read_outcome(
                feed_data@,
                clock.slot,
            )->Ok_0.last_update_timestamp <= MAX_ORACLE_STALENESS_SECONDS
                && temperature.temperature_check is Ok ==> r is Ok,
    {
        if !self.sst.created {
            return Err(AmmError::InvalidTemperature);
        }
        if !same_address(&self.feed, &self.sst.oracle_feed) {
            return Err(AmmError::OracleFeedMismatch);
        }
        let value = match read_feed(feed_data, clock.slot) {
            Ok(v) => v,
            Err(e) => return Err(e),
        };
        let staleness = match clock.unix_timestamp.checked_sub(value.last_update_timestamp) {
            Some(s) => s,
            None => return Err(AmmError::OracleFeedStale),
        };
        if staleness > MAX_ORACLE_STALENESS_SECONDS {
            return Err(AmmError::OracleFeedStale);
        }
        match temperature.temperature_check {
            Err(e) => return Err(e),
            Ok(()) => {},
        }
        self.sst.temperature_bits = temperature.temperature_bits;
        self.sst.last_updated_slot = clock.slot;
        self.sst.last_updated_unix_timestamp = clock.unix_timestamp;
        Ok(())
    }

    /// `pull_feed` where reading the feed is defined; `None`, with nothing
    /// changed, when the SST exists, the feed matches and reading its value at
    /// the clock's slot is not defined.
    pub fn try_pull_feed(&mut self, clock: &Clock, feed_data: &[u8], temperature: TemperatureReading) -> (r:
        Option<Result<(), AmmError>>)
        ensures
            (old(self).sst.created && old(self).feed == old(self).sst.oracle_feed && !feed_value_defined(
                feed_data@,
                clock.slot,
            )) ==> r is None && *final(self) == *old(self),
            !(old(self).sst.created && old(self).feed == old(self).sst.oracle_feed && !feed_value_defined(
                feed_data@,
                clock.slot,
            )) ==> match pull_feed_transition(old(self).sst, old(self).feed, *clock, feed_data@, temperature) {
                Ok(new_sst) => r == Some(Ok::<(), AmmError>(())) && *final(self) == (PullFeed {
                    sst: new_sst,
                    ..*old(self)
                }),
                Err(e) => r == Some(Err::<(), AmmError>(e)) && *final(self) == *old(self),
            },
    {
        if self.sst.created && same_address(&self.feed, &self.sst.oracle_feed) && !feed_read_supported(
            feed_data,
            clock.slot,
        ) {
            return None;
        }
        Some(self.pull_feed(clock, feed_data, temperature))
    }
}

/// Creation of a pool of two mints.
#[derive(Clone, Copy, Debug, PartialEq, Eq)]
pub struct CreatePool {
    /// Address of the AMM account.
    pub amm: Address,
    pub pool: Pool,
    pub pool_authority: Address,
    pub mint_a: Address,
    pub mint_b: Address,
    pub token_program: Address,
}

impl CreatePool {
    /// Records the pool's AMM, mints and canonical reserve accounts: the
    /// associated token accounts of the pool authority for each mint. When one of
    /// those addresses does not exist the pool cannot have a canonical reserve and
    /// the call fails with `InvalidPoolAccount`.
    pub fn create_pool(&mut self) -> (r: Result<(), AmmError>)
        ensures
            old(self).mint_a == old(self).mint_b ==> r == Err::<(), AmmError>(AmmError::InvalidMint),
            old(self).mint_a != old(self).mint_b && (spec_associated_token_address(
                old(self).pool_authority,
                old(self).mint_a,
                old(self).token_program,
            ) is None || spec_associated_token_address(
                old(self).pool_authority,
                old(self).mint_b,
                old(self).token_program,
            ) is None) ==> r == Err::<(), AmmError>(AmmError::InvalidPoolAccount),
            r is Err ==> *final(self) == *old(self),
            old(self).mint_a != old(self).mint_b ==> (spec_associated_token_address(
                old(self).pool_authority,
                old(self).mint_a,
                old(self).token_program,
            ) matches Some(reserve_a) ==> (spec_associated_token_address(
                old(self).pool_authority,
                old(self).mint_b,
                old(self).token_program,
            ) matches Some(reserve_b) ==> r is Ok && *final(self) == (CreatePool {
                pool: Pool {
                    amm: old(self).amm,
                    mint_a: old(self).mint_a,
                    mint_b: old(self).mint_b,
                    reserve_a,
                    reserve_b,
                },
                ..*old(self)
            }))),
    {
        if same_address(&self.mint_a, &self.mint_b) {
            return Err(AmmError::InvalidMint);
        }
        let reserve_a = match associated_token_address(&self.pool_authority, &self.mint_a, &self.token_program) {
            Some(a) => a,
            None => return Err(AmmError::InvalidPoolAccount),
        };
        let reserve_b = match associated_token_address(&self.pool_authority, &self.mint_b, &self.token_program) {
            Some(b) => b,
            None => return Err(AmmError::InvalidPoolAccount),
        };
        self.record_pool(reserve_a, reserve_b);
        Ok(())
    }

    /// Writes the pool account from the context and the two reserve addresses.
    pub fn record_pool(&mut self, reserve_a: Address, reserve_b: Address)
        ensures
            *final(self) == (CreatePool {
                pool: Pool {
                    amm: old(self).amm,
                    mint_a: old(self).mint_a,
                    mint_b: old(self).mint_b,
                    reserve_a,
                    reserve_b,
                },
                ..*old(self)
            }),
    {
        self.pool = Pool { amm: self.amm, mint_a: self.mint_a, mint_b: self.mint_b, reserve_a, reserve_b };
    }
}

/// Creation of the pool's reserve token accounts.
#[derive(Clone, Copy, Debug, PartialEq, Eq)]
pub struct CreateTokenAccounts {
    pub pool: Pool,
    pub pool_account_a: Address,
    pub pool_account_b: Address,
}

impl CreateTokenAccounts {
    /// The accounts being created must be the pool's canonical reserves.
    pub fn create_token_accounts(&self) -> (r: Result<(), AmmError>)
        ensures
            r is Ok <==> (self.pool_account_a == self.pool.reserve_a && self.pool_account_b
                == self.pool.reserve_b),
            r is Err ==> r == Err::<(), AmmError>(AmmError::InvalidPoolAccount),
    {
        if !same_address(&self.pool_account_a, &self.pool.reserve_a) {
            return Err(AmmError::InvalidPoolAccount);
        }
        if !same_address(&self.pool_account_b, &self.pool.reserve_b) {
            return Err(AmmError::InvalidPoolAccount);
        }
        Ok(())
    }
}

/// Minting of the pool share of an emission.
#[derive(Clone, Copy, Debug, PartialEq, Eq)]
pub struct DepositLiquidity {
    pub sst: SST,
}

impl DepositLiquidity {
    /// Decides the amounts minted into the pool reserves and the liquidity
    /// minted for them. `emissions` is the emission computed by the caller from
    /// the stored temperature, or the error that computation gave. Minting
    /// requires a pulled oracle value and positive amounts.
    pub fn deposit_liquidity(&self, emissions: Result<EmissionOutcome, AmmError>) -> (r: Result<
        EmissionOutcome,
        AmmError,
    >)
        ensures
            self.sst.last_updated_unix_timestamp <= 0 ==> r == Err::<EmissionOutcome, AmmError>(
                AmmError::OracleValueMissing,
            ),
            self.sst.last_updated_unix_timestamp > 0 && emissions is Err ==> r == emissions,
            emissions matches Ok(e) ==> (self.sst.last_updated_unix_timestamp > 0 ==> {
                &&& (e.amount_a == 0 || e.amount_b == 0 || e.liquidity == 0) ==> r == Err::<
                    EmissionOutcome,
                    AmmError,
                >(AmmError::DepositTooSmall)
                &&& (e.amount_a > 0 && e.amount_b > 0 && e.liquidity > 0) ==> r == Ok::<
                    EmissionOutcome,
                    AmmError,
                >(e)
            }),
    {
        if self.sst.last_updated_unix_timestamp <= 0 {
            return Err(AmmError::OracleValueMissing);
        }
        let e = match emissions {
            Ok(e) => e,
            Err(err) => return Err(err),
        };
        if !(e.amount_a > 0 && e.amount_b > 0 && e.liquidity > 0) {
            return Err(AmmError::DepositTooSmall);
        }
        Ok(e)
    }
}

/// Minting of the reward share of an emission.
#[derive(Clone, Copy, Debug, PartialEq, Eq)]
pub struct DepositRewards {
    pub reward_vault: RewardVault,
    pub sst: SST,
}

impl DepositRewards {
    /// Decides the amounts minted into the reward vault. `emissions` is the
    /// emission computed by the caller from the stored temperature, or the error
    /// that computation gave. Minting requires a pulled oracle value and two
    /// positive amounts.
    pub fn deposit_rewards(&self, emissions: Result<EmissionOutcome, AmmError>) -> (r: Result<
        (u64, u64),
        AmmError,
    >)
        ensures
            self.sst.last_updated_unix_timestamp <= 0 ==> r == Err::<(u64, u64), AmmError>(
                AmmError::OracleValueMissing,
            ),
            self.sst.last_updated_unix_timestamp > 0 && emissions is Err ==> r == Err::<
                (u64, u64),
                AmmError,
            >(emissions->Err_0),
            emissions matches Ok(e) ==> (self.sst.last_updated_unix_timestamp > 0 && (e.amount_a == 0
                || e.amount_b == 0) ==> r == Err::<(u64, u64), AmmError>(AmmError::DepositTooSmall)),
            emissions matches Ok(e) ==> (self.sst.last_updated_unix_timestamp > 0 && e.amount_a > 0
                && e.amount_b > 0 ==> r == Ok::<(u64, u64), AmmError>((e.amount_a, e.amount_b))),
    {
        if self.sst.last_updated_unix_timestamp <= 0 {
            return Err(AmmError::OracleValueMissing);
        }
        let e = match emissions {
            Ok(e) => e,
            Err(err) => return Err(err),
        };
        if !(e.amount_a > 0 && e.amount_b > 0) {
            return Err(AmmError::DepositTooSmall);
        }
        Ok((e.amount_a, e.amount_b))
    }
}

/// Creation of the reward vault of a pool.
#[derive(Clone, Copy, Debug, PartialEq, Eq)]
pub struct CreateRewardVault {
    pub amm: Amm,
    /// The signer of the instruction.
    pub admin: Address,
    /// Address of the pool account.
    pub pool_key: Address,
    pub pool: Pool,
    pub reward_vault: RewardVault,
    /// Bump seed of the vault's program address.
    pub bump: u8,
}

impl CreateRewardVault {
    /// Records the vault of the pool with the signer that approves claims; only
    /// the AMM admin may.
    pub fn create_reward_vault(&mut self, whitelist_authority: Address) -> (r: Result<(), AmmError>)
        ensures
            old(self).admin != old(self).amm.admin ==> r == Err::<(), AmmError>(
                AmmError::UnauthorizedAdmin,
            ) && *final(self) == *old(self),
            old(self).admin == old(self).amm.admin ==> r is Ok && *final(self) == (CreateRewardVault {
                reward_vault: RewardVault {
                    pool: old(self).pool_key,
                    mint_a: old(self).pool.mint_a,
                    mint_b: old(self).pool.mint_b,
                    bump: old(self).bump,
                    whitelist_authority,
                },
                ..*old(self)
            }),
    {
        if !same_address(&self.admin, &self.amm.admin) {
            return Err(AmmError::UnauthorizedAdmin);
        }
        self.reward_vault = RewardVault {
            pool: self.pool_key,
            mint_a: self.pool.mint_a,
            mint_b: self.pool.mint_b,
            bump: self.bump,
            whitelist_authority,
        };
        Ok(())
    }
}

/// Change of the signer that approves reward claims.
#[derive(Clone, Copy, Debug, PartialEq, Eq)]
pub struct UpdateRewardWhitelist {
    pub amm: Amm,
    /// The signer of the instruction.
    pub admin: Address,
    pub reward_vault: RewardVault,
}

impl UpdateRewardWhitelist {
    /// Sets the vault's whitelist authority; only the AMM admin may.
    pub fn update_reward_whitelist(&mut self, whitelist_authority: Address) -> (r: Result<(), AmmError>)
        ensures
            old(self).admin != old(self).amm.admin ==> r == Err::<(), AmmError>(
                AmmError::UnauthorizedAdmin,
            ) && *final(self) == *old(self),
            old(self).admin == old(self).amm.admin ==> r is Ok && *final(self) == (UpdateRewardWhitelist {
                reward_vault: RewardVault { whitelist_authority, ..old(self).reward_vault },
                ..*old(self)
            }),
    {
        if !same_address(&self.admin, &self.amm.admin) {
            return Err(AmmError::UnauthorizedAdmin);
        }
        self.reward_vault.whitelist_authority = whitelist_authority;
        Ok(())
    }
}

/// Record of a reward claim.
#[derive(Clone, Copy, Debug, PartialEq, Eq)]
pub struct ClaimRewardEvent {
    pub claimer: Address,
    pub amount_a: u64,
    pub amount_b: u64,
}

/// A claim of rewards from the vault.
#[derive(Clone, Copy, Debug, PartialEq, Eq)]
pub struct ClaimReward {
    pub reward_vault: RewardVault,
    /// The account receiving the rewards.
    pub claimer: Address,
    /// The signer approving the claim.
    pub whitelist_signer: Address,
}

impl ClaimReward {
    /// Approves a claim of `amount_a` and `amount_b` when the vault's whitelist
    /// authority signed it, and returns the claim's record.
    pub fn claim_reward(&self, amount_a: u64, amount_b: u64) -> (r: Result<ClaimRewardEvent, AmmError>)
        ensures
            self.whitelist_signer != self.reward_vault.whitelist_authority ==> r == Err::<
                ClaimRewardEvent,
                AmmError,
            >(AmmError::UnauthorizedClaimer),
            self.whitelist_signer == self.reward_vault.whitelist_authority ==> r == Ok::<
                ClaimRewardEvent,
                AmmError,
            >(ClaimRewardEvent { claimer: self.claimer, amount_a, amount_b }),
    {
        if !same_address(&self.whitelist_signer, &self.reward_vault.whitelist_authority) {
            return Err(AmmError::UnauthorizedClaimer);
        }
        Ok(ClaimRewardEvent { claimer: self.claimer, amount_a, amount_b })
    }
}

} // verus!
