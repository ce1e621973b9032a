//! Error kinds reported by the program's rules.
use vstd::prelude::*;

verus! {

/// Errors of the AMM, its pool, swaps, emissions and oracle handling.
#[derive(Clone, Copy, Debug, PartialEq, Eq, Structural)]
pub enum AmmError {
    InvalidFee,
    AlreadyCreated,
    NotCreated,
    NotSigner,
    UnauthorizedAdmin,
    InvalidMint,
    InvalidFeeBps,
    ArithmeticOverflow,
    InputAmountTooSmall,
    InsufficientLiquidity,
    InsufficientBalance,
    OutputTooSmall,
    InvariantViolated,
    DepositTooSmall,
    InvalidTemperature,
    UnauthorizedClaimer,
    InvalidPoolAccount,
    OracleFeedMismatch,
    OracleFeedStale,
    InvalidOracleFeed,
    OracleValueMissing,
    ParameterRecentlyUpdated,
    PriceImpactTooHigh,
}

/// Errors of the sea-surface-temperature account.
#[derive(Clone, Copy, Debug, PartialEq, Eq, Structural)]
pub enum SstError {
    AlreadyInitialized,
    NotInitialized,
}

/// Either kind of error, for instructions that can raise both.
#[derive(Clone, Copy, Debug, PartialEq, Eq, Structural)]
pub enum EndcoinError {
    Amm(AmmError),
    Sst(SstError),
}

} // verus!
