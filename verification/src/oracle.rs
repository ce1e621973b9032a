//! Reading the Switchboard pull feed that reports the sea-surface temperature.
use vstd::prelude::*;

use crate::error::AmmError;
use crate::outside::{pull_feed_fields, pull_feed_value, spec_pull_feed_fields};

verus! {

/// Largest magnitude of a `Decimal` mantissa: 2^96 - 1.
pub const MAX_DECIMAL_MANTISSA: i128 = 0x0000_0000_FFFF_FFFF_FFFF_FFFF_FFFF_FFFF;

/// Decimal places of a feed value.
pub const FEED_VALUE_SCALE: u32 = 18;

/// Why a feed value could not be read.
#[derive(Clone, Copy, Debug, PartialEq, Eq, Structural)]
pub enum FeedReadError {
    /// The account does not parse as a pull feed.
    Parse,
    /// The feed holds no current result at the given slot.
    Value,
}

/// A feed's current value, as a decimal `mantissa * 10^-scale`, and the time of
/// the feed's last update.
#[derive(Clone, Copy, Debug, PartialEq, Eq)]
pub struct FeedValue {
    pub mantissa: i128,
    pub scale: u32,
    pub last_update_timestamp: i64,
}

/// Reading the value of the feed in `data` at `slot` is defined: the slot is at
/// least the feed's maximum staleness, and a current result fits a decimal mantissa.
pub open spec fn feed_value_defined(data: Seq<u8>, slot: u64) -> bool {
    match spec_pull_feed_fields(data) {
        None => true,
        Some((max_staleness, result_slot, value, _last_update)) => {
            &&& slot >= max_staleness
            &&& (result_slot != 0 && result_slot >= slot - max_staleness) ==> -MAX_DECIMAL_MANTISSA
                <= value <= MAX_DECIMAL_MANTISSA
        },
    }
}

/// The value of the feed in `data` at `slot`: an error when the bytes do not
/// parse or when the current result is missing or older than the feed's maximum
/// staleness; otherwise the raw result at scale 18 and the last update time.
pub open spec fn spec_feed_read(data: Seq<u8>, slot: u64) -> Result<(i128, u32, i64), FeedReadError> {
    match spec_pull_feed_fields(data) {
        None => Err(FeedReadError::Parse),
        Some((max_staleness, result_slot, value, last_update)) => {
            if result_slot == 0 || result_slot < slot - max_staleness {
                Err(FeedReadError::Value)
            } else {
                Ok((value, FEED_VALUE_SCALE, last_update))
            }
        },
    }
}

/// `spec_feed_read` with its errors in the program's terms: a feed that does not
/// parse is invalid, one without a current result is stale.
pub open spec fn feed_read_outcome(data: Seq<u8>, slot: u64) -> Result<FeedValue, AmmError> {
    match spec_feed_read(data, slot) {
        Err(FeedReadError::Parse) => Err(AmmError::InvalidOracleFeed),
        Err(FeedReadError::Value) => Err(AmmError::OracleFeedStale),
        Ok((mantissa, scale, last_update_timestamp)) => Ok(
            FeedValue { mantissa, scale, last_update_timestamp },
        ),
    }
}

/// Whether reading the feed in `data` at `slot` is defined.
pub fn feed_read_supported(data: &[u8], slot: u64) -> (r: bool)
    ensures
        r == feed_value_defined(data@, slot),
{
    match pull_feed_fields(data) {
        None => true,
        Some((max_staleness, result_slot, value, _last_update)) => {
            if slot < max_staleness as u64 {
                return false;
            }
            let current = result_slot != 0 && result_slot >= slot - max_staleness as u64;
            !current || (-MAX_DECIMAL_MANTISSA <= value && value <= MAX_DECIMAL_MANTISSA)
        },
    }
}

/// Reads the current value of the feed in `data` at `slot`.
pub fn read_feed(data: &[u8], slot: u64) -> (r: Result<FeedValue, AmmError>)
    requires
        feed_value_defined(data@, slot),
    ensures
        r == feed_read_outcome(data@, slot),
{
    match pull_feed_value(data, slot) {
        Ok((mantissa, scale, last_update_timestamp)) => Ok(
            FeedValue { mantissa, scale, last_update_timestamp },
        ),
        Err(FeedReadError::Parse) => Err(AmmError::InvalidOracleFeed),
        Err(FeedReadError::Value) => Err(AmmError::OracleFeedStale),
    }
}

/// Reads the feed when reading it is defined; `None` otherwise.
pub fn try_read_feed(data: &[u8], slot: u64) -> (r: Option<Result<FeedValue, AmmError>>)
    ensures
        feed_value_defined(data@, slot) ==> r == Some(feed_read_outcome(data@, slot)),
        !feed_value_defined(data@, slot) ==> r is None,
{
    if feed_read_supported(data, slot) {
        Some(read_feed(data, slot))
    } else {
        None
    }
}

} // verus!
