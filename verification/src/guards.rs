//! Freshness and cooldown rules that guard every swap.
use vstd::prelude::*;

use crate::constants::{MAX_ORACLE_STALENESS_SECONDS, PARAM_UPDATE_COOLDOWN_SLOTS};
use crate::error::AmmError;
use crate::state::{Amm, Clock, SST};

verus! {

/// Age of the oracle reading at `clock`, in seconds (may be negative).
pub open spec fn oracle_age(sst: SST, clock: Clock) -> int {
    clock.unix_timestamp - sst.last_updated_unix_timestamp
}

/// The first rule that `clock` breaks for the stored fee and oracle values,
/// or `Ok` when the values may be used:
/// the SST account must exist, hold a pulled value, be at most
/// `MAX_ORACLE_STALENESS_SECONDS` old, and both the oracle pull and the last
/// fee change must lie at least `PARAM_UPDATE_COOLDOWN_SLOTS` slots back.
pub open spec fn recent_parameters_outcome(amm: Amm, sst: SST, clock: Clock) -> Result<(), AmmError> {
    if !sst.created {
        Err(AmmError::InvalidTemperature)
    } else if sst.last_updated_unix_timestamp <= 0 {
        Err(AmmError::OracleValueMissing)
    } else if oracle_age(sst, clock) < i64::MIN || oracle_age(sst, clock) > MAX_ORACLE_STALENESS_SECONDS {
        Err(AmmError::OracleFeedStale)
    } else if sst.last_updated_slot + PARAM_UPDATE_COOLDOWN_SLOTS > u64::MAX {
        Err(AmmError::ArithmeticOverflow)
    } else if clock.slot < sst.last_updated_slot + PARAM_UPDATE_COOLDOWN_SLOTS {
        Err(AmmError::ParameterRecentlyUpdated)
    } else if amm.last_fee_update_slot + PARAM_UPDATE_COOLDOWN_SLOTS > u64::MAX {
        Err(AmmError::ArithmeticOverflow)
    } else if clock.slot < amm.last_fee_update_slot + PARAM_UPDATE_COOLDOWN_SLOTS {
        Err(AmmError::ParameterRecentlyUpdated)
    } else {
        Ok(())
    }
}

/// Checks that the oracle value is present and fresh and that neither the
/// temperature nor the fee changed within the cooldown window.
pub fn enforce_recent_parameters(amm: &Amm, sst: &SST, clock: &Clock) -> (r: Result<(), AmmError>)
    ensures
        r == recent_parameters_outcome(*amm, *sst, *clock),
        r is Ok <==> {
            &&& sst.created
            &&& sst.last_updated_unix_timestamp > 0
            &&& i64::MIN <= oracle_age(*sst, *clock) <= MAX_ORACLE_STALENESS_SECONDS
            &&& clock.slot >= sst.last_updated_slot + PARAM_UPDATE_COOLDOWN_SLOTS
            &&& clock.slot >= amm.last_fee_update_slot + PARAM_UPDATE_COOLDOWN_SLOTS
        },
{
    if !sst.created {
        return Err(AmmError::InvalidTemperature);
    }
    if sst.last_updated_unix_timestamp <= 0 {
        return Err(AmmError::OracleValueMissing);
    }
    let oracle_staleness = match clock.unix_timestamp.checked_sub(sst.last_updated_unix_timestamp) {
        Some(s) => s,
        None => return Err(AmmError::OracleFeedStale),
    };
    if oracle_staleness > MAX_ORACLE_STALENESS_SECONDS {
        return Err(AmmError::OracleFeedStale);
    }
    let sst_ready_slot = match sst.last_updated_slot.checked_add(PARAM_UPDATE_COOLDOWN_SLOTS) {
        Some(s) => s,
        None => return Err(AmmError::ArithmeticOverflow),
    };
    if clock.slot < sst_ready_slot {
        return Err(AmmError::ParameterRecentlyUpdated);
    }
    let fee_ready_slot = match amm.last_fee_update_slot.checked_add(PARAM_UPDATE_COOLDOWN_SLOTS) {
        Some(s) => s,
        None => return Err(AmmError::ArithmeticOverflow),
    };
    if clock.slot < fee_ready_slot {
        return Err(AmmError::ParameterRecentlyUpdated);
    }
    Ok(())
}

} // verus!
