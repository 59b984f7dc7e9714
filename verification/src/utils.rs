use vstd::prelude::*;

use crate::error::PumpBTCStakingError;
use crate::math::{safe_add, safe_div};

verus! {

/// Seconds in one day.
pub const SECONDS_PER_DAY: u64 = 86400;

/// Offset of the contract's calendar day from UTC (UTC+8), in seconds.
pub const UTC_OFFSET: u64 = 28800;

/// Number of date slots in which a user's unstake requests are kept.
pub const MAX_DATE_SLOT: u32 = 10;

/// The date slot of a moment: its day number in UTC+8, modulo the number of slots.
pub open spec fn date_slot(timestamp: u64) -> int {
    ((timestamp + UTC_OFFSET) / (SECONDS_PER_DAY as int)) % (MAX_DATE_SLOT as int)
}

/// Unstaking is refused while the contract is still in its stake-only phase.
pub fn check_unstake_allowed(only_allow_stake: bool) -> (r: Result<(), PumpBTCStakingError>)
    ensures
        r == (if only_allow_stake {
            Err(PumpBTCStakingError::OnlyAllowStakeAtFirst)
        } else {
            Ok(())
        }),
{
    if only_allow_stake {
        return Err(PumpBTCStakingError::OnlyAllowStakeAtFirst);
    }
    Ok(())
}

/// The date slot in which an unstake request made at `timestamp` is kept.
pub fn get_date_slot(timestamp: u64) -> (slot: u32)
    ensures
        slot == date_slot(timestamp),
        slot < MAX_DATE_SLOT,
{
    let shifted = match safe_add(timestamp as i128, UTC_OFFSET as i128) {
        Ok(v) => v,
        Err(_) => {
            assert(false);
            0
        },
    };
    let day = match safe_div(shifted, SECONDS_PER_DAY as i128) {
        Ok(v) => v,
        Err(_) => {
            assert(false);
            0
        },
    };
    (day % (MAX_DATE_SLOT as i128)) as u32
}

} // verus!
