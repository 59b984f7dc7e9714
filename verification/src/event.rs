use vstd::prelude::*;

verus! {

/// Published when the admin changes the staking cap.
#[derive(Clone, Copy, Debug, PartialEq, Eq, Structural)]
pub struct NewTotalStakingCapEvent {
    pub old_total_staking_cap: i128,
    pub new_total_staking_cap: i128,
}

/// Published when the admin changes the normal unstake fee.
#[derive(Clone, Copy, Debug, PartialEq, Eq, Structural)]
pub struct NewNormalUnstakeFeeEvent {
    pub old_normal_unstake_fee: i128,
    pub new_normal_unstake_fee: i128,
}

/// Published when the admin changes the instant unstake fee.
#[derive(Clone, Copy, Debug, PartialEq, Eq, Structural)]
pub struct SetInstantUnstakeFeeEvent {
    pub old_instant_unstake_fee: i128,
    pub new_instant_unstake_fee: i128,
}

/// Published when the admin opens or closes the stake-only phase.
#[derive(Clone, Copy, Debug, PartialEq, Eq, Structural)]
pub struct SetOnlyAllowStakeEvent {
    pub only_allow_stake: bool,
}

} // verus!
