use vstd::prelude::*;

verus! {

/// Failures of the staking contract. The order of the variants is the
/// order of their contract error codes.
#[derive(Clone, Copy, Debug, PartialEq, Eq, Structural)]
pub enum PumpBTCStakingError {
    NegativeAmountNotAllowed,
    CallerIsNotOperator,
    NoOperatorSet,
    OnlyAllowStakeAtFirst,
    AlreadyInitialized,
    StakingCapTooSmall,
    FeeShouldBeBetween0And10000,
    NoFeeToCollect,
    NoPendingStakeAmount,
    ExceedStakingCap,
    ClaimPreviousUnstakeFirst,
    NotReachedClaimableTime,
    InsufficientPendingStakeAmount,
    MathOverflow,
    ContractIsPaused,
    ContractIsNotPaused,
    NoPendingAdminTransfer,
}

/// Failures of the pumpBTC token contract.
#[derive(Clone, Copy, Debug, PartialEq, Eq, Structural)]
pub enum PumpTokenError {
    NoPendingAdminTransfer,
}

} // verus!
