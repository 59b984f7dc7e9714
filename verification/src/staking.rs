use vstd::prelude::*;

use crate::error::PumpBTCStakingError;
use crate::event::{
    NewNormalUnstakeFeeEvent, NewTotalStakingCapEvent, SetInstantUnstakeFeeEvent,
    SetOnlyAllowStakeEvent,
};
use crate::math::{adjusted_amount, adjust_amount, check_nonnegative_amount, fits_i128, div_toward_zero, supported_decimal, INTERNAL_DECIMALS};
use crate::utils::{check_unstake_allowed, date_slot, get_date_slot, MAX_DATE_SLOT, SECONDS_PER_DAY};

verus! {

/// Fees are given in basis points of this denominator.
pub const FEE_DENOMINATOR: i128 = 10000;

/// Instant unstake fee that a fresh contract charges (3%).
pub const DEFAULT_INSTANT_UNSTAKE_FEE: i128 = 300;

/// The contract's global amounts, all with 8 decimals.
#[derive(Clone, Copy, Debug, PartialEq, Eq, Structural)]
pub struct StakingState {
    /// Amount currently staked.
    pub total_staking_amount: i128,
    /// Upper bound that staking may not pass.
    pub total_staking_cap: i128,
    /// Amount requested for unstaking and not yet claimed.
    pub total_requested_amount: i128,
    /// Amount that the operator has deposited for claims.
    pub total_claimable_amount: i128,
    /// Amount staked and not yet withdrawn by the operator.
    pub pending_stake_amount: i128,
    /// Fees collected and not yet taken by the admin.
    pub collected_fee: i128,
}

/// A user's unstake request in one date slot.
#[derive(Clone, Copy, Debug, PartialEq, Eq, Structural)]
pub struct UnstakeRequest {
    /// Amount requested, with 8 decimals.
    pub amount: i128,
    /// Moment of the latest request in the slot.
    pub timestamp: u64,
}

/// An amount of the staked asset that changes hands, with 8 decimals and in
/// the asset token's own decimals.
#[derive(Clone, Copy, Debug, PartialEq, Eq, Structural)]
pub struct AssetTransfer {
    pub amount: i128,
    pub asset_amount: i128,
}

/// What the operator and the contract owe each other after a combined
/// withdraw and deposit.
#[derive(Clone, Copy, Debug, PartialEq, Eq, Structural)]
pub enum OperatorSettlement {
    /// The withdrawn and the deposited amounts cancel out.
    Balanced,
    /// The contract pays the operator the surplus of the withdrawal.
    PayOperator(AssetTransfer),
    /// The operator pays the contract the surplus of the deposit.
    CollectFromOperator(AssetTransfer),
}

/// Outcome of a combined withdraw and deposit.
#[derive(Clone, Copy, Debug, PartialEq, Eq, Structural)]
pub struct Rebalance {
    /// Pending stake handed to the operator.
    pub withdrawn: i128,
    /// Amount made claimable.
    pub deposited: i128,
    pub settlement: OperatorSettlement,
}

/// Outcome of an unstake that pays the user: the amount taken out of the
/// contract's books, the fee kept, and what the user receives.
#[derive(Clone, Copy, Debug, PartialEq, Eq, Structural)]
pub struct Payout {
    pub amount: i128,
    pub fee: i128,
    pub paid: AssetTransfer,
}

/// The staking contract's storage: its configuration, its roles (addresses
/// of type `A`) and its global amounts.
pub struct PumpBTCStaking<A> {
    pub admin: Option<A>,
    pub pending_admin: Option<A>,
    pub paused: bool,
    pub operator: Option<A>,
    pub pump_token: Option<A>,
    pub asset_token: Option<A>,
    pub asset_decimal: u32,
    pub normal_unstake_fee: i128,
    pub instant_unstake_fee: i128,
    pub only_allow_stake: bool,
    pub state: StakingState,
}

/// The fee that `rate` basis points take from `amount`, rounded toward zero.
pub open spec fn fee_of(amount: int, rate: int) -> int {
    div_toward_zero(amount * rate, FEE_DENOMINATOR as int)
}

/// A fee rate that the setters accept: from 0 up to, not including, 100%.
pub open spec fn valid_fee(rate: int) -> bool {
    0 <= rate < FEE_DENOMINATOR
}

/// Seconds that must pass after a request before its slot can be claimed.
pub open spec fn claim_delay() -> int {
    (MAX_DATE_SLOT - 1) * SECONDS_PER_DAY
}

impl StakingState {
    /// Every amount zero.
    pub open spec fn zero() -> StakingState {
        StakingState {
            total_staking_amount: 0,
            total_staking_cap: 0,
            total_requested_amount: 0,
            total_claimable_amount: 0,
            pending_stake_amount: 0,
            collected_fee: 0,
        }
    }
}

impl<A> PumpBTCStaking<A> {
    /// The contract has been initialized: it has an admin and knows both tokens.
    pub open spec fn initialized(self) -> bool {
        &&& self.admin is Some
        &&& self.pump_token is Some
        &&& self.asset_token is Some
    }

    /// The contract can move assets: it knows the asset token, and that
    /// token's decimals can be converted.
    pub open spec fn can_pay(self) -> bool {
        &&& self.asset_token is Some
        &&& supported_decimal(self.asset_decimal)
    }

    pub open spec fn with_state(self, state: StakingState) -> Self {
        PumpBTCStaking { state, ..self }
    }

    /// A transfer of `amount` in the asset, if the conversion fits.
    pub open spec fn transfer_of(self, amount: int) -> Option<AssetTransfer> {
        match adjusted_amount(self.asset_decimal, amount) {
            Some(v) => Some(AssetTransfer { amount: amount as i128, asset_amount: v as i128 }),
            None => None,
        }
    }

    /// Storage of a contract that has never been written: every value is the
    /// one that a read without a stored entry gives.
    pub fn new() -> (s: Self)
        ensures
            s.admin is None,
            s.pending_admin is None,
            !s.paused,
            s.operator is None,
            s.pump_token is None,
            s.asset_token is None,
            s.asset_decimal == INTERNAL_DECIMALS,
            s.normal_unstake_fee == 0,
            s.instant_unstake_fee == DEFAULT_INSTANT_UNSTAKE_FEE,
            s.only_allow_stake,
            s.state == StakingState::zero(),
    {
        PumpBTCStaking {
            admin: None,
            pending_admin: None,
            paused: false,
            operator: None,
            pump_token: None,
            asset_token: None,
            asset_decimal: INTERNAL_DECIMALS,
            normal_unstake_fee: 0,
            instant_unstake_fee: DEFAULT_INSTANT_UNSTAKE_FEE,
            only_allow_stake: true,
            state: StakingState {
                total_staking_amount: 0,
                total_staking_cap: 0,
                total_requested_amount: 0,
                total_claimable_amount: 0,
                pending_stake_amount: 0,
                collected_fee: 0,
            },
        }
    }

    // ========================= initialization =========================

    pub open spec fn spec_initialize(self, admin: A, pump_token: A, asset_token: A, asset_decimal: u32) -> (Self, Result<(), PumpBTCStakingError>) {
        if self.admin is Some {
            (self, Err(PumpBTCStakingError::AlreadyInitialized))
        } else {
            (
                PumpBTCStaking {
                    admin: Some(admin),
                    pump_token: Some(pump_token),
                    asset_token: Some(asset_token),
                    asset_decimal,
                    normal_unstake_fee: 0,
                    instant_unstake_fee: DEFAULT_INSTANT_UNSTAKE_FEE,
                    only_allow_stake: true,
                    ..self
                },
                Ok(()),
            )
        }
    }

    /// Sets the admin, both token addresses and the asset's decimals, with a
    /// 0% normal fee, a 3% instant fee and the stake-only phase open. Refused
    /// once an admin exists.
    pub fn initialize(&mut self, admin: A, pump_token: A, asset_token: A, asset_decimal: u32) -> (r: Result<(), PumpBTCStakingError>)
        ensures
            (*final(self), r) == old(self).spec_initialize(admin, pump_token, asset_token, asset_decimal),
    {
        if self.admin.is_some() {
            return Err(PumpBTCStakingError::AlreadyInitialized);
        }
        self.admin = Some(admin);
        self.pump_token = Some(pump_token);
        self.asset_token = Some(asset_token);
        self.asset_decimal = asset_decimal;
        self.normal_unstake_fee = 0;
        self.instant_unstake_fee = DEFAULT_INSTANT_UNSTAKE_FEE;
        self.only_allow_stake = true;
        Ok(())
    }

    // ========================= user functions =========================

    pub open spec fn spec_stake(self, amount: i128) -> (Self, Result<AssetTransfer, PumpBTCStakingError>) {
        let st = self.state;
        if self.paused {
            (self, Err(PumpBTCStakingError::ContractIsPaused))
        } else if amount <= 0 {
            (self, Err(PumpBTCStakingError::NegativeAmountNotAllowed))
        } else if st.total_staking_amount + amount > st.total_staking_cap {
            (self, Err(PumpBTCStakingError::ExceedStakingCap))
        } else {
            match self.transfer_of(amount as int) {
                None => (self, Err(PumpBTCStakingError::MathOverflow)),
                Some(t) => (
                    self.with_state(
                        StakingState {
                            total_staking_amount: (st.total_staking_amount + amount) as i128,
                            pending_stake_amount: (st.pending_stake_amount + amount) as i128,
                            ..st
                        },
                    ),
                    Ok(t),
                ),
            }
        }
    }

    /// The inputs on which `stake` does not trap: no arithmetic overflow, and
    /// every value that it reads is present.
    pub open spec fn stake_defined(self, amount: i128) -> bool {
        &&& !self.paused && amount > 0 ==> fits_i128(self.state.total_staking_amount + amount)
        &&& !self.paused && amount > 0 && self.state.total_staking_amount + amount
            <= self.state.total_staking_cap ==> {
            &&& fits_i128(self.state.pending_stake_amount + amount)
            &&& self.can_pay()
            &&& self.transfer_of(amount as int) is Some ==> self.pump_token is Some
        }
    }

    /// Stakes `amount` for a user. On success the user pays the returned
    /// transfer into the contract and receives `amount` pumpBTC (1:1).
    pub fn stake(&mut self, amount: i128) -> (r: Result<AssetTransfer, PumpBTCStakingError>)
        requires
            old(self).stake_defined(amount),
        ensures
            (*final(self), r) == old(self).spec_stake(amount),
    {
        if self.paused {
            return Err(PumpBTCStakingError::ContractIsPaused);
        }
        check_nonnegative_amount(amount)?;
        let total_staking_amount = self.state.total_staking_amount;
        let total_staking_cap = self.state.total_staking_cap;
        if total_staking_amount + amount > total_staking_cap {
            return Err(PumpBTCStakingError::ExceedStakingCap);
        }
        let asset_amount = adjust_amount(self.asset_decimal, amount)?;
        self.state.total_staking_amount = total_staking_amount + amount;
        self.state.pending_stake_amount = self.state.pending_stake_amount + amount;
        Ok(AssetTransfer { amount, asset_amount })
    }

    pub open spec fn spec_unstake_request(self, request: UnstakeRequest, now: u64, amount: i128) -> (Self, UnstakeRequest, Result<u32, PumpBTCStakingError>) {
        let st = self.state;
        if self.paused {
            (self, request, Err(PumpBTCStakingError::ContractIsPaused))
        } else if self.only_allow_stake {
            (self, request, Err(PumpBTCStakingError::OnlyAllowStakeAtFirst))
        } else if amount <= 0 {
            (self, request, Err(PumpBTCStakingError::NegativeAmountNotAllowed))
        } else if now - request.timestamp < SECONDS_PER_DAY && request.amount > 0 {
            (self, request, Err(PumpBTCStakingError::ClaimPreviousUnstakeFirst))
        } else {
            (
                self.with_state(
                    StakingState {
                        total_staking_amount: (st.total_staking_amount - amount) as i128,
                        total_requested_amount: (st.total_requested_amount + amount) as i128,
                        ..st
                    },
                ),
                UnstakeRequest { amount: (request.amount + amount) as i128, timestamp: now },
                Ok(date_slot(now) as u32),
            )
        }
    }

    /// The inputs on which an unstake request gets past its checks.
    pub open spec fn unstake_request_accepted(self, request: UnstakeRequest, now: u64, amount: i128) -> bool {
        &&& !self.paused
        &&& !self.only_allow_stake
        &&& amount > 0
        &&& !(now - request.timestamp < SECONDS_PER_DAY && request.amount > 0)
    }

    /// The inputs on which `unstake_request` does not trap: no arithmetic overflow, and
    /// every value that it reads is present.
    pub open spec fn unstake_request_defined(self, request: UnstakeRequest, now: u64, amount: i128) -> bool {
        &&& !self.paused && !self.only_allow_stake && amount > 0 ==> now >= request.timestamp
        &&& self.unstake_request_accepted(request, now, amount) ==> {
            &&& fits_i128(request.amount + amount)
            &&& fits_i128(self.state.total_staking_amount - amount)
            &&& fits_i128(self.state.total_requested_amount + amount)
            &&& self.pump_token is Some
        }
    }

    /// Requests to unstake `amount` for a user; `request` is the user's entry
    /// in the date slot of `now`, and the returned value is that slot. A
    /// second request in a slot within a day of the first is refused while
    /// the first is unclaimed. On success the user's `amount` pumpBTC is
    /// burned.
    pub fn unstake_request(&mut self, request: &mut UnstakeRequest, now: u64, amount: i128) -> (r: Result<u32, PumpBTCStakingError>)
        requires
            old(self).unstake_request_defined(*old(request), now, amount),
        ensures
            (*final(self), *final(request), r) == old(self).spec_unstake_request(*old(request), now, amount),
    {
        if self.paused {
            return Err(PumpBTCStakingError::ContractIsPaused);
        }
        check_unstake_allowed(self.only_allow_stake)?;
        check_nonnegative_amount(amount)?;
        let slot = get_date_slot(now);
        if now - request.timestamp < SECONDS_PER_DAY && request.amount > 0 {
            return Err(PumpBTCStakingError::ClaimPreviousUnstakeFirst);
        }
        request.timestamp = now;
        request.amount = request.amount + amount;
        self.state.total_staking_amount = self.state.total_staking_amount - amount;
        self.state.total_requested_amount = self.state.total_requested_amount + amount;
        Ok(slot)
    }

    pub open spec fn spec_claim_slot(self, request: UnstakeRequest, now: u64) -> (Self, UnstakeRequest, Result<Payout, PumpBTCStakingError>) {
        let st = self.state;
        let amount = request.amount;
        let fee = fee_of(amount as int, self.normal_unstake_fee as int);
        if self.paused {
            (self, request, Err(PumpBTCStakingError::ContractIsPaused))
        } else if self.only_allow_stake {
            (self, request, Err(PumpBTCStakingError::OnlyAllowStakeAtFirst))
        } else if amount <= 0 {
            (self, request, Err(PumpBTCStakingError::NegativeAmountNotAllowed))
        } else if now - request.timestamp < claim_delay() {
            (self, request, Err(PumpBTCStakingError::NotReachedClaimableTime))
        } else {
            match self.transfer_of(amount - fee) {
                None => (self, request, Err(PumpBTCStakingError::MathOverflow)),
                Some(t) => (
                    self.with_state(
                        StakingState {
                            total_claimable_amount: (st.total_claimable_amount - amount) as i128,
                            total_requested_amount: (st.total_requested_amount - amount) as i128,
                            collected_fee: (st.collected_fee + fee) as i128,
                            ..st
                        },
                    ),
                    UnstakeRequest { amount: 0, ..request },
                    Ok(Payout { amount, fee: fee as i128, paid: t }),
                ),
            }
        }
    }

    /// The inputs on which a slot claim gets past its checks.
    pub open spec fn claim_slot_accepted(self, request: UnstakeRequest, now: u64) -> bool {
        &&& !self.paused
        &&& !self.only_allow_stake
        &&& request.amount > 0
        &&& now - request.timestamp >= claim_delay()
    }

    /// The inputs on which `claim_slot` does not trap: no arithmetic overflow, and
    /// every value that it reads is present.
    pub open spec fn claim_slot_defined(self, request: UnstakeRequest, now: u64) -> bool {
        &&& !self.paused && !self.only_allow_stake ==> fits_i128(request.amount * self.normal_unstake_fee)
        &&& !self.paused && !self.only_allow_stake && request.amount > 0 ==> now >= request.timestamp
        &&& self.claim_slot_accepted(request, now) ==> {
            let fee = fee_of(request.amount as int, self.normal_unstake_fee as int);
            &&& fits_i128(self.state.total_claimable_amount - request.amount)
            &&& fits_i128(self.state.total_requested_amount - request.amount)
            &&& fits_i128(self.state.collected_fee + fee)
            &&& fits_i128(request.amount - fee)
            &&& self.can_pay()
        }
    }

    /// Claims a user's unstake request in one slot once `claim_delay()`
    /// seconds have passed since it was made. The normal fee (possibly zero)
    /// is kept and the rest is paid to the user; an empty slot is refused.
    pub fn claim_slot(&mut self, request: &mut UnstakeRequest, now: u64) -> (r: Result<Payout, PumpBTCStakingError>)
        requires
            old(self).claim_slot_defined(*old(request), now),
        ensures
            (*final(self), *final(request), r) == old(self).spec_claim_slot(*old(request), now),
    {
        if self.paused {
            return Err(PumpBTCStakingError::ContractIsPaused);
        }
        check_unstake_allowed(self.only_allow_stake)?;
        let amount = request.amount;
        let fee = fee_in_basis_points(amount, self.normal_unstake_fee);
        check_nonnegative_amount(amount)?;
        if now - request.timestamp < (MAX_DATE_SLOT - 1) as u64 * SECONDS_PER_DAY {
            return Err(PumpBTCStakingError::NotReachedClaimableTime);
        }
        let paid = adjust_amount(self.asset_decimal, amount - fee)?;
        request.amount = 0;
        self.state.total_claimable_amount = self.state.total_claimable_amount - amount;
        self.state.total_requested_amount = self.state.total_requested_amount - amount;
        self.state.collected_fee = self.state.collected_fee + fee;
        Ok(Payout { amount, fee, paid: AssetTransfer { amount: amount - fee, asset_amount: paid } })
    }

    pub open spec fn spec_unstake_instant(self, amount: i128) -> (Self, Result<Payout, PumpBTCStakingError>) {
        let st = self.state;
        let fee = fee_of(amount as int, self.instant_unstake_fee as int);
        if self.paused {
            (self, Err(PumpBTCStakingError::ContractIsPaused))
        } else if self.only_allow_stake {
            (self, Err(PumpBTCStakingError::OnlyAllowStakeAtFirst))
        } else if amount <= 0 {
            (self, Err(PumpBTCStakingError::NegativeAmountNotAllowed))
        } else if amount > st.pending_stake_amount {
            (self, Err(PumpBTCStakingError::InsufficientPendingStakeAmount))
        } else {
            match self.transfer_of(amount - fee) {
                None => (self, Err(PumpBTCStakingError::MathOverflow)),
                Some(t) => (
                    self.with_state(
                        StakingState {
                            total_staking_amount: (st.total_staking_amount - amount) as i128,
                            pending_stake_amount: (st.pending_stake_amount - amount) as i128,
                            collected_fee: (st.collected_fee + fee) as i128,
                            ..st
                        },
                    ),
                    Ok(Payout { amount, fee: fee as i128, paid: t }),
                ),
            }
        }
    }

    /// The inputs on which an instant unstake gets past its checks.
    pub open spec fn unstake_instant_accepted(self, amount: i128) -> bool {
        &&& !self.paused
        &&& !self.only_allow_stake
        &&& 0 < amount <= self.state.pending_stake_amount
    }

    /// The inputs on which `unstake_instant` does not trap: no arithmetic overflow, and
    /// every value that it reads is present.
    pub open spec fn unstake_instant_defined(self, amount: i128) -> bool {
        &&& !self.paused && !self.only_allow_stake ==> fits_i128(amount * self.instant_unstake_fee)
        &&& self.unstake_instant_accepted(amount) ==> {
            let fee = fee_of(amount as int, self.instant_unstake_fee as int);
            &&& fits_i128(self.state.total_staking_amount - amount)
            &&& fits_i128(self.state.collected_fee + fee)
            &&& fits_i128(amount - fee)
            &&& self.pump_token is Some
            &&& self.can_pay()
        }
    }

    /// Unstakes `amount` at once out of the stake that the operator has not
    /// withdrawn yet, keeping the instant fee. On success the user's `amount`
    /// pumpBTC is burned and the user is paid the rest.
    pub fn unstake_instant(&mut self, amount: i128) -> (r: Result<Payout, PumpBTCStakingError>)
        requires
            old(self).unstake_instant_defined(amount),
        ensures
            (*final(self), r) == old(self).spec_unstake_instant(amount),
    {
        if self.paused {
            return Err(PumpBTCStakingError::ContractIsPaused);
        }
        check_unstake_allowed(self.only_allow_stake)?;
        let fee = fee_in_basis_points(amount, self.instant_unstake_fee);
        check_nonnegative_amount(amount)?;
        let pending_stake_amount = self.state.pending_stake_amount;
        if amount > pending_stake_amount {
            return Err(PumpBTCStakingError::InsufficientPendingStakeAmount);
        }
        let paid = adjust_amount(self.asset_decimal, amount - fee)?;
        self.state.total_staking_amount = self.state.total_staking_amount - amount;
        self.state.pending_stake_amount = pending_stake_amount - amount;
        self.state.collected_fee = self.state.collected_fee + fee;
        Ok(Payout { amount, fee, paid: AssetTransfer { amount: amount - fee, asset_amount: paid } })
    }

    // ========================= operator functions =========================

    pub open spec fn spec_withdraw(self) -> (Self, Result<AssetTransfer, PumpBTCStakingError>) {
        let st = self.state;
        if self.paused {
            (self, Err(PumpBTCStakingError::ContractIsPaused))
        } else if self.operator is None {
            (self, Err(PumpBTCStakingError::NoOperatorSet))
        } else if st.pending_stake_amount <= 0 {
            (self, Err(PumpBTCStakingError::NoPendingStakeAmount))
        } else {
            match self.transfer_of(st.pending_stake_amount as int) {
                None => (self, Err(PumpBTCStakingError::MathOverflow)),
                Some(t) => (self.with_state(StakingState { pending_stake_amount: 0, ..st }), Ok(t)),
            }
        }
    }

    /// The inputs on which `withdraw` does not trap: no arithmetic overflow, and
    /// every value that it reads is present.
    pub open spec fn withdraw_defined(self) -> bool {
        &&& !self.paused && self.operator is Some && self.state.pending_stake_amount > 0 ==> self.can_pay()
    }

    /// Hands the whole pending stake to the operator, who receives the
    /// returned transfer.
    pub fn withdraw(&mut self) -> (r: Result<AssetTransfer, PumpBTCStakingError>)
        requires
            old(self).withdraw_defined(),
        ensures
            (*final(self), r) == old(self).spec_withdraw(),
    {
        if self.paused {
            return Err(PumpBTCStakingError::ContractIsPaused);
        }
        if self.operator.is_none() {
            return Err(PumpBTCStakingError::NoOperatorSet);
        }
        let old_pending_amount = self.state.pending_stake_amount;
        if old_pending_amount <= 0 {
            return Err(PumpBTCStakingError::NoPendingStakeAmount);
        }
        let asset_amount = adjust_amount(self.asset_decimal, old_pending_amount)?;
        self.state.pending_stake_amount = 0;
        Ok(AssetTransfer { amount: old_pending_amount, asset_amount })
    }

    pub open spec fn spec_deposit(self, amount: i128) -> (Self, Result<AssetTransfer, PumpBTCStakingError>) {
        let st = self.state;
        if self.paused {
            (self, Err(PumpBTCStakingError::ContractIsPaused))
        } else if self.operator is None {
            (self, Err(PumpBTCStakingError::NoOperatorSet))
        } else if amount <= 0 {
            (self, Err(PumpBTCStakingError::NegativeAmountNotAllowed))
        } else {
            match self.transfer_of(amount as int) {
                None => (self, Err(PumpBTCStakingError::MathOverflow)),
                Some(t) => (
                    self.with_state(
                        StakingState {
                            total_claimable_amount: (st.total_claimable_amount + amount) as i128,
                            ..st
                        },
                    ),
                    Ok(t),
                ),
            }
        }
    }

    /// The inputs on which `deposit` does not trap: no arithmetic overflow, and
    /// every value that it reads is present.
    pub open spec fn deposit_defined(self, amount: i128) -> bool {
        &&& !self.paused && self.operator is Some && amount > 0 ==> {
            &&& fits_i128(self.state.total_claimable_amount + amount)
            &&& self.can_pay()
        }
    }

    /// The operator deposits `amount` for claims; the operator pays the
    /// returned transfer into the contract.
    pub fn deposit(&mut self, amount: i128) -> (r: Result<AssetTransfer, PumpBTCStakingError>)
        requires
            old(self).deposit_defined(amount),
        ensures
            (*final(self), r) == old(self).spec_deposit(amount),
    {
        if self.paused {
            return Err(PumpBTCStakingError::ContractIsPaused);
        }
        if self.operator.is_none() {
            return Err(PumpBTCStakingError::NoOperatorSet);
        }
        check_nonnegative_amount(amount)?;
        let total_claimable_amount = self.state.total_claimable_amount;
        let asset_amount = adjust_amount(self.asset_decimal, amount)?;
        self.state.total_claimable_amount = total_claimable_amount + amount;
        Ok(AssetTransfer { amount, asset_amount })
    }

    /// What a combined withdraw and deposit settles: the surplus of the
    /// pending stake over the deposit goes to the operator, the surplus of
    /// the deposit over the pending stake comes from the operator.
    pub open spec fn settlement_of(self, deposit_amount: i128) -> Option<OperatorSettlement> {
        let pending = self.state.pending_stake_amount;
        if pending > deposit_amount {
            match self.transfer_of(pending - deposit_amount) {
                Some(t) => Some(OperatorSettlement::PayOperator(t)),
                None => None,
            }
        } else if pending < deposit_amount {
            match self.transfer_of(deposit_amount - pending) {
                Some(t) => Some(OperatorSettlement::CollectFromOperator(t)),
                None => None,
            }
        } else {
            Some(OperatorSettlement::Balanced)
        }
    }

    pub open spec fn spec_withdraw_and_deposit(self, deposit_amount: i128) -> (Self, Result<Rebalance, PumpBTCStakingError>) {
        let st = self.state;
        if self.paused {
            (self, Err(PumpBTCStakingError::ContractIsPaused))
        } else if self.operator is None {
            (self, Err(PumpBTCStakingError::NoOperatorSet))
        } else if deposit_amount <= 0 {
            (self, Err(PumpBTCStakingError::NegativeAmountNotAllowed))
        } else {
            match self.settlement_of(deposit_amount) {
                None => (self, Err(PumpBTCStakingError::MathOverflow)),
                Some(settlement) => (
                    self.with_state(
                        StakingState {
                            pending_stake_amount: 0,
                            total_claimable_amount: (st.total_claimable_amount + deposit_amount) as i128,
                            ..st
                        },
                    ),
                    Ok(
                        Rebalance {
                            withdrawn: st.pending_stake_amount,
                            deposited: deposit_amount,
                            settlement,
                        },
                    ),
                ),
            }
        }
    }

    /// The inputs on which `withdraw_and_deposit` does not trap: no arithmetic overflow, and
    /// every value that it reads is present.
    pub open spec fn withdraw_and_deposit_defined(self, deposit_amount: i128) -> bool {
        &&& !self.paused && self.operator is Some ==> self.asset_token is Some
        &&& !self.paused && self.operator is Some && deposit_amount > 0 ==> {
            &&& fits_i128(self.state.total_claimable_amount + deposit_amount)
            &&& fits_i128(deposit_amount - self.state.pending_stake_amount)
            &&& self.state.pending_stake_amount != deposit_amount ==> supported_decimal(self.asset_decimal)
        }
    }

    /// Withdraws the pending stake and deposits `deposit_amount` for claims
    /// in one step; only the difference of the two changes hands.
    pub fn withdraw_and_deposit(&mut self, deposit_amount: i128) -> (r: Result<Rebalance, PumpBTCStakingError>)
        requires
            old(self).withdraw_and_deposit_defined(deposit_amount),
        ensures
            (*final(self), r) == old(self).spec_withdraw_and_deposit(deposit_amount),
    {
        if self.paused {
            return Err(PumpBTCStakingError::ContractIsPaused);
        }
        if self.operator.is_none() {
            return Err(PumpBTCStakingError::NoOperatorSet);
        }
        check_nonnegative_amount(deposit_amount)?;
        let old_pending_stake_amount = self.state.pending_stake_amount;
        let settlement = if old_pending_stake_amount > deposit_amount {
            let amount = old_pending_stake_amount - deposit_amount;
            let asset_amount = adjust_amount(self.asset_decimal, amount)?;
            OperatorSettlement::PayOperator(AssetTransfer { amount, asset_amount })
        } else if old_pending_stake_amount < deposit_amount {
            let amount = deposit_amount - old_pending_stake_amount;
            let asset_amount = adjust_amount(self.asset_decimal, amount)?;
            OperatorSettlement::CollectFromOperator(AssetTransfer { amount, asset_amount })
        } else {
            OperatorSettlement::Balanced
        };
        self.state.pending_stake_amount = 0;
        self.state.total_claimable_amount = self.state.total_claimable_amount + deposit_amount;
        Ok(Rebalance { withdrawn: old_pending_stake_amount, deposited: deposit_amount, settlement })
    }

    pub open spec fn spec_claim_all(self, slots: Seq<UnstakeRequest>, now: u64) -> (Self, Seq<UnstakeRequest>, Result<Payout, PumpBTCStakingError>) {
        let st = self.state;
        let total = claimable_total(slots, now);
        let fee = fee_of(total, self.normal_unstake_fee as int);
        if self.paused {
            (self, slots, Err(PumpBTCStakingError::ContractIsPaused))
        } else if self.only_allow_stake {
            (self, slots, Err(PumpBTCStakingError::OnlyAllowStakeAtFirst))
        } else if total <= 0 {
            (self, slots, Err(PumpBTCStakingError::NegativeAmountNotAllowed))
        } else {
            match self.transfer_of(total - fee) {
                None => (self, slots, Err(PumpBTCStakingError::MathOverflow)),
                Some(t) => (
                    self.with_state(
                        StakingState {
                            total_claimable_amount: (st.total_claimable_amount - total) as i128,
                            total_requested_amount: (st.total_requested_amount - total) as i128,
                            collected_fee: (st.collected_fee + fee) as i128,
                            ..st
                        },
                    ),
                    after_claim_all(slots, now),
                    Ok(Payout { amount: total as i128, fee: fee as i128, paid: t }),
                ),
            }
        }
    }

    /// The inputs on which `claim_all` does not trap: no arithmetic overflow, and
    /// every value that it reads is present.
    pub open spec fn claim_all_defined(self, slots: Seq<UnstakeRequest>, now: u64) -> bool {
        &&& slots.len() == MAX_DATE_SLOT
        &&& !self.paused && !self.only_allow_stake ==> {
            &&& forall|j: int| 0 <= j < slots.len() ==> now >= #[trigger] slots[j].timestamp
            &&& fits_i128(claimable_total(slots, now))
            &&& fits_i128(claimable_total(slots, now) * self.normal_unstake_fee)
        }
        &&& !self.paused && !self.only_allow_stake && claimable_total(slots, now) > 0 ==> {
            let total = claimable_total(slots, now);
            let fee = fee_of(total, self.normal_unstake_fee as int);
            &&& fits_i128(self.state.total_claimable_amount - total)
            &&& fits_i128(self.state.total_requested_amount - total)
            &&& fits_i128(self.state.collected_fee + fee)
            &&& fits_i128(total - fee)
            &&& self.can_pay()
        }
    }

    /// Claims every slot of a user whose request is positive and has waited
    /// `claim_delay()` seconds; `slots` holds the user's requests in slots
    /// `0..MAX_DATE_SLOT`. The normal fee is kept from the total and the
    /// rest is paid to the user; with nothing to claim the call is refused.
    pub fn claim_all(&mut self, slots: &mut Vec<UnstakeRequest>, now: u64) -> (r: Result<Payout, PumpBTCStakingError>)
        requires
            old(self).claim_all_defined(old(slots)@, now),
        ensures
            (*final(self), final(slots)@, r) == old(self).spec_claim_all(old(slots)@, now),
    {
        if self.paused {
            return Err(PumpBTCStakingError::ContractIsPaused);
        }
        check_unstake_allowed(self.only_allow_stake)?;
        let ghost s0 = slots@;
        let mut total_amount: i128 = 0;
        let mut pending_count: u32 = 0;
        let mut slot: usize = 0;
        proof {
            lemma_claimable_total_prefix(s0, now, 0, s0.len() as int);
            assert(s0.take(s0.len() as int) =~= s0);
        }
        while slot < MAX_DATE_SLOT as usize
            invariant
                slots@ == s0,
                s0.len() == MAX_DATE_SLOT,
                slot <= MAX_DATE_SLOT,
                pending_count <= slot,
                total_amount > 0 ==> pending_count > 0,
                total_amount == claimable_total(s0.take(slot as int), now),
                forall|j: int| 0 <= j < s0.len() ==> now >= #[trigger] s0[j].timestamp,
                fits_i128(claimable_total(s0, now)),
            decreases MAX_DATE_SLOT - slot,
        {
            let amount = slots[slot].amount;
            let pending_unstake_time = slots[slot].timestamp;
            let ready_to_claim = now - pending_unstake_time >= (MAX_DATE_SLOT - 1) as u64 * SECONDS_PER_DAY;
            proof {
                lemma_claimable_total_prefix(s0, now, slot as int + 1, s0.len() as int);
                assert(s0.take(s0.len() as int) =~= s0);
                assert(s0.take(slot as int + 1).drop_last() =~= s0.take(slot as int));
            }
            if amount > 0 {
                pending_count = pending_count + 1;
                if ready_to_claim {
                    total_amount = total_amount + amount;
                }
            }
            slot = slot + 1;
        }
        proof {
            assert(s0.take(MAX_DATE_SLOT as int) =~= s0);
        }
        let fee = fee_in_basis_points(total_amount, self.normal_unstake_fee);
        check_nonnegative_amount(pending_count as i128)?;
        check_nonnegative_amount(total_amount)?;
        let paid = adjust_amount(self.asset_decimal, total_amount - fee)?;
        let mut k: usize = 0;
        while k < MAX_DATE_SLOT as usize
            invariant
                s0.len() == MAX_DATE_SLOT,
                slots@.len() == MAX_DATE_SLOT,
                k <= MAX_DATE_SLOT,
                forall|j: int| 0 <= j < k ==> slots@[j] == #[trigger] claim_slot_entry(s0[j], now),
                forall|j: int| k <= j < MAX_DATE_SLOT ==> slots@[j] == s0[j],
                forall|j: int| 0 <= j < s0.len() ==> now >= #[trigger] s0[j].timestamp,
            decreases MAX_DATE_SLOT - k,
        {
            let entry = slots[k];
            assert(entry == s0[k as int]);
            if entry.amount > 0 && now - entry.timestamp >= (MAX_DATE_SLOT - 1) as u64 * SECONDS_PER_DAY {
                slots.set(k, UnstakeRequest { amount: 0, timestamp: entry.timestamp });
            }
            k = k + 1;
        }
        proof {
            assert(slots@ =~= after_claim_all(s0, now));
        }
        self.state.collected_fee = self.state.collected_fee + fee;
        self.state.total_claimable_amount = self.state.total_claimable_amount - total_amount;
        self.state.total_requested_amount = self.state.total_requested_amount - total_amount;
        Ok(Payout { amount: total_amount, fee, paid: AssetTransfer { amount: total_amount - fee, asset_amount: paid } })
    }

    // ========================= admin functions =========================

    pub open spec fn spec_collect_fee(self) -> (Self, Result<AssetTransfer, PumpBTCStakingError>) {
        let st = self.state;
        if self.paused {
            (self, Err(PumpBTCStakingError::ContractIsPaused))
        } else if st.collected_fee <= 0 {
            (self, Err(PumpBTCStakingError::NoFeeToCollect))
        } else {
            match self.transfer_of(st.collected_fee as int) {
                None => (self, Err(PumpBTCStakingError::MathOverflow)),
                Some(t) => (self.with_state(StakingState { collected_fee: 0, ..st }), Ok(t)),
            }
        }
    }

    /// The inputs on which `collect_fee` does not trap: no arithmetic overflow, and
    /// every value that it reads is present.
    pub open spec fn collect_fee_defined(self) -> bool {
        &&& self.admin is Some
        &&& !self.paused && self.state.collected_fee > 0 ==> self.can_pay()
    }

    /// Hands every collected fee to the admin, who receives the returned
    /// transfer.
    pub fn collect_fee(&mut self) -> (r: Result<AssetTransfer, PumpBTCStakingError>)
        requires
            old(self).collect_fee_defined(),
        ensures
            (*final(self), r) == old(self).spec_collect_fee(),
    {
        if self.paused {
            return Err(PumpBTCStakingError::ContractIsPaused);
        }
        let fee_amount = self.state.collected_fee;
        if fee_amount <= 0 {
            return Err(PumpBTCStakingError::NoFeeToCollect);
        }
        let asset_amount = adjust_amount(self.asset_decimal, fee_amount)?;
        self.state.collected_fee = 0;
        Ok(AssetTransfer { amount: fee_amount, asset_amount })
    }

    pub open spec fn spec_set_stake_asset_cap(self, new_total_staking_cap: i128) -> (Self, Result<NewTotalStakingCapEvent, PumpBTCStakingError>) {
        let st = self.state;
        if new_total_staking_cap <= 0 {
            (self, Err(PumpBTCStakingError::NegativeAmountNotAllowed))
        } else if new_total_staking_cap >= st.total_staking_amount {
            (
                self.with_state(StakingState { total_staking_cap: new_total_staking_cap, ..st }),
                Ok(
                    NewTotalStakingCapEvent {
                        old_total_staking_cap: st.total_staking_cap,
                        new_total_staking_cap,
                    },
                ),
            )
        } else {
            (self, Err(PumpBTCStakingError::StakingCapTooSmall))
        }
    }

    /// Sets the staking cap; a cap below the amount already staked is refused.
    pub fn set_stake_asset_cap(&mut self, new_total_staking_cap: i128) -> (r: Result<NewTotalStakingCapEvent, PumpBTCStakingError>)
        requires
            old(self).admin is Some,
        ensures
            (*final(self), r) == old(self).spec_set_stake_asset_cap(new_total_staking_cap),
    {
        check_nonnegative_amount(new_total_staking_cap)?;
        let total_staking_amount = self.state.total_staking_amount;
        if new_total_staking_cap >= total_staking_amount {
            let old_total_staking_cap = self.state.total_staking_cap;
            self.state.total_staking_cap = new_total_staking_cap;
            Ok(NewTotalStakingCapEvent { old_total_staking_cap, new_total_staking_cap })
        } else {
            Err(PumpBTCStakingError::StakingCapTooSmall)
        }
    }

    pub open spec fn spec_set_normal_unstake_fee(self, fee: i128) -> (Self, Result<NewNormalUnstakeFeeEvent, PumpBTCStakingError>) {
        if valid_fee(fee as int) {
            (
                PumpBTCStaking { normal_unstake_fee: fee, ..self },
                Ok(
                    NewNormalUnstakeFeeEvent {
                        old_normal_unstake_fee: self.normal_unstake_fee,
                        new_normal_unstake_fee: fee,
                    },
                ),
            )
        } else {
            (self, Err(PumpBTCStakingError::FeeShouldBeBetween0And10000))
        }
    }

    /// Sets the fee of a normal unstake, in basis points from 0 up to, not
    /// including, 10000.
    pub fn set_normal_unstake_fee(&mut self, new_normal_unstake_fee: i128) -> (r: Result<NewNormalUnstakeFeeEvent, PumpBTCStakingError>)
        requires
            old(self).admin is Some,
        ensures
            (*final(self), r) == old(self).spec_set_normal_unstake_fee(new_normal_unstake_fee),
    {
        if 0 <= new_normal_unstake_fee && new_normal_unstake_fee < FEE_DENOMINATOR {
            let old_normal_unstake_fee = self.normal_unstake_fee;
            self.normal_unstake_fee = new_normal_unstake_fee;
            Ok(NewNormalUnstakeFeeEvent { old_normal_unstake_fee, new_normal_unstake_fee })
        } else {
            Err(PumpBTCStakingError::FeeShouldBeBetween0And10000)
        }
    }

    pub open spec fn spec_set_instant_unstake_fee(self, fee: i128) -> (Self, Result<SetInstantUnstakeFeeEvent, PumpBTCStakingError>) {
        if valid_fee(fee as int) {
            (
                PumpBTCStaking { instant_unstake_fee: fee, ..self },
                Ok(
                    SetInstantUnstakeFeeEvent {
                        old_instant_unstake_fee: self.instant_unstake_fee,
                        new_instant_unstake_fee: fee,
                    },
                ),
            )
        } else {
            (self, Err(PumpBTCStakingError::FeeShouldBeBetween0And10000))
        }
    }

    /// Sets the fee of an instant unstake, in basis points from 0 up to, not
    /// including, 10000.
    pub fn set_instant_unstake_fee(&mut self, new_instant_unstake_fee: i128) -> (r: Result<SetInstantUnstakeFeeEvent, PumpBTCStakingError>)
        requires
            old(self).admin is Some,
        ensures
            (*final(self), r) == old(self).spec_set_instant_unstake_fee(new_instant_unstake_fee),
    {
        if 0 <= new_instant_unstake_fee && new_instant_unstake_fee < FEE_DENOMINATOR {
            let old_instant_unstake_fee = self.instant_unstake_fee;
            self.instant_unstake_fee = new_instant_unstake_fee;
            Ok(SetInstantUnstakeFeeEvent { old_instant_unstake_fee, new_instant_unstake_fee })
        } else {
            Err(PumpBTCStakingError::FeeShouldBeBetween0And10000)
        }
    }

    pub open spec fn spec_set_operator(self, new_operator: A) -> Self {
        PumpBTCStaking { operator: Some(new_operator), ..self }
    }

    /// Sets the operator and gives back the previous one.
    pub fn set_operator(&mut self, new_operator: A) -> (previous: Option<A>)
        requires
            old(self).admin is Some,
        ensures
            *final(self) == old(self).spec_set_operator(new_operator),
            previous == old(self).operator,
    {
        let previous = self.operator.take();
        self.operator = Some(new_operator);
        previous
    }

    pub open spec fn spec_set_only_allow_stake(self, only_allow_stake: bool) -> Self {
        PumpBTCStaking { only_allow_stake, ..self }
    }

    /// Opens or closes the stake-only phase, during which no unstaking is
    /// accepted.
    pub fn set_only_allow_stake(&mut self, only_allow_stake: bool) -> (event: SetOnlyAllowStakeEvent)
        requires
            old(self).admin is Some,
        ensures
            *final(self) == old(self).spec_set_only_allow_stake(only_allow_stake),
            event == (SetOnlyAllowStakeEvent { only_allow_stake }),
    {
        self.only_allow_stake = only_allow_stake;
        SetOnlyAllowStakeEvent { only_allow_stake }
    }

    pub open spec fn spec_pause(self) -> (Self, Result<(), PumpBTCStakingError>) {
        if self.paused {
            (self, Err(PumpBTCStakingError::ContractIsPaused))
        } else {
            (PumpBTCStaking { paused: true, ..self }, Ok(()))
        }
    }

    /// Pauses every operation that moves assets (staking, unstaking, claims,
    /// the operator's withdrawals and deposits, fee collection); settings and
    /// roles can still be changed. Refused when already paused.
    pub fn pause(&mut self) -> (r: Result<(), PumpBTCStakingError>)
        requires
            old(self).admin is Some,
        ensures
            (*final(self), r) == old(self).spec_pause(),
    {
        if self.paused {
            return Err(PumpBTCStakingError::ContractIsPaused);
        }
        self.paused = true;
        Ok(())
    }

    pub open spec fn spec_unpause(self) -> (Self, Result<(), PumpBTCStakingError>) {
        if !self.paused {
            (self, Err(PumpBTCStakingError::ContractIsNotPaused))
        } else {
            (PumpBTCStaking { paused: false, ..self }, Ok(()))
        }
    }

    /// Resumes the operations that move assets; refused when not paused.
    pub fn unpause(&mut self) -> (r: Result<(), PumpBTCStakingError>)
        requires
            old(self).admin is Some,
        ensures
            (*final(self), r) == old(self).spec_unpause(),
    {
        if !self.paused {
            return Err(PumpBTCStakingError::ContractIsNotPaused);
        }
        self.paused = false;
        Ok(())
    }

    pub open spec fn spec_transfer_admin(self, new_admin: A) -> Self {
        PumpBTCStaking { pending_admin: Some(new_admin), ..self }
    }

    /// First step of an admin transfer: `new_admin` becomes the pending
    /// admin, replacing any earlier one.
    pub fn transfer_admin(&mut self, new_admin: A)
        requires
            old(self).admin is Some,
        ensures
            *final(self) == old(self).spec_transfer_admin(new_admin),
    {
        self.pending_admin = Some(new_admin);
    }

    pub open spec fn spec_accept_admin(self) -> (Self, Result<A, PumpBTCStakingError>) {
        match self.pending_admin {
            None => (self, Err(PumpBTCStakingError::NoPendingAdminTransfer)),
            Some(new_admin) => (
                PumpBTCStaking { admin: Some(new_admin), pending_admin: None, ..self },
                Ok(self.admin->0),
            ),
        }
    }

    /// Second step of an admin transfer: the pending admin becomes the admin.
    /// Gives back the previous admin; refused when no transfer is pending.
    pub fn accept_admin(&mut self) -> (r: Result<A, PumpBTCStakingError>)
        requires
            old(self).pending_admin is Some ==> old(self).admin is Some,
        ensures
            (*final(self), r) == old(self).spec_accept_admin(),
    {
        match self.pending_admin.take() {
            None => Err(PumpBTCStakingError::NoPendingAdminTransfer),
            Some(new_admin) => {
                let previous = self.admin.take();
                self.admin = Some(new_admin);
                Ok(previous.unwrap())
            },
        }
    }

    pub open spec fn spec_renounce_admin(self) -> Self {
        PumpBTCStaking { pending_admin: None, ..self }
    }

    /// Cancels a pending admin transfer; the admin stays.
    pub fn renounce_admin(&mut self)
        requires
            old(self).admin is Some,
        ensures
            *final(self) == old(self).spec_renounce_admin(),
    {
        self.pending_admin = None;
    }

    // ========================= getters =========================

    /// Number of date slots.
    pub fn get_max_date_slot() -> (r: u32)
        ensures
            r == MAX_DATE_SLOT,
    {
        MAX_DATE_SLOT
    }

    pub fn get_pump_token(&self) -> (r: &A)
        requires
            self.pump_token is Some,
        ensures
            *r == self.pump_token->0,
    {
        self.pump_token.as_ref().unwrap()
    }

    pub fn get_asset_token(&self) -> (r: &A)
        requires
            self.asset_token is Some,
        ensures
            *r == self.asset_token->0,
    {
        self.asset_token.as_ref().unwrap()
    }

    pub fn get_asset_decimal(&self) -> (r: u32)
        ensures
            r == self.asset_decimal,
    {
        self.asset_decimal
    }

    pub fn get_total_staking_amount(&self) -> (r: i128)
        ensures
            r == self.state.total_staking_amount,
    {
        self.state.total_staking_amount
    }

    pub fn get_total_staking_cap(&self) -> (r: i128)
        ensures
            r == self.state.total_staking_cap,
    {
        self.state.total_staking_cap
    }

    pub fn get_total_requested_amount(&self) -> (r: i128)
        ensures
            r == self.state.total_requested_amount,
    {
        self.state.total_requested_amount
    }

    pub fn get_total_claimable_amount(&self) -> (r: i128)
        ensures
            r == self.state.total_claimable_amount,
    {
        self.state.total_claimable_amount
    }

    pub fn get_pending_stake_amount(&self) -> (r: i128)
        ensures
            r == self.state.pending_stake_amount,
    {
        self.state.pending_stake_amount
    }

    pub fn get_collected_fee(&self) -> (r: i128)
        ensures
            r == self.state.collected_fee,
    {
        self.state.collected_fee
    }

    pub fn get_operator(&self) -> (r: &Option<A>)
        ensures
            *r == self.operator,
    {
        &self.operator
    }

    pub fn get_normal_unstake_fee(&self) -> (r: i128)
        ensures
            r == self.normal_unstake_fee,
    {
        self.normal_unstake_fee
    }

    pub fn get_instant_unstake_fee(&self) -> (r: i128)
        ensures
            r == self.instant_unstake_fee,
    {
        self.instant_unstake_fee
    }

    pub fn get_only_allow_stake(&self) -> (r: bool)
        ensures
            r == self.only_allow_stake,
    {
        self.only_allow_stake
    }

    pub fn is_paused(&self) -> (r: bool)
        ensures
            r == self.paused,
    {
        self.paused
    }

    pub fn get_pending_admin(&self) -> (r: &Option<A>)
        ensures
            *r == self.pending_admin,
    {
        &self.pending_admin
    }
}

/// A request that a claim of all slots takes: positive and old enough.
pub open spec fn slot_claimable(request: UnstakeRequest, now: u64) -> bool {
    request.amount > 0 && now - request.timestamp >= claim_delay()
}

/// Sum of the requests in `slots` that a claim of all slots takes.
pub open spec fn claimable_total(slots: Seq<UnstakeRequest>, now: u64) -> int
    decreases slots.len(),
{
    if slots.len() == 0 {
        0
    } else {
        claimable_total(slots.drop_last(), now) + if slot_claimable(slots.last(), now) {
            slots.last().amount as int
        } else {
            0
        }
    }
}

/// A request after a claim of all slots: emptied where it was taken.
pub open spec fn claim_slot_entry(request: UnstakeRequest, now: u64) -> UnstakeRequest {
    if slot_claimable(request, now) {
        UnstakeRequest { amount: 0, ..request }
    } else {
        request
    }
}

/// A user's slots after a claim of all slots.
pub open spec fn after_claim_all(slots: Seq<UnstakeRequest>, now: u64) -> Seq<UnstakeRequest> {
    slots.map_values(|r: UnstakeRequest| claim_slot_entry(r, now))
}

/// The claimable sums of prefixes grow with the prefix and are never negative.
pub proof fn lemma_claimable_total_prefix(s: Seq<UnstakeRequest>, now: u64, i: int, j: int)
    requires
        0 <= i <= j <= s.len(),
    ensures
        0 <= claimable_total(s.take(i), now) <= claimable_total(s.take(j), now),
    decreases j,
{
    if j > 0 {
        assert(s.take(j).drop_last() =~= s.take(j - 1));
        if i < j {
            lemma_claimable_total_prefix(s, now, i, j - 1);
        } else {
            lemma_claimable_total_prefix(s, now, j - 1, j - 1);
        }
    }
}

/// The fee that `rate` basis points take from `amount`, as the contract
/// computes it: `amount * rate / 10000`, rounded toward zero.
pub fn fee_in_basis_points(amount: i128, rate: i128) -> (fee: i128)
    requires
        fits_i128(amount * rate),
    ensures
        fee == fee_of(amount as int, rate as int),
{
    let product = amount * rate;
    match product.checked_div(FEE_DENOMINATOR) {
        Some(fee) => fee,
        None => {
            assert(false);
            0
        },
    }
}

} // verus!
