//! Deciders for the inputs on which the staking operations are defined.
//! The host calls an operation only where its decider agrees, and traps
//! otherwise, as the contract does on an arithmetic overflow or on a value
//! that is missing from storage.

use vstd::prelude::*;

use crate::math::{adjust_amount, adjusted_amount, fits_i128, supported_decimal, INTERNAL_DECIMALS};
use crate::staking::{
    claimable_total, fee_in_basis_points, lemma_claimable_total_prefix, PumpBTCStaking,
    UnstakeRequest,
};
use crate::utils::{MAX_DATE_SLOT, SECONDS_PER_DAY};

verus! {

fn sum_fits(a: i128, b: i128) -> (r: bool)
    ensures
        r == fits_i128(a + b),
{
    a.checked_add(b).is_some()
}

fn difference_fits(a: i128, b: i128) -> (r: bool)
    ensures
        r == fits_i128(a - b),
{
    a.checked_sub(b).is_some()
}

fn product_fits(a: i128, b: i128) -> (r: bool)
    ensures
        r == fits_i128(a * b),
{
    a.checked_mul(b).is_some()
}

fn decimal_supported(asset_decimal: u32) -> (r: bool)
    ensures
        r == supported_decimal(asset_decimal),
{
    INTERNAL_DECIMALS <= asset_decimal && asset_decimal <= 46
}

fn conversion_fits(asset_decimal: u32, amount: i128) -> (r: bool)
    requires
        supported_decimal(asset_decimal),
    ensures
        r == (adjusted_amount(asset_decimal, amount as int) is Some),
{
    adjust_amount(asset_decimal, amount).is_ok()
}

impl<A> PumpBTCStaking<A> {
    fn can_pay_now(&self) -> (r: bool)
        ensures
            r == self.can_pay(),
    {
        self.asset_token.is_some() && decimal_supported(self.asset_decimal)
    }

    /// Decides `stake_defined`.
    pub fn stake_is_defined(&self, amount: i128) -> (r: bool)
        ensures
            r == self.stake_defined(amount),
    {
        if self.paused || amount <= 0 {
            return true;
        }
        if !sum_fits(self.state.total_staking_amount, amount) {
            return false;
        }
        if self.state.total_staking_amount + amount > self.state.total_staking_cap {
            return true;
        }
        sum_fits(self.state.pending_stake_amount, amount) && self.can_pay_now() && (!conversion_fits(
            self.asset_decimal,
            amount,
        ) || self.pump_token.is_some())
    }

    /// Decides `unstake_request_defined`.
    pub fn unstake_request_is_defined(&self, request: &UnstakeRequest, now: u64, amount: i128) -> (r: bool)
        ensures
            r == self.unstake_request_defined(*request, now, amount),
    {
        if self.paused || self.only_allow_stake || amount <= 0 {
            return true;
        }
        if now < request.timestamp {
            return false;
        }
        if now - request.timestamp < SECONDS_PER_DAY && request.amount > 0 {
            return true;
        }
        sum_fits(request.amount, amount) && difference_fits(self.state.total_staking_amount, amount)
            && sum_fits(self.state.total_requested_amount, amount) && self.pump_token.is_some()
    }

    /// Decides `claim_slot_defined`.
    pub fn claim_slot_is_defined(&self, request: &UnstakeRequest, now: u64) -> (r: bool)
        ensures
            r == self.claim_slot_defined(*request, now),
    {
        if self.paused || self.only_allow_stake {
            return true;
        }
        if !product_fits(request.amount, self.normal_unstake_fee) {
            return false;
        }
        let fee = fee_in_basis_points(request.amount, self.normal_unstake_fee);
        if request.amount <= 0 {
            return true;
        }
        if now < request.timestamp {
            return false;
        }
        if now - request.timestamp < (MAX_DATE_SLOT - 1) as u64 * SECONDS_PER_DAY {
            return true;
        }
        difference_fits(self.state.total_claimable_amount, request.amount) && difference_fits(
            self.state.total_requested_amount,
            request.amount,
        ) && sum_fits(self.state.collected_fee, fee) && difference_fits(request.amount, fee)
            && self.can_pay_now()
    }

    /// Decides `claim_all_defined`.
    pub fn claim_all_is_defined(&self, slots: &Vec<UnstakeRequest>, now: u64) -> (r: bool)
        ensures
            r == self.claim_all_defined(slots@, now),
    {
        if slots.len() != MAX_DATE_SLOT as usize {
            return false;
        }
        if self.paused || self.only_allow_stake {
            return true;
        }
        let ghost s = slots@;
        let mut total: i128 = 0;
        let mut i: usize = 0;
        while i < slots.len()
            invariant
                s == slots@,
                s.len() == MAX_DATE_SLOT,
                !self.paused,
                !self.only_allow_stake,
                i <= s.len(),
                total == claimable_total(s.take(i as int), now),
                forall|j: int| 0 <= j < i ==> now >= #[trigger] s[j].timestamp,
            decreases s.len() - i,
        {
            let entry = slots[i];
            assert(entry == s[i as int]);
            if now < entry.timestamp {
                assert(!(now >= s[i as int].timestamp));
                assert(!self.claim_all_defined(s, now));
                return false;
            }
            proof {
                assert(s.take(i as int + 1).drop_last() =~= s.take(i as int));
                lemma_claimable_total_prefix(s, now, i as int + 1, s.len() as int);
                assert(s.take(s.len() as int) =~= s);
                assert(s.take(i as int + 1).last() == s[i as int]);
            }
            if entry.amount > 0 && now - entry.timestamp >= (MAX_DATE_SLOT - 1) as u64 * SECONDS_PER_DAY {
                if !sum_fits(total, entry.amount) {
                    assert(claimable_total(s.take(i as int + 1), now) == total + entry.amount);
                    assert(!fits_i128(claimable_total(s, now)));
                    return false;
                }
                total = total + entry.amount;
            }
            i = i + 1;
        }
        proof {
            assert(s.take(s.len() as int) =~= s);
        }
        if !product_fits(total, self.normal_unstake_fee) {
            return false;
        }
        if total <= 0 {
            return true;
        }
        let fee = fee_in_basis_points(total, self.normal_unstake_fee);
        difference_fits(self.state.total_claimable_amount, total) && difference_fits(
            self.state.total_requested_amount,
            total,
        ) && sum_fits(self.state.collected_fee, fee) && difference_fits(total, fee)
            && self.can_pay_now()
    }

    /// Decides `unstake_instant_defined`.
    pub fn unstake_instant_is_defined(&self, amount: i128) -> (r: bool)
        ensures
            r == self.unstake_instant_defined(amount),
    {
        if self.paused || self.only_allow_stake {
            return true;
        }
        if !product_fits(amount, self.instant_unstake_fee) {
            return false;
        }
        if amount <= 0 || amount > self.state.pending_stake_amount {
            return true;
        }
        let fee = fee_in_basis_points(amount, self.instant_unstake_fee);
        difference_fits(self.state.total_staking_amount, amount) && sum_fits(self.state.collected_fee, fee)
            && difference_fits(amount, fee) && self.pump_token.is_some() && self.can_pay_now()
    }

    /// Decides `withdraw_defined`.
    pub fn withdraw_is_defined(&self) -> (r: bool)
        ensures
            r == self.withdraw_defined(),
    {
        self.paused || self.operator.is_none() || self.state.pending_stake_amount <= 0 || self.can_pay_now()
    }

    /// Decides `deposit_defined`.
    pub fn deposit_is_defined(&self, amount: i128) -> (r: bool)
        ensures
            r == self.deposit_defined(amount),
    {
        self.paused || self.operator.is_none() || amount <= 0 || (sum_fits(self.state.total_claimable_amount, amount)
            && self.can_pay_now())
    }

    /// Decides `withdraw_and_deposit_defined`.
    pub fn withdraw_and_deposit_is_defined(&self, deposit_amount: i128) -> (r: bool)
        ensures
            r == self.withdraw_and_deposit_defined(deposit_amount),
    {
        if self.paused || self.operator.is_none() {
            return true;
        }
        if self.asset_token.is_none() {
            return false;
        }
        deposit_amount <= 0 || (sum_fits(self.state.total_claimable_amount, deposit_amount)
            && difference_fits(deposit_amount, self.state.pending_stake_amount) && (
        self.state.pending_stake_amount == deposit_amount || decimal_supported(self.asset_decimal)))
    }

    /// Decides `collect_fee_defined`.
    pub fn collect_fee_is_defined(&self) -> (r: bool)
        ensures
            r == self.collect_fee_defined(),
    {
        self.admin.is_some() && (self.paused || self.state.collected_fee <= 0 || self.can_pay_now())
    }
}

} // verus!
