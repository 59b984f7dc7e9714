//! Properties of the library that span several operations.

use vstd::prelude::*;

use crate::error::{PumpBTCStakingError, PumpTokenError};
use crate::math::{adjusted_amount, fits_i128, lemma_pow10_positive, pow10, INTERNAL_DECIMALS};
use crate::staking::{
    after_claim_all, claim_delay, claim_slot_entry, claimable_total, fee_of,
    valid_fee, AssetTransfer, OperatorSettlement, PumpBTCStaking, UnstakeRequest,
};
use crate::token::{allowance_at, spec_transfer, spec_transfer_from, AllowanceValue, PumpToken};
use crate::utils::{date_slot, MAX_DATE_SLOT, SECONDS_PER_DAY, UTC_OFFSET};

verus! {

/// With the asset kept in 8 decimals, amounts are passed on unchanged.
pub proof fn law_eight_decimals_unchanged(amount: i128)
    ensures
        adjusted_amount(INTERNAL_DECIMALS, amount as int) == Some(amount as int),
{
    assert(crate::math::pow10(0) == 1);
}

/// A fee rate that the setters accept takes between nothing and all of a
/// non-negative amount, so what is paid out is never negative.
pub proof fn law_fee_within_amount(amount: int, rate: int)
    requires
        amount >= 0,
        valid_fee(rate),
    ensures
        0 <= fee_of(amount, rate) <= amount,
{
    assert(0 <= amount * rate <= amount * 10000) by (nonlinear_arith)
        requires
            amount >= 0,
            0 <= rate < 10000,
    ;
}

/// Date slots follow the days: the next day has the next slot, and a slot
/// comes back every `MAX_DATE_SLOT` days.
pub proof fn law_date_slot_cycle(t: u64)
    requires
        t + MAX_DATE_SLOT * SECONDS_PER_DAY <= u64::MAX,
    ensures
        date_slot((t + SECONDS_PER_DAY) as u64) == (date_slot(t) + 1) % (MAX_DATE_SLOT as int),
        date_slot((t + MAX_DATE_SLOT * SECONDS_PER_DAY) as u64) == date_slot(t),
        0 <= date_slot(t) < MAX_DATE_SLOT,
{
    let d = (t + 28800) / 86400;
    assert(((t + SECONDS_PER_DAY) as u64 + 28800) / 86400 == d + 1);
    assert(((t + MAX_DATE_SLOT * SECONDS_PER_DAY) as u64 + 28800) / 86400 == d + 10);
    assert((d + 1) % 10 == (d % 10 + 1) % 10);
    assert((d + 10) % 10 == d % 10);
}

/// A contract is initialized once: a second initialization is refused and
/// changes nothing, whatever it is given.
pub proof fn law_initialize_once<A>(s: PumpBTCStaking<A>, admin: A, pump: A, asset: A, decimal: u32, admin2: A, pump2: A, asset2: A, decimal2: u32)
    requires
        s.admin is None,
    ensures
        ({
            let s1 = s.spec_initialize(admin, pump, asset, decimal).0;
            &&& s1.initialized()
            &&& valid_fee(s1.normal_unstake_fee as int)
            &&& valid_fee(s1.instant_unstake_fee as int)
            &&& s1.spec_initialize(admin2, pump2, asset2, decimal2) == (s1, Err::<(), _>(PumpBTCStakingError::AlreadyInitialized))
        }),
{
}

/// The fee rates stay within 0 to 100% through every setter.
pub proof fn law_fee_setters_keep_rates_valid<A>(s: PumpBTCStaking<A>, fee: i128)
    requires
        valid_fee(s.normal_unstake_fee as int),
        valid_fee(s.instant_unstake_fee as int),
    ensures
        valid_fee(s.spec_set_normal_unstake_fee(fee).0.normal_unstake_fee as int),
        valid_fee(s.spec_set_normal_unstake_fee(fee).0.instant_unstake_fee as int),
        valid_fee(s.spec_set_instant_unstake_fee(fee).0.normal_unstake_fee as int),
        valid_fee(s.spec_set_instant_unstake_fee(fee).0.instant_unstake_fee as int),
        s.spec_set_normal_unstake_fee(fee).1 is Ok <==> valid_fee(fee as int),
        s.spec_set_instant_unstake_fee(fee).1 is Ok <==> valid_fee(fee as int),
{
}

/// Staking never passes the cap: no operation takes the staked amount
/// above the cap once it is within it.
pub proof fn law_cap_respected<A>(s: PumpBTCStaking<A>, amount: i128, cap: i128, request: UnstakeRequest, now: u64)
    requires
        s.state.total_staking_amount <= s.state.total_staking_cap,
        s.unstake_request_defined(request, now, amount),
        s.unstake_instant_defined(amount),
    ensures
        ({
            let s1 = s.spec_stake(amount).0;
            s1.state.total_staking_amount <= s1.state.total_staking_cap
        }),
        ({
            let s1 = s.spec_set_stake_asset_cap(cap).0;
            s1.state.total_staking_amount <= s1.state.total_staking_cap
        }),
        ({
            let s1 = s.spec_unstake_request(request, now, amount).0;
            s1.state.total_staking_amount <= s1.state.total_staking_cap
        }),
        ({
            let s1 = s.spec_unstake_instant(amount).0;
            s1.state.total_staking_amount <= s1.state.total_staking_cap
        }),
{
}

/// While paused, every operation that moves assets is refused with
/// `ContractIsPaused` and changes nothing.
pub proof fn law_paused_refuses_users<A>(s: PumpBTCStaking<A>, amount: i128, request: UnstakeRequest, slots: Seq<UnstakeRequest>, now: u64)
    requires
        s.paused,
    ensures
        s.spec_stake(amount) == (s, Err::<crate::staking::AssetTransfer, _>(PumpBTCStakingError::ContractIsPaused)),
        s.spec_unstake_request(request, now, amount) == (s, request, Err::<u32, _>(PumpBTCStakingError::ContractIsPaused)),
        s.spec_claim_slot(request, now) == (s, request, Err::<crate::staking::Payout, _>(PumpBTCStakingError::ContractIsPaused)),
        s.spec_claim_all(slots, now) == (s, slots, Err::<crate::staking::Payout, _>(PumpBTCStakingError::ContractIsPaused)),
        s.spec_unstake_instant(amount) == (s, Err::<crate::staking::Payout, _>(PumpBTCStakingError::ContractIsPaused)),
        s.spec_withdraw() == (s, Err::<crate::staking::AssetTransfer, _>(PumpBTCStakingError::ContractIsPaused)),
        s.spec_deposit(amount) == (s, Err::<crate::staking::AssetTransfer, _>(PumpBTCStakingError::ContractIsPaused)),
        s.spec_withdraw_and_deposit(amount) == (s, Err::<crate::staking::Rebalance, _>(PumpBTCStakingError::ContractIsPaused)),
        s.spec_collect_fee() == (s, Err::<crate::staking::AssetTransfer, _>(PumpBTCStakingError::ContractIsPaused)),
{
}

/// A matured, non-empty slot is always paid when unstaking is open: the
/// normal fee, zero included, is kept and the rest (never negative) goes to
/// the user, and the slot is emptied.
pub proof fn law_matured_slot_is_paid<A>(s: PumpBTCStaking<A>, request: UnstakeRequest, now: u64)
    requires
        !s.paused,
        !s.only_allow_stake,
        request.amount > 0,
        now >= request.timestamp,
        now - request.timestamp >= claim_delay(),
        valid_fee(s.normal_unstake_fee as int),
        s.claim_slot_defined(request, now),
        s.transfer_of(request.amount - fee_of(request.amount as int, s.normal_unstake_fee as int)) is Some,
    ensures
        ({
            let (s1, r1, res) = s.spec_claim_slot(request, now);
            let fee = fee_of(request.amount as int, s.normal_unstake_fee as int);
            &&& res is Ok
            &&& res->Ok_0.fee == fee
            &&& 0 <= fee <= request.amount
            &&& res->Ok_0.paid.amount == request.amount - fee
            &&& r1.amount == 0
            &&& s.normal_unstake_fee == 0 ==> fee == 0 && s1.state.collected_fee == s.state.collected_fee
        }),
{
    law_fee_within_amount(request.amount as int, s.normal_unstake_fee as int);
}

/// Pausing and then unpausing gives back the contract as it was.
pub proof fn law_pause_roundtrip<A>(s: PumpBTCStaking<A>)
    requires
        !s.paused,
    ensures
        s.spec_pause().1 is Ok,
        s.spec_pause().0.spec_unpause() == (s, Ok::<(), PumpBTCStakingError>(())),
        s.spec_pause().0.spec_pause().1 == Err::<(), _>(PumpBTCStakingError::ContractIsPaused),
        s.spec_unpause() == (s, Err::<(), _>(PumpBTCStakingError::ContractIsNotPaused)),
{
}

/// Two-step admin transfer: the latest address put forward becomes the
/// admin once it accepts, and nothing is left pending; a renounced
/// transfer cannot be accepted.
pub proof fn law_admin_handover<A>(s: PumpBTCStaking<A>, first: A, second: A)
    requires
        s.admin is Some,
    ensures
        s.spec_transfer_admin(first).spec_transfer_admin(second).spec_accept_admin() == (
            PumpBTCStaking { admin: Some(second), pending_admin: None, ..s },
            Ok::<A, PumpBTCStakingError>(s.admin->0),
        ),
        s.spec_transfer_admin(first).spec_renounce_admin().spec_accept_admin().1 == Err::<A, _>(
            PumpBTCStakingError::NoPendingAdminTransfer,
        ),
{
}

/// The same two-step admin transfer on the pumpBTC token.
pub proof fn law_token_admin_handover<A>(t: PumpToken<A>, first: A, second: A)
    requires
        t.admin is Some,
    ensures
        t.spec_transfer_admin(first).spec_transfer_admin(second).spec_accept_admin() == (
            PumpToken { admin: Some(second), pending_admin: None, ..t },
            Ok::<A, PumpTokenError>(t.admin->0),
        ),
        t.spec_transfer_admin(first).spec_renounce_admin().spec_accept_admin().1 == Err::<A, _>(
            PumpTokenError::NoPendingAdminTransfer,
        ),
{
}

/// An instant unstake right after a stake of the same amount succeeds and
/// takes the staked and pending amounts back to where they were; only the
/// instant fee stays behind as collected fee.
pub proof fn law_stake_then_unstake_instant<A>(s: PumpBTCStaking<A>, amount: i128)
    requires
        s.stake_defined(amount),
        s.state.pending_stake_amount >= 0,
        s.spec_stake(amount).1 is Ok,
        s.spec_stake(amount).0.unstake_instant_defined(amount),
        !s.only_allow_stake,
        s.transfer_of(amount - fee_of(amount as int, s.instant_unstake_fee as int)) is Some,
    ensures
        ({
            let s1 = s.spec_stake(amount).0;
            let s2 = s1.spec_unstake_instant(amount).0;
            &&& s1.spec_unstake_instant(amount).1 is Ok
            &&& s2.state.total_staking_amount == s.state.total_staking_amount
            &&& s2.state.pending_stake_amount == s.state.pending_stake_amount
            &&& s2.state.collected_fee == s.state.collected_fee + fee_of(amount as int, s.instant_unstake_fee as int)
            &&& s2.state.total_staking_cap == s.state.total_staking_cap
            &&& s2.state.total_requested_amount == s.state.total_requested_amount
            &&& s2.state.total_claimable_amount == s.state.total_claimable_amount
        }),
{
}

/// An unstake request moves the amount from staked to requested: their sum
/// does not change, and the user's slot grows by the amount.
pub proof fn law_unstake_request_moves_stake<A>(s: PumpBTCStaking<A>, request: UnstakeRequest, now: u64, amount: i128)
    requires
        s.unstake_request_defined(request, now, amount),
        s.spec_unstake_request(request, now, amount).2 is Ok,
    ensures
        ({
            let (s1, r1, _) = s.spec_unstake_request(request, now, amount);
            &&& s1.state.total_staking_amount + s1.state.total_requested_amount
                == s.state.total_staking_amount + s.state.total_requested_amount
            &&& s1.state.total_requested_amount == s.state.total_requested_amount + amount
            &&& r1.amount == request.amount + amount
            &&& r1.timestamp == now
        }),
{
}

/// A claimed slot is settled in full: it is emptied, the requested and the
/// claimable amounts drop by what it held, and that amount is split into
/// the fee kept and what the user is paid. It can only happen once the
/// claim delay has passed.
pub proof fn law_claim_slot_settles<A>(s: PumpBTCStaking<A>, request: UnstakeRequest, now: u64)
    requires
        s.claim_slot_defined(request, now),
        s.spec_claim_slot(request, now).2 is Ok,
    ensures
        ({
            let (s1, r1, res) = s.spec_claim_slot(request, now);
            let p = res->Ok_0;
            &&& r1.amount == 0
            &&& now - request.timestamp >= claim_delay()
            &&& p.amount == request.amount
            &&& p.paid.amount + p.fee == p.amount
            &&& s1.state.total_requested_amount == s.state.total_requested_amount - request.amount
            &&& s1.state.total_claimable_amount == s.state.total_claimable_amount - request.amount
            &&& s1.state.collected_fee == s.state.collected_fee + p.fee
        }),
{
}

/// After a claim of all slots nothing is left to claim, so a second claim
/// at the same moment is refused.
pub proof fn law_claim_all_leaves_nothing<A>(s: PumpBTCStaking<A>, slots: Seq<UnstakeRequest>, now: u64)
    requires
        s.spec_claim_all(slots, now).2 is Ok,
    ensures
        ({
            let (s1, slots1, _) = s.spec_claim_all(slots, now);
            &&& claimable_total(slots1, now) == 0
            &&& s1.spec_claim_all(slots1, now).2 == Err::<crate::staking::Payout, _>(
                PumpBTCStakingError::NegativeAmountNotAllowed,
            )
        }),
{
    lemma_nothing_left_after_claim_all(slots, now);
}

proof fn lemma_nothing_left_after_claim_all(slots: Seq<UnstakeRequest>, now: u64)
    ensures
        claimable_total(after_claim_all(slots, now), now) == 0,
    decreases slots.len(),
{
    let after = after_claim_all(slots, now);
    if slots.len() > 0 {
        lemma_nothing_left_after_claim_all(slots.drop_last(), now);
        assert(after.drop_last() =~= after_claim_all(slots.drop_last(), now));
        assert(after.last() == claim_slot_entry(slots.last(), now));
    }
}

/// An approval is read back as approved until its expiration ledger, and
/// as empty in every later ledger.
pub proof fn law_allowance_read_back(amount: i128, expiration_ledger: u32, ledger: u32, later: u32)
    requires
        ledger <= expiration_ledger < later,
    ensures
        allowance_at(Some(AllowanceValue { amount, expiration_ledger }), ledger).amount == amount,
        allowance_at(Some(AllowanceValue { amount, expiration_ledger }), later).amount == 0,
{
}

/// The pending stake is never negative, and an instant unstake never takes
/// more than it.
pub proof fn law_pending_stake_never_negative<A>(s: PumpBTCStaking<A>, amount: i128, deposit_amount: i128)
    requires
        s.state.pending_stake_amount >= 0,
        s.stake_defined(amount),
        s.unstake_instant_defined(amount),
    ensures
        s.spec_stake(amount).0.state.pending_stake_amount >= 0,
        s.spec_unstake_instant(amount).0.state.pending_stake_amount >= 0,
        s.spec_unstake_instant(amount).1 is Ok ==> amount <= s.state.pending_stake_amount,
        s.spec_withdraw().0.state.pending_stake_amount >= 0,
        s.spec_withdraw_and_deposit(deposit_amount).0.state.pending_stake_amount >= 0,
{
}

/// A token transfer keeps the sum of the two balances, and one made by a
/// spender also lowers the allowance in force by exactly the amount.
pub proof fn law_token_transfer_conserves(
    stored: Option<AllowanceValue>,
    ledger: u32,
    from_balance: i128,
    to_balance: i128,
    amount: i128,
)
    ensures
        spec_transfer(from_balance, to_balance, amount, false) matches Ok((f, t)) ==> f + t
            == from_balance + to_balance,
        spec_transfer(from_balance, to_balance, amount, true) matches Ok((f, t)) ==> f == from_balance
            && t == from_balance,
        spec_transfer_from(stored, ledger, from_balance, to_balance, amount, false) matches Ok((w, f, t))
            ==> {
            &&& f + t == from_balance + to_balance
            &&& amount > 0 ==> (w is Some && w->0.value.amount == allowance_at(stored, ledger).amount
                - amount)
            &&& amount == 0 ==> w is None
        },
{
}

// ========================= what each payment is =========================

/// The factor that takes an amount kept with 8 decimals into the asset's
/// own decimals: `10^(asset_decimal - 8)`.
pub open spec fn asset_scale(asset_decimal: u32) -> int {
    pow10((asset_decimal - INTERNAL_DECIMALS) as nat)
}

/// A transfer whose asset amount is its 8-decimal amount in the asset's
/// decimals.
pub open spec fn converted(t: AssetTransfer, asset_decimal: u32) -> bool {
    t.asset_amount == t.amount * asset_scale(asset_decimal)
}

/// A transfer of `amount`, when it can be made, carries exactly `amount`
/// and its conversion.
proof fn lemma_transfer_exact<A>(s: PumpBTCStaking<A>, amount: int)
    ensures
        s.transfer_of(amount) matches Some(t) ==> t.amount == amount && converted(t, s.asset_decimal),
{
    if let Some(t) = s.transfer_of(amount) {
        let p = asset_scale(s.asset_decimal);
        lemma_pow10_positive((s.asset_decimal - INTERNAL_DECIMALS) as nat);
        let v = amount * p;
        assert(fits_i128(v));
        if amount >= 0 {
            assert(amount <= amount * p) by (nonlinear_arith)
                requires amount >= 0, p >= 1;
        } else {
            assert(amount * p <= amount) by (nonlinear_arith)
                requires amount < 0, p >= 1;
        }
    }
}

/// `fee` is `amount * rate` basis points rounded down, for a non-negative
/// product.
pub open spec fn fee_in_basis_points_of(fee: int, amount: int, rate: int) -> bool {
    amount * rate >= 0 ==> 10000 * fee <= amount * rate < 10000 * (fee + 1)
}

proof fn lemma_fee_rounds_down(amount: int, rate: int)
    ensures
        fee_in_basis_points_of(fee_of(amount, rate), amount, rate),
{
}

/// A fee in basis points of an amount whose product with the rate fits in
/// an `i128` fits in one too.
proof fn lemma_fee_fits(amount: int, rate: int)
    requires
        fits_i128(amount * rate),
    ensures
        fits_i128(fee_of(amount, rate)),
{
}

/// A stake takes in exactly the staked amount, in the asset's decimals, and
/// adds it to both the staked and the pending amounts.
pub proof fn law_stake_takes_amount<A>(s: PumpBTCStaking<A>, amount: i128)
    requires
        s.stake_defined(amount),
    ensures
        s.spec_stake(amount).1 matches Ok(t) ==> {
            let s1 = s.spec_stake(amount).0;
            &&& t.amount == amount
            &&& converted(t, s.asset_decimal)
            &&& s1.state.total_staking_amount == s.state.total_staking_amount + amount
            &&& s1.state.pending_stake_amount == s.state.pending_stake_amount + amount
        },
{
    lemma_transfer_exact(s, amount as int);
}

/// An unstake request is filed in the slot of the day of `now` in UTC+8,
/// one of the `MAX_DATE_SLOT` slots, and moves the amount from staked to
/// requested.
pub proof fn law_unstake_request_slot<A>(s: PumpBTCStaking<A>, request: UnstakeRequest, now: u64, amount: i128)
    requires
        s.unstake_request_defined(request, now, amount),
    ensures
        s.spec_unstake_request(request, now, amount).2 matches Ok(slot) ==> {
            let s1 = s.spec_unstake_request(request, now, amount).0;
            &&& slot < MAX_DATE_SLOT
            &&& slot as int == ((now + UTC_OFFSET) / (SECONDS_PER_DAY as int)) % (MAX_DATE_SLOT as int)
            &&& s1.state.total_staking_amount == s.state.total_staking_amount - amount
            &&& s1.state.total_requested_amount == s.state.total_requested_amount + amount
        },
{
}

/// Requests made a day apart land in consecutive slots, wrapping around
/// after the last one.
pub proof fn law_request_slots_follow_days<A>(
    s: PumpBTCStaking<A>,
    first: UnstakeRequest,
    second: UnstakeRequest,
    now: u64,
    amount: i128,
)
    requires
        now + SECONDS_PER_DAY <= u64::MAX,
        s.spec_unstake_request(first, now, amount).2 is Ok,
        s.spec_unstake_request(second, (now + SECONDS_PER_DAY) as u64, amount).2 is Ok,
    ensures
        s.spec_unstake_request(second, (now + SECONDS_PER_DAY) as u64, amount).2->Ok_0 as int
            == (s.spec_unstake_request(first, now, amount).2->Ok_0 + 1) % (MAX_DATE_SLOT as int),
{
    let d = (now + UTC_OFFSET) / (SECONDS_PER_DAY as int);
    assert(((now + SECONDS_PER_DAY) as u64 + UTC_OFFSET) / (SECONDS_PER_DAY as int) == d + 1);
}

/// A slot claim pays the user what the slot held less the normal fee, in
/// the asset's decimals; the fee is what stays as collected fee.
pub proof fn law_claim_slot_payout<A>(s: PumpBTCStaking<A>, request: UnstakeRequest, now: u64)
    requires
        s.claim_slot_defined(request, now),
    ensures
        s.spec_claim_slot(request, now).2 matches Ok(p) ==> {
            let s1 = s.spec_claim_slot(request, now).0;
            &&& p.amount == request.amount
            &&& p.fee == fee_of(request.amount as int, s.normal_unstake_fee as int)
            &&& fee_in_basis_points_of(p.fee as int, p.amount as int, s.normal_unstake_fee as int)
            &&& p.paid.amount == p.amount - p.fee
            &&& converted(p.paid, s.asset_decimal)
            &&& s1.state.collected_fee == s.state.collected_fee + p.fee
        },
{
    let fee = fee_of(request.amount as int, s.normal_unstake_fee as int);
    lemma_transfer_exact(s, request.amount - fee);
    lemma_fee_rounds_down(request.amount as int, s.normal_unstake_fee as int);
    if !s.paused && !s.only_allow_stake {
        lemma_fee_fits(request.amount as int, s.normal_unstake_fee as int);
    }
}

/// A claim of all slots pays the user the sum of the matured slots less the
/// normal fee on that sum, in the asset's decimals; the sum leaves both the
/// requested and the claimable amounts, and the fee stays as collected fee.
pub proof fn law_claim_all_payout<A>(s: PumpBTCStaking<A>, slots: Seq<UnstakeRequest>, now: u64)
    requires
        s.claim_all_defined(slots, now),
    ensures
        s.spec_claim_all(slots, now).2 matches Ok(p) ==> {
            let (s1, slots1, _) = s.spec_claim_all(slots, now);
            &&& p.amount == claimable_total(slots, now)
            &&& p.fee == fee_of(p.amount as int, s.normal_unstake_fee as int)
            &&& fee_in_basis_points_of(p.fee as int, p.amount as int, s.normal_unstake_fee as int)
            &&& p.paid.amount == p.amount - p.fee
            &&& converted(p.paid, s.asset_decimal)
            &&& s1.state.total_requested_amount == s.state.total_requested_amount - p.amount
            &&& s1.state.total_claimable_amount == s.state.total_claimable_amount - p.amount
            &&& s1.state.collected_fee == s.state.collected_fee + p.fee
            &&& slots1.len() == slots.len()
            &&& forall|j: int| 0 <= j < slots.len() ==> {
                let before = #[trigger] slots[j];
                let matured = before.amount > 0 && now - before.timestamp
                    >= (MAX_DATE_SLOT - 1) * SECONDS_PER_DAY;
                &&& slots1[j].timestamp == before.timestamp
                &&& slots1[j].amount == if matured { 0 } else { before.amount }
            }
        },
{
    let total = claimable_total(slots, now);
    lemma_fee_rounds_down(total, s.normal_unstake_fee as int);
    let fee = fee_of(total, s.normal_unstake_fee as int);
    lemma_transfer_exact(s, total - fee);
    if !s.paused && !s.only_allow_stake {
        lemma_fee_fits(total, s.normal_unstake_fee as int);
    }
}

/// An instant unstake takes the amount out of the pending stake and pays
/// the user that amount less the instant fee, in the asset's decimals.
pub proof fn law_unstake_instant_payout<A>(s: PumpBTCStaking<A>, amount: i128)
    requires
        s.unstake_instant_defined(amount),
    ensures
        s.spec_unstake_instant(amount).1 matches Ok(p) ==> {
            let s1 = s.spec_unstake_instant(amount).0;
            &&& p.amount == amount
            &&& p.fee == fee_of(amount as int, s.instant_unstake_fee as int)
            &&& fee_in_basis_points_of(p.fee as int, amount as int, s.instant_unstake_fee as int)
            &&& p.paid.amount == amount - p.fee
            &&& converted(p.paid, s.asset_decimal)
            &&& s1.state.pending_stake_amount == s.state.pending_stake_amount - amount
            &&& s1.state.total_staking_amount == s.state.total_staking_amount - amount
            &&& s1.state.collected_fee == s.state.collected_fee + p.fee
        },
{
    let fee = fee_of(amount as int, s.instant_unstake_fee as int);
    lemma_transfer_exact(s, amount - fee);
    lemma_fee_rounds_down(amount as int, s.instant_unstake_fee as int);
    if !s.paused && !s.only_allow_stake {
        lemma_fee_fits(amount as int, s.instant_unstake_fee as int);
    }
}

/// A withdrawal hands the operator exactly the pending stake, in the
/// asset's decimals, and leaves none pending; the staked amount is kept.
pub proof fn law_withdraw_hands_over_pending<A>(s: PumpBTCStaking<A>)
    ensures
        s.spec_withdraw().1 matches Ok(t) ==> {
            let s1 = s.spec_withdraw().0;
            &&& t.amount == s.state.pending_stake_amount
            &&& t.amount == s.state.pending_stake_amount - s1.state.pending_stake_amount
            &&& converted(t, s.asset_decimal)
            &&& s1.state.total_staking_amount == s.state.total_staking_amount
        },
{
    lemma_transfer_exact(s, s.state.pending_stake_amount as int);
}

/// A deposit takes in exactly the deposited amount, in the asset's
/// decimals, and makes it claimable.
pub proof fn law_deposit_takes_amount<A>(s: PumpBTCStaking<A>, amount: i128)
    requires
        s.deposit_defined(amount),
    ensures
        s.spec_deposit(amount).1 matches Ok(t) ==> {
            let s1 = s.spec_deposit(amount).0;
            &&& t.amount == amount
            &&& converted(t, s.asset_decimal)
            &&& s1.state.total_claimable_amount == s.state.total_claimable_amount + amount
        },
{
    lemma_transfer_exact(s, amount as int);
}

/// A combined withdraw and deposit moves only the difference between the
/// pending stake and the deposit, in the asset's decimals, toward whichever
/// side is owed it.
pub proof fn law_withdraw_and_deposit_moves_difference<A>(s: PumpBTCStaking<A>, deposit_amount: i128)
    requires
        s.withdraw_and_deposit_defined(deposit_amount),
    ensures
        s.spec_withdraw_and_deposit(deposit_amount).1 matches Ok(r) ==> {
            let s1 = s.spec_withdraw_and_deposit(deposit_amount).0;
            &&& r.withdrawn == s.state.pending_stake_amount
            &&& r.deposited == deposit_amount
            &&& s1.state.pending_stake_amount == 0
            &&& s1.state.total_claimable_amount == s.state.total_claimable_amount + deposit_amount
            &&& match r.settlement {
                OperatorSettlement::Balanced => r.withdrawn == r.deposited,
                OperatorSettlement::PayOperator(t) => t.amount == r.withdrawn - r.deposited > 0
                    && converted(t, s.asset_decimal),
                OperatorSettlement::CollectFromOperator(t) => t.amount == r.deposited - r.withdrawn > 0
                    && converted(t, s.asset_decimal),
            }
        },
{
    let pending = s.state.pending_stake_amount;
    lemma_transfer_exact(s, pending - deposit_amount);
    lemma_transfer_exact(s, deposit_amount - pending);
}

/// Collecting fees hands the admin every collected fee, in the asset's
/// decimals, and leaves none.
pub proof fn law_collect_fee_hands_over_all<A>(s: PumpBTCStaking<A>)
    ensures
        s.spec_collect_fee().1 matches Ok(t) ==> {
            let s1 = s.spec_collect_fee().0;
            &&& t.amount == s.state.collected_fee
            &&& s1.state.collected_fee == 0
            &&& converted(t, s.asset_decimal)
        },
{
    lemma_transfer_exact(s, s.state.collected_fee as int);
}

} // verus!
