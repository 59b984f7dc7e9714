use std::collections::HashMap;

use pumpbtc::error::PumpBTCStakingError;
use pumpbtc::staking::{OperatorSettlement, PumpBTCStaking, UnstakeRequest};
use pumpbtc::utils::get_date_slot;

const ADMIN: u32 = 1;
const USER1: u32 = 2;
const USER2: u32 = 3;
const OPERATOR: u32 = 4;
const PUMP_TOKEN: u32 = 5;
const ASSET_TOKEN: u32 = 6;
const NEW_ADMIN: u32 = 7;

const STAKING_AMOUNT: i128 = 100_000_000;
const DEPOSIT_AMOUNT: i128 = 1_000_000_000;
const DAY: u64 = 24 * 60 * 60;

/// The contract's storage together with the users' unstake slots and the
/// ledger's clock.
struct Harness {
    contract: PumpBTCStaking<u32>,
    slots: HashMap<(u32, u32), UnstakeRequest>,
    now: u64,
}

impl Harness {
    fn setup() -> Harness {
        Harness { contract: PumpBTCStaking::new(), slots: HashMap::new(), now: 0 }
    }

    fn setup_initialized() -> Harness {
        let mut h = Harness::setup();
        h.contract.initialize(ADMIN, PUMP_TOKEN, ASSET_TOKEN, 8).unwrap();
        h.contract.set_stake_asset_cap(10_000_000_000i128).unwrap();
        h.contract.set_operator(OPERATOR);
        h.contract.set_normal_unstake_fee(100).unwrap();
        h.contract.set_instant_unstake_fee(500).unwrap();
        h
    }

    fn slot(&self, user: u32, slot: u32) -> UnstakeRequest {
        *self.slots.get(&(user, slot)).unwrap_or(&UnstakeRequest { amount: 0, timestamp: 0 })
    }

    fn stake(&mut self, amount: i128) -> Result<(), PumpBTCStakingError> {
        self.contract.stake(amount).map(|_| ())
    }

    fn unstake_request(&mut self, user: u32, amount: i128) -> Result<u32, PumpBTCStakingError> {
        let slot = get_date_slot(self.now);
        let mut request = self.slot(user, slot);
        let r = self.contract.unstake_request(&mut request, self.now, amount);
        self.slots.insert((user, slot), request);
        r
    }

    fn claim_slot(&mut self, user: u32, slot: u32) -> Result<(), PumpBTCStakingError> {
        let mut request = self.slot(user, slot);
        let r = self.contract.claim_slot(&mut request, self.now);
        self.slots.insert((user, slot), request);
        r.map(|_| ())
    }

    fn claim_all(&mut self, user: u32) -> Result<(), PumpBTCStakingError> {
        let mut slots: Vec<UnstakeRequest> = (0..10u32).map(|i| self.slot(user, i)).collect();
        let r = self.contract.claim_all(&mut slots, self.now);
        for (i, s) in slots.into_iter().enumerate() {
            self.slots.insert((user, i as u32), s);
        }
        r.map(|_| ())
    }

    fn get_pending_unstake_amount(&self, user: u32, slot: u32) -> i128 {
        self.slot(user, slot).amount
    }
}

// ---------------------------------------------------------------- initialize

#[test]
fn test_test_initialize() {
    let test = Harness::setup_initialized();
    assert_eq!(PUMP_TOKEN, *test.contract.get_pump_token());
    assert_eq!(ASSET_TOKEN, *test.contract.get_asset_token());
    assert_eq!(8u32, test.contract.get_asset_decimal());
    assert_eq!(100i128, test.contract.get_normal_unstake_fee());
    assert_eq!(500i128, test.contract.get_instant_unstake_fee());
    assert_eq!(true, test.contract.get_only_allow_stake());
}

#[test]
fn test_initialize_test_initialize() {
    let test = Harness::setup_initialized();
    assert_eq!(PUMP_TOKEN, *test.contract.get_pump_token());
    assert_eq!(ASSET_TOKEN, *test.contract.get_asset_token());
    assert_eq!(8u32, test.contract.get_asset_decimal());
    assert_eq!(100i128, test.contract.get_normal_unstake_fee());
    assert_eq!(500i128, test.contract.get_instant_unstake_fee());
    assert_eq!(true, test.contract.get_only_allow_stake());
}

#[test]
fn test_test_initialize_twice() {
    let mut test = Harness::setup_initialized();
    let r = test.contract.initialize(ADMIN, PUMP_TOKEN, ASSET_TOKEN, 8);
    assert_eq!(r, Err(PumpBTCStakingError::AlreadyInitialized));
}

#[test]
fn test_initialize_test_initialize_twice() {
    let mut test = Harness::setup_initialized();
    let r = test.contract.initialize(ADMIN, PUMP_TOKEN, ASSET_TOKEN, 8);
    assert_eq!(r, Err(PumpBTCStakingError::AlreadyInitialized));
}

// ---------------------------------------------------------------- admin

#[test]
fn test_test_transfer_admin() {
    let mut test = Harness::setup_initialized();
    test.contract.transfer_admin(NEW_ADMIN);
    assert_eq!(&Some(NEW_ADMIN), test.contract.get_pending_admin());
    test.contract.accept_admin().unwrap();
    assert_eq!(&None, test.contract.get_pending_admin());
}

#[test]
fn test_admin_function_test_transfer_admin() {
    let mut test = Harness::setup_initialized();
    test.contract.transfer_admin(NEW_ADMIN);
    assert_eq!(&Some(NEW_ADMIN), test.contract.get_pending_admin());
    test.contract.accept_admin().unwrap();
    assert_eq!(&None, test.contract.get_pending_admin());
}

#[test]
fn test_admin_function_test_renounce_admin() {
    let mut test = Harness::setup_initialized();
    test.contract.renounce_admin();
    assert_eq!(&None, test.contract.get_pending_admin());
}

#[test]
fn test_test_pause_unpause() {
    let mut test = Harness::setup_initialized();
    assert_eq!(false, test.contract.is_paused());
    test.contract.pause().unwrap();
    assert_eq!(true, test.contract.is_paused());
    let stake_amount = 100_000_000i128;
    assert_eq!(test.stake(stake_amount), Err(PumpBTCStakingError::ContractIsPaused));
}

#[test]
fn test_admin_function_test_pause_unpause() {
    let mut test = Harness::setup_initialized();
    assert_eq!(false, test.contract.is_paused());
    test.contract.pause().unwrap();
    assert_eq!(true, test.contract.is_paused());
    assert_eq!(test.stake(STAKING_AMOUNT), Err(PumpBTCStakingError::ContractIsPaused));
    test.contract.unpause().unwrap();
    assert_eq!(false, test.contract.is_paused());
    test.stake(STAKING_AMOUNT).unwrap();
    assert_eq!(STAKING_AMOUNT, test.contract.get_pending_stake_amount());
}

#[test]
fn test_test_set_stake_asset_cap() {
    let mut test = Harness::setup_initialized();
    let new_cap = 1_000_000_000_000_000_000i128;
    test.contract.set_stake_asset_cap(new_cap).unwrap();
    assert_eq!(new_cap, test.contract.get_total_staking_cap());
}

#[test]
fn test_admin_function_test_set_stake_asset_cap() {
    let mut test = Harness::setup_initialized();
    assert_eq!(10_000_000_000i128, test.contract.get_total_staking_cap());
    let new_cap = 50_000_000_000i128;
    test.contract.set_stake_asset_cap(new_cap).unwrap();
    assert_eq!(new_cap, test.contract.get_total_staking_cap());
}

#[test]
fn test_test_set_normal_unstake_fee() {
    let mut test = Harness::setup_initialized();
    let new_fee = 100i128;
    test.contract.set_normal_unstake_fee(new_fee).unwrap();
    assert_eq!(new_fee, test.contract.get_normal_unstake_fee());
}

#[test]
fn test_admin_function_test_set_normal_unstake_fee() {
    let mut test = Harness::setup_initialized();
    assert_eq!(100i128, test.contract.get_normal_unstake_fee());
    let new_fee = 500i128;
    test.contract.set_normal_unstake_fee(new_fee).unwrap();
    assert_eq!(new_fee, test.contract.get_normal_unstake_fee());
}

#[test]
fn test_test_set_instant_unstake_fee() {
    let mut test = Harness::setup_initialized();
    let new_fee = 500i128;
    test.contract.set_instant_unstake_fee(new_fee).unwrap();
    assert_eq!(new_fee, test.contract.get_instant_unstake_fee());
}

#[test]
fn test_admin_function_test_set_instant_unstake_fee() {
    let mut test = Harness::setup_initialized();
    assert_eq!(500i128, test.contract.get_instant_unstake_fee());
    let new_fee = 1000i128;
    test.contract.set_instant_unstake_fee(new_fee).unwrap();
    assert_eq!(new_fee, test.contract.get_instant_unstake_fee());
}

#[test]
fn test_test_set_operator() {
    let mut test = Harness::setup_initialized();
    test.contract.set_operator(OPERATOR);
    assert_eq!(&Some(OPERATOR), test.contract.get_operator());
}

#[test]
fn test_admin_function_test_set_operator() {
    let mut test = Harness::setup_initialized();
    assert_eq!(&Some(OPERATOR), test.contract.get_operator());
    let new_operator = 42u32;
    test.contract.set_operator(new_operator);
    assert_eq!(&Some(new_operator), test.contract.get_operator());
}

#[test]
fn test_test_set_only_allow_stake() {
    let mut test = Harness::setup_initialized();
    test.contract.set_only_allow_stake(false);
    assert_eq!(false, test.contract.get_only_allow_stake());
}

#[test]
fn test_admin_function_test_set_only_allow_stake() {
    let mut test = Harness::setup_initialized();
    assert_eq!(true, test.contract.get_only_allow_stake());
    test.contract.set_only_allow_stake(false);
    assert_eq!(false, test.contract.get_only_allow_stake());
}

// ---------------------------------------------------------------- operator

#[test]
fn test_test_deposit() {
    let mut test = Harness::setup_initialized();
    let deposit_amount = 1_000_000_000i128;
    test.contract.set_operator(OPERATOR);
    test.contract.deposit(deposit_amount).unwrap();
    assert_eq!(deposit_amount, test.contract.get_total_claimable_amount());
}

#[test]
fn test_admin_function_test_deposit() {
    let mut test = Harness::setup_initialized();
    test.contract.deposit(DEPOSIT_AMOUNT).unwrap();
    assert_eq!(DEPOSIT_AMOUNT, test.contract.get_total_claimable_amount());
}

#[test]
fn test_test_withdraw() {
    let mut test = Harness::setup_initialized();
    let stake_amount = 1_000_000_000i128;
    test.contract.set_stake_asset_cap(10_000_000_000i128).unwrap();
    test.contract.set_operator(OPERATOR);
    test.stake(stake_amount).unwrap();
    assert_eq!(stake_amount, test.contract.get_pending_stake_amount());
    test.contract.withdraw().unwrap();
    assert_eq!(0i128, test.contract.get_pending_stake_amount());
}

#[test]
fn test_admin_function_test_withdraw() {
    let mut test = Harness::setup_initialized();
    test.stake(STAKING_AMOUNT).unwrap();
    assert_eq!(STAKING_AMOUNT, test.contract.get_pending_stake_amount());
    test.contract.withdraw().unwrap();
    assert_eq!(0i128, test.contract.get_pending_stake_amount());
}

#[test]
fn test_test_withdraw_and_deposit() {
    let mut test = Harness::setup_initialized();
    let initial_amount = 1_000_000_000i128;
    let new_deposit_amount = 2_000_000_000i128;
    test.contract.set_operator(OPERATOR);
    test.contract.deposit(initial_amount).unwrap();
    assert_eq!(initial_amount, test.contract.get_total_claimable_amount());
    test.contract.withdraw_and_deposit(new_deposit_amount).unwrap();
    assert_eq!(initial_amount + new_deposit_amount, test.contract.get_total_claimable_amount());
}

#[test]
fn test_admin_function_test_withdraw_and_deposit() {
    let mut test = Harness::setup_initialized();
    test.contract.deposit(DEPOSIT_AMOUNT).unwrap();
    assert_eq!(DEPOSIT_AMOUNT, test.contract.get_total_claimable_amount());
    test.contract.withdraw_and_deposit(DEPOSIT_AMOUNT).unwrap();
    assert_eq!(DEPOSIT_AMOUNT + DEPOSIT_AMOUNT, test.contract.get_total_claimable_amount());
}

#[test]
fn test_test_withdraw_without_pending_amount() {
    let mut test = Harness::setup_initialized();
    test.contract.set_operator(OPERATOR);
    assert_eq!(test.contract.withdraw(), Err(PumpBTCStakingError::NoPendingStakeAmount));
}

#[test]
fn test_pumpbtc_staking_test_withdraw_without_pending_amount() {
    let mut test = Harness::setup_initialized();
    assert_eq!(test.contract.withdraw(), Err(PumpBTCStakingError::NoPendingStakeAmount));
}

// ---------------------------------------------------------------- users

#[test]
fn test_test_stake() {
    let mut test = Harness::setup_initialized();
    let stake_amount = 100_000_000i128;
    test.contract.set_stake_asset_cap(10_000_000_000i128).unwrap();
    test.stake(stake_amount).unwrap();
    assert_eq!(stake_amount, test.contract.get_total_staking_amount());
}

#[test]
fn test_pumpbtc_staking_test_stake() {
    let mut test = Harness::setup_initialized();
    test.stake(STAKING_AMOUNT).unwrap();
    assert_eq!(STAKING_AMOUNT, test.contract.get_total_staking_amount());
}

#[test]
fn test_test_unstake_request() {
    let mut test = Harness::setup_initialized();
    let stake_amount = 100_000_000i128;
    let unstake_amount = 50_000_000i128;
    test.contract.set_stake_asset_cap(10_000_000_000i128).unwrap();
    test.contract.set_operator(OPERATOR);
    test.contract.deposit(stake_amount).unwrap();
    test.stake(stake_amount).unwrap();
    test.contract.set_only_allow_stake(false);
    test.unstake_request(USER1, unstake_amount).unwrap();
    assert_eq!(unstake_amount, test.contract.get_total_requested_amount());
}

#[test]
fn test_pumpbtc_staking_test_unstake_request() {
    let mut test = Harness::setup_initialized();
    test.stake(STAKING_AMOUNT).unwrap();
    test.contract.set_only_allow_stake(false);
    test.unstake_request(USER1, STAKING_AMOUNT).unwrap();
    assert_eq!(STAKING_AMOUNT, test.contract.get_total_requested_amount());
}

#[test]
fn test_test_unstake_instant() {
    let mut test = Harness::setup_initialized();
    let stake_amount = 100_000_000i128;
    let unstake_amount = 50_000_000i128;
    test.contract.set_stake_asset_cap(10_000_000_000i128).unwrap();
    test.contract.set_operator(OPERATOR);
    let total_deposit = stake_amount + unstake_amount;
    test.contract.deposit(total_deposit).unwrap();
    test.stake(stake_amount).unwrap();
    test.contract.set_only_allow_stake(false);
    test.contract.unstake_instant(unstake_amount).unwrap();
    assert_eq!(stake_amount - unstake_amount, test.contract.get_total_staking_amount());
}

#[test]
fn test_pumpbtc_staking_test_unstake_instant() {
    let mut test = Harness::setup_initialized();
    test.stake(STAKING_AMOUNT).unwrap();
    test.contract.set_only_allow_stake(false);
    test.contract.unstake_instant(STAKING_AMOUNT).unwrap();
    assert_eq!(0i128, test.contract.get_total_staking_amount());
}

#[test]
fn test_test_collect_fee() {
    let mut test = Harness::setup_initialized();
    let stake_amount = 100_000_000i128;
    let unstake_amount = 50_000_000i128;
    test.contract.set_instant_unstake_fee(500).unwrap();
    test.contract.set_stake_asset_cap(10_000_000_000i128).unwrap();
    test.contract.set_operator(OPERATOR);
    test.stake(stake_amount).unwrap();
    test.contract.set_only_allow_stake(false);
    test.contract.unstake_instant(unstake_amount).unwrap();
    let expected_fee = unstake_amount * 500 / 10000;
    assert_eq!(expected_fee, test.contract.get_collected_fee());
    test.contract.collect_fee().unwrap();
    assert_eq!(0i128, test.contract.get_collected_fee());
}

#[test]
fn test_pumpbtc_staking_test_collect_fee() {
    let mut test = Harness::setup_initialized();
    test.stake(STAKING_AMOUNT).unwrap();
    test.contract.set_only_allow_stake(false);
    test.contract.unstake_instant(STAKING_AMOUNT).unwrap();
    assert_eq!(0i128, test.contract.get_total_staking_amount());
    assert_eq!(STAKING_AMOUNT * 500 / 10000, test.contract.get_collected_fee());
    test.contract.collect_fee().unwrap();
    assert_eq!(0i128, test.contract.get_collected_fee());
}

#[test]
fn test_pumpbtc_staking_test_claim_slot() {
    let mut test = Harness::setup_initialized();
    test.stake(STAKING_AMOUNT).unwrap();
    test.contract.set_only_allow_stake(false);
    test.unstake_request(USER1, STAKING_AMOUNT).unwrap();
    let slot = test.now as u32;
    let pending_amount = test.get_pending_unstake_amount(USER1, slot);
    assert_eq!(STAKING_AMOUNT, pending_amount);
    test.now = test.now + 9 * 24 * 60 * 60;
    test.claim_slot(USER1, slot).unwrap();
    assert_eq!(0i128, test.contract.get_total_staking_amount());
    assert_eq!(0i128, test.contract.get_total_requested_amount());
    assert_eq!(0i128, test.get_pending_unstake_amount(USER1, slot));
}

#[test]
fn test_pumpbtc_staking_test_claim_all() {
    let mut test = Harness::setup_initialized();
    test.stake(STAKING_AMOUNT).unwrap();
    test.contract.set_only_allow_stake(false);
    test.unstake_request(USER1, STAKING_AMOUNT).unwrap();
    test.now = test.now + 9 * 24 * 60 * 60;
    test.claim_all(USER1).unwrap();
    assert_eq!(0i128, test.contract.get_total_requested_amount());
}

#[test]
fn test_multiple_users_stake_and_unstake() {
    let mut test = Harness::setup_initialized();
    let stake_amount = 100_000_000i128;
    test.contract.set_stake_asset_cap(10_000_000_000i128).unwrap();
    test.contract.set_operator(OPERATOR);
    let total_deposit = stake_amount * 2;
    test.contract.deposit(total_deposit).unwrap();
    test.stake(stake_amount).unwrap();
    test.stake(stake_amount).unwrap();
    assert_eq!(stake_amount * 2, test.contract.get_total_staking_amount());
    test.contract.set_only_allow_stake(false);
    let unstake_amount = 50_000_000i128;
    test.unstake_request(USER1, unstake_amount).unwrap();
    assert_eq!(unstake_amount, test.contract.get_total_requested_amount());
    assert_eq!(stake_amount * 2 - unstake_amount, test.contract.get_total_staking_amount());
}

#[test]
fn test_getter_function_test_getter_functions() {
    let test = Harness::setup_initialized();
    assert_eq!(PUMP_TOKEN, *test.contract.get_pump_token());
    assert_eq!(ASSET_TOKEN, *test.contract.get_asset_token());
    assert_eq!(8u32, test.contract.get_asset_decimal());
    assert_eq!(0i128, test.contract.get_total_staking_amount());
    assert_eq!(100_000_000_00i128, test.contract.get_total_staking_cap());
    assert_eq!(0i128, test.contract.get_total_requested_amount());
    assert_eq!(0i128, test.contract.get_total_claimable_amount());
    assert_eq!(0i128, test.contract.get_pending_stake_amount());
    assert_eq!(0i128, test.contract.get_collected_fee());
    assert_eq!(&Some(OPERATOR), test.contract.get_operator());
    assert_eq!(100i128, test.contract.get_normal_unstake_fee());
    assert_eq!(500i128, test.contract.get_instant_unstake_fee());
    assert_eq!(true, test.contract.get_only_allow_stake());
    assert_eq!(false, test.contract.is_paused());
}

// ---------------------------------------------------------------- refusals

#[test]
fn test_test_stake_exceeds_cap() {
    let mut test = Harness::setup_initialized();
    let stake_amount = 200_000_000i128;
    let cap = 100_000_000i128;
    test.contract.set_stake_asset_cap(cap).unwrap();
    test.contract.set_operator(OPERATOR);
    test.contract.deposit(stake_amount).unwrap();
    assert_eq!(test.stake(stake_amount), Err(PumpBTCStakingError::ExceedStakingCap));
}

#[test]
fn test_pumpbtc_staking_test_stake_exceeds_cap() {
    let mut test = Harness::setup_initialized();
    let stake_amount = STAKING_AMOUNT * 100000 as i128;
    assert_eq!(test.stake(stake_amount), Err(PumpBTCStakingError::ExceedStakingCap));
}

#[test]
fn test_test_unstake_when_only_allow_stake() {
    let mut test = Harness::setup_initialized();
    let stake_amount = 100_000_000i128;
    let unstake_amount = 50_000_000i128;
    test.contract.set_stake_asset_cap(10_000_000_000i128).unwrap();
    test.contract.set_operator(OPERATOR);
    test.contract.deposit(stake_amount).unwrap();
    test.stake(stake_amount).unwrap();
    assert_eq!(
        test.unstake_request(USER1, unstake_amount),
        Err(PumpBTCStakingError::OnlyAllowStakeAtFirst)
    );
}

#[test]
fn test_pumpbtc_staking_test_unstake_when_only_allow_stake() {
    let mut test = Harness::setup_initialized();
    test.stake(STAKING_AMOUNT).unwrap();
    assert_eq!(
        test.unstake_request(USER1, STAKING_AMOUNT),
        Err(PumpBTCStakingError::OnlyAllowStakeAtFirst)
    );
}

#[test]
fn test_test_collect_fee_without_fee() {
    let mut test = Harness::setup_initialized();
    assert_eq!(test.contract.collect_fee(), Err(PumpBTCStakingError::NoFeeToCollect));
}

#[test]
fn test_pumpbtc_staking_test_collect_fee_without_fee() {
    let mut test = Harness::setup_initialized();
    assert_eq!(test.contract.collect_fee(), Err(PumpBTCStakingError::NoFeeToCollect));
}

#[test]
fn test_test_set_invalid_fee() {
    let mut test = Harness::setup_initialized();
    assert_eq!(
        test.contract.set_instant_unstake_fee(10001),
        Err(PumpBTCStakingError::FeeShouldBeBetween0And10000)
    );
}

#[test]
fn test_pumpbtc_staking_test_set_invalid_fee() {
    let mut test = Harness::setup_initialized();
    assert_eq!(
        test.contract.set_instant_unstake_fee(10001),
        Err(PumpBTCStakingError::FeeShouldBeBetween0And10000)
    );
}

#[test]
fn test_test_claim_slot_too_early() {
    let mut test = Harness::setup_initialized();
    let stake_amount = 100_000_000i128;
    let unstake_amount = 50_000_000i128;
    test.contract.set_stake_asset_cap(10_000_000_000i128).unwrap();
    test.contract.set_operator(OPERATOR);
    let total_deposit = stake_amount + unstake_amount;
    test.contract.deposit(total_deposit).unwrap();
    test.stake(stake_amount).unwrap();
    test.contract.set_only_allow_stake(false);
    test.unstake_request(USER1, unstake_amount).unwrap();
    let slot = PumpBTCStaking::<u32>::get_max_date_slot();
    assert!(test.claim_slot(USER1, slot).is_err());
}

#[test]
fn test_pumpbtc_staking_test_claim_slot_too_early() {
    let mut test = Harness::setup_initialized();
    test.stake(STAKING_AMOUNT).unwrap();
    test.contract.set_only_allow_stake(false);
    test.unstake_request(USER1, STAKING_AMOUNT).unwrap();
    let slot = test.now as u32;
    assert_eq!(test.claim_slot(USER1, slot), Err(PumpBTCStakingError::NotReachedClaimableTime));
}

#[test]
fn test_test_pause_when_already_paused() {
    let mut test = Harness::setup_initialized();
    test.contract.pause().unwrap();
    assert_eq!(test.contract.pause(), Err(PumpBTCStakingError::ContractIsPaused));
}

#[test]
fn test_pumpbtc_staking_test_pause_when_already_paused() {
    let mut test = Harness::setup_initialized();
    assert_eq!(test.contract.pause(), Ok(()));
    assert_eq!(test.contract.pause(), Err(PumpBTCStakingError::ContractIsPaused));
}

#[test]
fn test_test_unpause_when_not_paused() {
    let mut test = Harness::setup_initialized();
    assert_eq!(test.contract.unpause(), Err(PumpBTCStakingError::ContractIsNotPaused));
}

#[test]
fn test_pumpbtc_staking_test_unpause_when_not_paused() {
    let mut test = Harness::setup_initialized();
    assert_eq!(test.contract.unpause(), Err(PumpBTCStakingError::ContractIsNotPaused));
}

// ---------------------------------------------------------------- further cases

#[test]
fn claim_all_takes_only_slots_past_the_delay() {
    let mut test = Harness::setup_initialized();
    test.stake(STAKING_AMOUNT).unwrap();
    test.contract.set_only_allow_stake(false);
    test.unstake_request(USER1, 30_000_000).unwrap();
    test.now += DAY;
    test.unstake_request(USER1, 20_000_000).unwrap();
    test.now += 8 * DAY;
    test.contract.deposit(50_000_000).unwrap();
    test.claim_all(USER1).unwrap();
    assert_eq!(20_000_000, test.contract.get_total_requested_amount());
    assert_eq!(0, test.get_pending_unstake_amount(USER1, 0));
    assert_eq!(20_000_000, test.get_pending_unstake_amount(USER1, 1));
    // 1% of 30_000_000
    assert_eq!(300_000, test.contract.get_collected_fee());
    assert_eq!(20_000_000, test.contract.get_total_claimable_amount());
    // Nothing left to claim at this moment.
    assert_eq!(test.claim_all(USER1), Err(PumpBTCStakingError::NegativeAmountNotAllowed));
    test.now += DAY;
    test.claim_all(USER1).unwrap();
    assert_eq!(0, test.contract.get_total_requested_amount());
}

#[test]
fn second_request_in_a_slot_within_a_day_is_refused() {
    let mut test = Harness::setup_initialized();
    test.stake(STAKING_AMOUNT).unwrap();
    test.contract.set_only_allow_stake(false);
    test.unstake_request(USER1, 10).unwrap();
    assert_eq!(
        test.unstake_request(USER1, 10),
        Err(PumpBTCStakingError::ClaimPreviousUnstakeFirst)
    );
    // Another user is not affected.
    test.unstake_request(USER2, 10).unwrap();
    assert_eq!(20, test.contract.get_total_requested_amount());
}

#[test]
fn claim_with_zero_normal_fee_pays_in_full() {
    let mut test = Harness::setup_initialized();
    test.contract.set_normal_unstake_fee(0).unwrap();
    test.stake(STAKING_AMOUNT).unwrap();
    test.contract.set_only_allow_stake(false);
    test.unstake_request(USER1, STAKING_AMOUNT).unwrap();
    test.contract.deposit(STAKING_AMOUNT).unwrap();
    test.now += 9 * DAY;
    let mut request = test.slot(USER1, 0);
    let payout = test.contract.claim_slot(&mut request, test.now).unwrap();
    assert_eq!(payout.amount, STAKING_AMOUNT);
    assert_eq!(payout.fee, 0);
    assert_eq!(payout.paid.amount, STAKING_AMOUNT);
    assert_eq!(payout.paid.asset_amount, STAKING_AMOUNT);
    assert_eq!(request.amount, 0);
    assert_eq!(0, test.contract.get_total_requested_amount());
    assert_eq!(0, test.contract.get_total_claimable_amount());
    assert_eq!(0, test.contract.get_collected_fee());
}

#[test]
fn claim_of_an_empty_slot_is_refused() {
    let mut test = Harness::setup_initialized();
    test.contract.set_only_allow_stake(false);
    test.now += 20 * DAY;
    assert_eq!(test.claim_slot(USER1, 3), Err(PumpBTCStakingError::NegativeAmountNotAllowed));
}

#[test]
fn paused_contract_refuses_operator_and_fee_moves() {
    let mut test = Harness::setup_initialized();
    test.stake(STAKING_AMOUNT).unwrap();
    test.contract.pause().unwrap();
    assert_eq!(test.contract.withdraw(), Err(PumpBTCStakingError::ContractIsPaused));
    assert_eq!(test.contract.deposit(50), Err(PumpBTCStakingError::ContractIsPaused));
    assert_eq!(
        test.contract.withdraw_and_deposit(50),
        Err(PumpBTCStakingError::ContractIsPaused)
    );
    assert_eq!(test.contract.collect_fee(), Err(PumpBTCStakingError::ContractIsPaused));
    assert_eq!(STAKING_AMOUNT, test.contract.get_pending_stake_amount());
    // Settings stay open while paused.
    test.contract.set_normal_unstake_fee(200).unwrap();
    test.contract.unpause().unwrap();
    test.contract.withdraw().unwrap();
    assert_eq!(0, test.contract.get_pending_stake_amount());
}

#[test]
fn claim_slot_pays_amount_less_fee() {
    let mut test = Harness::setup_initialized();
    test.stake(STAKING_AMOUNT).unwrap();
    test.contract.set_only_allow_stake(false);
    test.unstake_request(USER1, STAKING_AMOUNT).unwrap();
    test.now += 9 * DAY;
    let mut request = test.slot(USER1, 0);
    let payout = test.contract.claim_slot(&mut request, test.now).unwrap();
    assert_eq!(payout.amount, STAKING_AMOUNT);
    assert_eq!(payout.fee, 1_000_000);
    assert_eq!(payout.paid.amount, 99_000_000);
    assert_eq!(payout.paid.asset_amount, 99_000_000);
    assert_eq!(request.amount, 0);
}

#[test]
fn unstake_instant_beyond_pending_is_refused() {
    let mut test = Harness::setup_initialized();
    test.stake(STAKING_AMOUNT).unwrap();
    test.contract.set_only_allow_stake(false);
    test.contract.withdraw().unwrap();
    assert_eq!(
        test.contract.unstake_instant(1),
        Err(PumpBTCStakingError::InsufficientPendingStakeAmount)
    );
    assert_eq!(test.contract.unstake_instant(0), Err(PumpBTCStakingError::NegativeAmountNotAllowed));
}

#[test]
fn operator_calls_without_operator_are_refused() {
    let mut test = Harness::setup();
    test.contract.initialize(ADMIN, PUMP_TOKEN, ASSET_TOKEN, 8).unwrap();
    assert_eq!(test.contract.withdraw(), Err(PumpBTCStakingError::NoOperatorSet));
    assert_eq!(test.contract.deposit(DEPOSIT_AMOUNT), Err(PumpBTCStakingError::NoOperatorSet));
    assert_eq!(
        test.contract.withdraw_and_deposit(DEPOSIT_AMOUNT),
        Err(PumpBTCStakingError::NoOperatorSet)
    );
    assert_eq!(test.contract.get_total_claimable_amount(), 0);
}

#[test]
fn withdraw_and_deposit_settles_the_difference() {
    let mut test = Harness::setup_initialized();
    test.stake(300).unwrap();
    let r = test.contract.withdraw_and_deposit(100).unwrap();
    assert_eq!(r.withdrawn, 300);
    assert_eq!(r.deposited, 100);
    match r.settlement {
        OperatorSettlement::PayOperator(t) => assert_eq!(t.amount, 200),
        _ => panic!("operator should be paid"),
    }
    test.stake(100).unwrap();
    let r = test.contract.withdraw_and_deposit(250).unwrap();
    match r.settlement {
        OperatorSettlement::CollectFromOperator(t) => assert_eq!(t.amount, 150),
        _ => panic!("operator should pay"),
    }
    test.stake(40).unwrap();
    let r = test.contract.withdraw_and_deposit(40).unwrap();
    assert_eq!(r.settlement, OperatorSettlement::Balanced);
    assert_eq!(test.contract.get_pending_stake_amount(), 0);
    assert_eq!(test.contract.get_total_claimable_amount(), 390);
}

#[test]
fn cap_and_fee_setters_refuse_bad_values() {
    let mut test = Harness::setup_initialized();
    test.stake(STAKING_AMOUNT).unwrap();
    assert_eq!(
        test.contract.set_stake_asset_cap(STAKING_AMOUNT - 1),
        Err(PumpBTCStakingError::StakingCapTooSmall)
    );
    assert_eq!(test.contract.set_stake_asset_cap(0), Err(PumpBTCStakingError::NegativeAmountNotAllowed));
    let ev = test.contract.set_stake_asset_cap(STAKING_AMOUNT).unwrap();
    assert_eq!(ev.old_total_staking_cap, 10_000_000_000);
    assert_eq!(ev.new_total_staking_cap, STAKING_AMOUNT);
    assert_eq!(
        test.contract.set_normal_unstake_fee(-1),
        Err(PumpBTCStakingError::FeeShouldBeBetween0And10000)
    );
    assert_eq!(
        test.contract.set_normal_unstake_fee(10000),
        Err(PumpBTCStakingError::FeeShouldBeBetween0And10000)
    );
    let ev = test.contract.set_normal_unstake_fee(9999).unwrap();
    assert_eq!(ev.old_normal_unstake_fee, 100);
}

#[test]
fn fresh_contract_defaults() {
    let mut test = Harness::setup();
    assert_eq!(test.contract.get_instant_unstake_fee(), 300);
    assert_eq!(test.contract.get_normal_unstake_fee(), 0);
    assert!(test.contract.get_only_allow_stake());
    assert!(!test.contract.is_paused());
    assert_eq!(test.contract.accept_admin(), Err(PumpBTCStakingError::NoPendingAdminTransfer));
    test.contract.initialize(ADMIN, PUMP_TOKEN, ASSET_TOKEN, 10).unwrap();
    assert_eq!(test.contract.get_instant_unstake_fee(), 300);
    assert_eq!(test.contract.get_asset_decimal(), 10);
    test.contract.set_stake_asset_cap(1000).unwrap();
    // Amounts move in the asset's own decimals: 10 decimals here.
    let t = test.contract.stake(7).unwrap();
    assert_eq!(t.amount, 7);
    assert_eq!(t.asset_amount, 700);
}

#[test]
fn admin_handover_returns_previous_admin() {
    let mut test = Harness::setup_initialized();
    test.contract.transfer_admin(NEW_ADMIN);
    test.contract.transfer_admin(USER1);
    assert_eq!(test.contract.accept_admin(), Ok(ADMIN));
    assert_eq!(test.contract.admin, Some(USER1));
    assert_eq!(test.contract.accept_admin(), Err(PumpBTCStakingError::NoPendingAdminTransfer));
}
