use pumpbtc::error::PumpBTCStakingError;
use pumpbtc::math::{adjust_amount, check_nonnegative_amount, safe_add, safe_div, safe_mul, safe_sub};
use pumpbtc::staking::fee_in_basis_points;
use pumpbtc::utils::{check_unstake_allowed, get_date_slot};

#[test]
fn check_nonnegative_amount_refuses_zero_and_below() {
    assert_eq!(check_nonnegative_amount(1), Ok(()));
    assert_eq!(check_nonnegative_amount(0), Err(PumpBTCStakingError::NegativeAmountNotAllowed));
    assert_eq!(check_nonnegative_amount(-5), Err(PumpBTCStakingError::NegativeAmountNotAllowed));
}

#[test]
fn safe_arithmetic_reports_overflow() {
    assert_eq!(safe_add(2, 3), Ok(5));
    assert_eq!(safe_add(i128::MAX, 1), Err(PumpBTCStakingError::MathOverflow));
    assert_eq!(safe_sub(2, 3), Ok(-1));
    assert_eq!(safe_sub(i128::MIN, 1), Err(PumpBTCStakingError::MathOverflow));
    assert_eq!(safe_mul(-4, 5), Ok(-20));
    assert_eq!(safe_mul(i128::MAX, 2), Err(PumpBTCStakingError::MathOverflow));
    assert_eq!(safe_div(7, 2), Ok(3));
    assert_eq!(safe_div(-7, 2), Ok(-3));
    assert_eq!(safe_div(7, 0), Err(PumpBTCStakingError::MathOverflow));
    assert_eq!(safe_div(i128::MIN, -1), Err(PumpBTCStakingError::MathOverflow));
}

#[test]
fn adjust_amount_scales_to_asset_decimals() {
    assert_eq!(adjust_amount(8, 123), Ok(123));
    assert_eq!(adjust_amount(18, 5), Ok(50_000_000_000));
    assert_eq!(adjust_amount(46, 1), Ok(100_000_000_000_000_000_000_000_000_000_000_000_000));
    assert_eq!(adjust_amount(46, 2), Err(PumpBTCStakingError::MathOverflow));
    assert_eq!(adjust_amount(9, -3), Ok(-30));
}

#[test]
fn date_slots_follow_the_days_in_utc_plus_eight() {
    assert_eq!(get_date_slot(0), 0);
    // 16:00 UTC is midnight in UTC+8.
    assert_eq!(get_date_slot(57_599), 0);
    assert_eq!(get_date_slot(57_600), 1);
    assert_eq!(get_date_slot(86_400), 1);
    assert_eq!(get_date_slot(9 * 86_400), 9);
    assert_eq!(get_date_slot(10 * 86_400), 0);
    assert!(get_date_slot(u64::MAX) < 10);
}

#[test]
fn unstaking_waits_for_the_stake_only_phase_to_end() {
    assert_eq!(check_unstake_allowed(true), Err(PumpBTCStakingError::OnlyAllowStakeAtFirst));
    assert_eq!(check_unstake_allowed(false), Ok(()));
}

#[test]
fn fees_round_toward_zero() {
    assert_eq!(fee_in_basis_points(50_000_000, 500), 2_500_000);
    assert_eq!(fee_in_basis_points(9_999, 1), 0);
    assert_eq!(fee_in_basis_points(-20_000, 1), -2);
    assert_eq!(fee_in_basis_points(-9_999, 1), 0);
}
