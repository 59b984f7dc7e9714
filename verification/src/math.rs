use vstd::prelude::*;

use crate::error::PumpBTCStakingError;

verus! {

/// Number of decimals in which the staking contract keeps every amount.
pub const INTERNAL_DECIMALS: u32 = 8;

/// `10` raised to `n`.
pub open spec fn pow10(n: nat) -> int
    decreases n,
{
    if n == 0 {
        1
    } else {
        10 * pow10((n - 1) as nat)
    }
}

/// The integers that an `i128` holds.
pub open spec fn fits_i128(x: int) -> bool {
    i128::MIN <= x <= i128::MAX
}

/// Rust's integer division, which rounds toward zero.
pub open spec fn div_toward_zero(x: int, d: int) -> int
    recommends
        d != 0,
{
    if x >= 0 {
        if d > 0 { x / d } else { -(x / (-d)) }
    } else {
        if d > 0 { -((-x) / d) } else { (-x) / (-d) }
    }
}

/// Accepts strictly positive amounts; zero and below are refused.
pub fn check_nonnegative_amount(amount: i128) -> (r: Result<(), PumpBTCStakingError>)
    ensures
        r is Ok <==> amount > 0,
        r is Err ==> r == Err::<(), _>(PumpBTCStakingError::NegativeAmountNotAllowed),
{
    if amount <= 0 {
        return Err(PumpBTCStakingError::NegativeAmountNotAllowed);
    }
    Ok(())
}

/// `a * b`, or `MathOverflow` where the product leaves `i128`.
pub fn safe_mul(a: i128, b: i128) -> (r: Result<i128, PumpBTCStakingError>)
    ensures
        fits_i128(a * b) ==> r == Ok::<i128, PumpBTCStakingError>((a * b) as i128),
        !fits_i128(a * b) ==> r == Err::<i128, _>(PumpBTCStakingError::MathOverflow),
{
    a.checked_mul(b).ok_or(PumpBTCStakingError::MathOverflow)
}

/// `a + b`, or `MathOverflow` where the sum leaves `i128`.
pub fn safe_add(a: i128, b: i128) -> (r: Result<i128, PumpBTCStakingError>)
    ensures
        fits_i128(a + b) ==> r == Ok::<i128, PumpBTCStakingError>((a + b) as i128),
        !fits_i128(a + b) ==> r == Err::<i128, _>(PumpBTCStakingError::MathOverflow),
{
    a.checked_add(b).ok_or(PumpBTCStakingError::MathOverflow)
}

/// `a - b`, or `MathOverflow` where the difference leaves `i128`.
pub fn safe_sub(a: i128, b: i128) -> (r: Result<i128, PumpBTCStakingError>)
    ensures
        fits_i128(a - b) ==> r == Ok::<i128, PumpBTCStakingError>((a - b) as i128),
        !fits_i128(a - b) ==> r == Err::<i128, _>(PumpBTCStakingError::MathOverflow),
{
    a.checked_sub(b).ok_or(PumpBTCStakingError::MathOverflow)
}

/// `a / b` rounded toward zero, or `MathOverflow` where `b` is zero or the
/// quotient leaves `i128` (`i128::MIN / -1`).
pub fn safe_div(a: i128, b: i128) -> (r: Result<i128, PumpBTCStakingError>)
    ensures
        b != 0 && fits_i128(div_toward_zero(a as int, b as int)) ==> r == Ok::<i128, PumpBTCStakingError>(
            div_toward_zero(a as int, b as int) as i128,
        ),
        b == 0 || !fits_i128(div_toward_zero(a as int, b as int)) ==> r == Err::<i128, _>(
            PumpBTCStakingError::MathOverflow,
        ),
{
    a.checked_div(b).ok_or(PumpBTCStakingError::MathOverflow)
}

} // verus!

verus! {

/// Asset decimals for which the conversion below is defined: from 8 up to
/// 46 (the factor `10^(d - 8)` must fit in an `i128`).
pub open spec fn supported_decimal(asset_decimal: u32) -> bool {
    INTERNAL_DECIMALS <= asset_decimal <= 46
}

/// An amount kept with 8 decimals, expressed in the asset's own decimals:
/// `amount * 10^(asset_decimal - 8)`, or `None` where that leaves `i128`.
pub open spec fn adjusted_amount(asset_decimal: u32, amount: int) -> Option<int> {
    let v = amount * pow10((asset_decimal - INTERNAL_DECIMALS) as nat);
    if fits_i128(v) {
        Some(v)
    } else {
        None
    }
}

/// Every power of ten is at least one.
pub proof fn lemma_pow10_positive(n: nat)
    ensures
        1 <= pow10(n),
    decreases n,
{
    if n > 0 {
        lemma_pow10_positive((n - 1) as nat);
    }
}

proof fn lemma_pow10_monotone(i: nat, j: nat)
    requires
        i <= j,
    ensures
        pow10(i) <= pow10(j),
    decreases j,
{
    if i < j {
        lemma_pow10_monotone(i, (j - 1) as nat);
        lemma_pow10_positive((j - 1) as nat);
    }
}

proof fn lemma_pow10_bounds(n: nat)
    requires
        n <= 38,
    ensures
        1 <= pow10(n) <= pow10(38),
{
    lemma_pow10_positive(n);
    lemma_pow10_monotone(n, 38);
}

/// `10^n` for the exponents whose power fits in an `i128`.
fn pow10_i128(n: u32) -> (r: i128)
    requires
        n <= 38,
    ensures
        r == pow10(n as nat),
{
    assert(pow10(38) == 100000000000000000000000000000000000000) by {
        reveal_with_fuel(pow10, 39);
    }
    let mut r: i128 = 1;
    let mut i: u32 = 0;
    while i < n
        invariant
            i <= n <= 38,
            r == pow10(i as nat),
            pow10(38) == 100000000000000000000000000000000000000,
        decreases n - i,
    {
        proof {
            lemma_pow10_bounds((i + 1) as nat);
        }
        r = r * 10;
        i = i + 1;
    }
    r
}

/// Converts an amount kept with 8 decimals into the asset's decimals.
pub fn adjust_amount(asset_decimal: u32, amount: i128) -> (r: Result<i128, PumpBTCStakingError>)
    requires
        supported_decimal(asset_decimal),
    ensures
        match adjusted_amount(asset_decimal, amount as int) {
            Some(v) => r == Ok::<i128, PumpBTCStakingError>(v as i128),
            None => r == Err::<i128, _>(PumpBTCStakingError::MathOverflow),
        },
{
    if asset_decimal == INTERNAL_DECIMALS {
        assert(pow10(0) == 1);
        return Ok(amount);
    }
    let decimal_diff = safe_sub(asset_decimal as i128, INTERNAL_DECIMALS as i128)?;
    let factor = pow10_i128(decimal_diff as u32);
    safe_mul(amount, factor)
}

} // verus!
