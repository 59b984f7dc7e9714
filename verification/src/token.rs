use vstd::prelude::*;

use crate::error::PumpTokenError;
use crate::math::fits_i128;

verus! {

/// Decimals of pumpBTC.
pub const DECIMAL: u32 = 8;

/// An allowance as stored: the amount a spender may take and the last
/// ledger in which it may.
#[derive(Clone, Copy, Debug, PartialEq, Eq, Structural)]
pub struct AllowanceValue {
    pub amount: i128,
    pub expiration_ledger: u32,
}

/// An allowance to store, with the number of ledgers for which its entry
/// must be kept alive (none for an empty allowance).
#[derive(Clone, Copy, Debug, PartialEq, Eq, Structural)]
pub struct AllowanceWrite {
    pub value: AllowanceValue,
    pub live_for: Option<u32>,
}

/// The pumpBTC token's roles: the admin, an admin being transferred to, and
/// the minter (the staking contract), as addresses of type `A`.
pub struct PumpToken<A> {
    pub admin: Option<A>,
    pub pending_admin: Option<A>,
    pub minter: Option<A>,
}

/// The allowance in force at `ledger`: the stored one, emptied once it has
/// expired; nothing stored counts as an empty allowance.
pub open spec fn allowance_at(stored: Option<AllowanceValue>, ledger: u32) -> AllowanceValue {
    match stored {
        None => AllowanceValue { amount: 0, expiration_ledger: 0 },
        Some(a) => if a.expiration_ledger < ledger {
            AllowanceValue { amount: 0, ..a }
        } else {
            a
        },
    }
}

/// The stored allowance, as in force at `ledger`.
pub fn read_allowance(stored: Option<AllowanceValue>, ledger: u32) -> (r: AllowanceValue)
    ensures
        r == allowance_at(stored, ledger),
{
    match stored {
        None => AllowanceValue { amount: 0, expiration_ledger: 0 },
        Some(a) => {
            if a.expiration_ledger < ledger {
                AllowanceValue { amount: 0, expiration_ledger: a.expiration_ledger }
            } else {
                a
            }
        },
    }
}

/// The entry that approving `amount` until `expiration_ledger` stores at
/// `ledger`. A positive allowance must not expire before `ledger`.
pub fn write_allowance(amount: i128, expiration_ledger: u32, ledger: u32) -> (w: AllowanceWrite)
    requires
        amount > 0 ==> expiration_ledger >= ledger,
    ensures
        w == allowance_write(amount, expiration_ledger, ledger),
{
    let value = AllowanceValue { amount, expiration_ledger };
    if amount > 0 {
        AllowanceWrite { value, live_for: Some(expiration_ledger - ledger) }
    } else {
        AllowanceWrite { value, live_for: None }
    }
}

/// Takes `amount` from the allowance stored for a spender. Gives the entry
/// to store, or nothing for a zero amount, which leaves storage untouched.
pub fn spend_allowance(stored: Option<AllowanceValue>, ledger: u32, amount: i128) -> (w: Option<AllowanceWrite>)
    requires
        0 <= amount <= allowance_at(stored, ledger).amount,
    ensures
        w == spent_allowance(stored, ledger, amount),
{
    let allowance = read_allowance(stored, ledger);
    if amount > 0 {
        Some(write_allowance(allowance.amount - amount, allowance.expiration_ledger, ledger))
    } else {
        None
    }
}

/// A balance after receiving `amount`.
pub fn receive_balance(balance: i128, amount: i128) -> (r: i128)
    requires
        amount >= 0,
        fits_i128(balance + amount),
    ensures
        r == balance + amount,
{
    balance + amount
}

/// A balance after spending `amount`, which it must cover.
pub fn spend_balance(balance: i128, amount: i128) -> (r: i128)
    requires
        0 <= amount <= balance,
    ensures
        r == balance - amount,
{
    balance - amount
}

/// Why the token refuses a call. The host aborts the call with the
/// refusal's message, so a refused call changes nothing.
#[derive(Clone, Copy, Debug, PartialEq, Eq, Structural)]
pub enum TokenRefusal {
    /// "negative amount is not allowed"
    NegativeAmount,
    /// "insufficient balance"
    InsufficientBalance,
    /// "insufficient allowance"
    InsufficientAllowance,
    /// "expiration_ledger is less than ledger seq when amount > 0"
    ExpirationInPast,
    /// A balance would leave `i128`.
    BalanceOverflow,
}

/// The entry that approving `amount` until `expiration_ledger` stores at `ledger`.
pub open spec fn allowance_write(amount: i128, expiration_ledger: u32, ledger: u32) -> AllowanceWrite {
    AllowanceWrite {
        value: AllowanceValue { amount, expiration_ledger },
        live_for: if amount > 0 {
            Some((expiration_ledger - ledger) as u32)
        } else {
            None
        },
    }
}

/// The entry that spending `amount` of an allowance stores, if any.
pub open spec fn spent_allowance(stored: Option<AllowanceValue>, ledger: u32, amount: i128) -> Option<AllowanceWrite> {
    let a = allowance_at(stored, ledger);
    if amount > 0 {
        Some(allowance_write((a.amount - amount) as i128, a.expiration_ledger, ledger))
    } else {
        None
    }
}

pub open spec fn spec_mint(balance: i128, amount: i128) -> Result<i128, TokenRefusal> {
    if amount < 0 {
        Err(TokenRefusal::NegativeAmount)
    } else if !fits_i128(balance + amount) {
        Err(TokenRefusal::BalanceOverflow)
    } else {
        Ok((balance + amount) as i128)
    }
}

pub open spec fn spec_burn(balance: i128, amount: i128) -> Result<i128, TokenRefusal> {
    if amount < 0 {
        Err(TokenRefusal::NegativeAmount)
    } else if balance < amount {
        Err(TokenRefusal::InsufficientBalance)
    } else {
        Ok((balance - amount) as i128)
    }
}

/// Balances of the sender and the receiver after a transfer; when both are
/// the same account its balance is unchanged.
pub open spec fn spec_transfer(from_balance: i128, to_balance: i128, amount: i128, same_account: bool) -> Result<(i128, i128), TokenRefusal> {
    if amount < 0 {
        Err(TokenRefusal::NegativeAmount)
    } else if from_balance < amount {
        Err(TokenRefusal::InsufficientBalance)
    } else if same_account {
        Ok((from_balance, from_balance))
    } else if !fits_i128(to_balance + amount) {
        Err(TokenRefusal::BalanceOverflow)
    } else {
        Ok(((from_balance - amount) as i128, (to_balance + amount) as i128))
    }
}

pub open spec fn spec_approve(amount: i128, expiration_ledger: u32, ledger: u32) -> Result<AllowanceWrite, TokenRefusal> {
    if amount < 0 {
        Err(TokenRefusal::NegativeAmount)
    } else if amount > 0 && expiration_ledger < ledger {
        Err(TokenRefusal::ExpirationInPast)
    } else {
        Ok(allowance_write(amount, expiration_ledger, ledger))
    }
}

pub open spec fn spec_transfer_from(
    stored: Option<AllowanceValue>,
    ledger: u32,
    from_balance: i128,
    to_balance: i128,
    amount: i128,
    same_account: bool,
) -> Result<(Option<AllowanceWrite>, i128, i128), TokenRefusal> {
    if amount < 0 {
        Err(TokenRefusal::NegativeAmount)
    } else if allowance_at(stored, ledger).amount < amount {
        Err(TokenRefusal::InsufficientAllowance)
    } else {
        match spec_transfer(from_balance, to_balance, amount, same_account) {
            Err(e) => Err(e),
            Ok((f, t)) => Ok((spent_allowance(stored, ledger, amount), f, t)),
        }
    }
}

pub open spec fn spec_burn_from(stored: Option<AllowanceValue>, ledger: u32, balance: i128, amount: i128) -> Result<(Option<AllowanceWrite>, i128), TokenRefusal> {
    if amount < 0 {
        Err(TokenRefusal::NegativeAmount)
    } else if allowance_at(stored, ledger).amount < amount {
        Err(TokenRefusal::InsufficientAllowance)
    } else {
        match spec_burn(balance, amount) {
            Err(e) => Err(e),
            Ok(b) => Ok((spent_allowance(stored, ledger, amount), b)),
        }
    }
}

/// The token's amounts may be zero but never negative.
pub fn check_nonnegative_amount(amount: i128) -> (r: Result<(), TokenRefusal>)
    ensures
        r == (if amount < 0 {
            Err(TokenRefusal::NegativeAmount)
        } else {
            Ok(())
        }),
{
    if amount < 0 {
        return Err(TokenRefusal::NegativeAmount);
    }
    Ok(())
}

/// Minting `amount` to an account holding `balance`: its new balance.
pub fn mint_step(balance: i128, amount: i128) -> (r: Result<i128, TokenRefusal>)
    ensures
        r == spec_mint(balance, amount),
{
    check_nonnegative_amount(amount)?;
    if balance.checked_add(amount).is_none() {
        return Err(TokenRefusal::BalanceOverflow);
    }
    Ok(receive_balance(balance, amount))
}

/// Burning `amount` from an account holding `balance`: its new balance.
pub fn burn_step(balance: i128, amount: i128) -> (r: Result<i128, TokenRefusal>)
    ensures
        r == spec_burn(balance, amount),
{
    check_nonnegative_amount(amount)?;
    if balance < amount {
        return Err(TokenRefusal::InsufficientBalance);
    }
    Ok(spend_balance(balance, amount))
}

/// Moving `amount` between two accounts: their new balances.
pub fn transfer_step(from_balance: i128, to_balance: i128, amount: i128, same_account: bool) -> (r: Result<(i128, i128), TokenRefusal>)
    ensures
        r == spec_transfer(from_balance, to_balance, amount, same_account),
{
    check_nonnegative_amount(amount)?;
    if from_balance < amount {
        return Err(TokenRefusal::InsufficientBalance);
    }
    let from_after = spend_balance(from_balance, amount);
    if same_account {
        return Ok((receive_balance(from_after, amount), receive_balance(from_after, amount)));
    }
    if to_balance.checked_add(amount).is_none() {
        return Err(TokenRefusal::BalanceOverflow);
    }
    Ok((from_after, receive_balance(to_balance, amount)))
}

/// Approving `amount` until `expiration_ledger` at `ledger`: the entry to store.
pub fn approve_step(amount: i128, expiration_ledger: u32, ledger: u32) -> (r: Result<AllowanceWrite, TokenRefusal>)
    ensures
        r == spec_approve(amount, expiration_ledger, ledger),
{
    check_nonnegative_amount(amount)?;
    if amount > 0 && expiration_ledger < ledger {
        return Err(TokenRefusal::ExpirationInPast);
    }
    Ok(write_allowance(amount, expiration_ledger, ledger))
}

/// A spender moving `amount` out of an account: the allowance entry to
/// store (none for a zero amount) and the two new balances.
pub fn transfer_from_step(
    stored: Option<AllowanceValue>,
    ledger: u32,
    from_balance: i128,
    to_balance: i128,
    amount: i128,
    same_account: bool,
) -> (r: Result<(Option<AllowanceWrite>, i128, i128), TokenRefusal>)
    ensures
        r == spec_transfer_from(stored, ledger, from_balance, to_balance, amount, same_account),
{
    check_nonnegative_amount(amount)?;
    if read_allowance(stored, ledger).amount < amount {
        return Err(TokenRefusal::InsufficientAllowance);
    }
    let w = spend_allowance(stored, ledger, amount);
    let (f, t) = transfer_step(from_balance, to_balance, amount, same_account)?;
    Ok((w, f, t))
}

/// A spender burning `amount` from an account: the allowance entry to store
/// (none for a zero amount) and the account's new balance.
pub fn burn_from_step(stored: Option<AllowanceValue>, ledger: u32, balance: i128, amount: i128) -> (r: Result<(Option<AllowanceWrite>, i128), TokenRefusal>)
    ensures
        r == spec_burn_from(stored, ledger, balance, amount),
{
    check_nonnegative_amount(amount)?;
    if read_allowance(stored, ledger).amount < amount {
        return Err(TokenRefusal::InsufficientAllowance);
    }
    let w = spend_allowance(stored, ledger, amount);
    let b = burn_step(balance, amount)?;
    Ok((w, b))
}

impl<A> PumpToken<A> {
    /// Roles of a token that has never been initialized.
    pub fn new() -> (t: Self)
        ensures
            t.admin is None,
            t.pending_admin is None,
            t.minter is None,
    {
        PumpToken { admin: None, pending_admin: None, minter: None }
    }

    /// Sets the admin and the minter of a token that has none yet.
    pub fn initialize(&mut self, admin: A, minter: A)
        requires
            old(self).admin is None,
        ensures
            *final(self) == (PumpToken { admin: Some(admin), minter: Some(minter), ..*old(self) }),
    {
        self.admin = Some(admin);
        self.minter = Some(minter);
    }

    pub open spec fn spec_transfer_admin(self, new_admin: A) -> Self {
        PumpToken { pending_admin: Some(new_admin), ..self }
    }

    /// First step of an admin transfer: `new_admin` becomes the pending
    /// admin, replacing any earlier one.
    pub fn transfer_admin(&mut self, new_admin: A)
        requires
            old(self).admin is Some,
        ensures
            *final(self) == old(self).spec_transfer_admin(new_admin),
    {
        self.pending_admin = Some(new_admin);
    }

    pub open spec fn spec_accept_admin(self) -> (Self, Result<A, PumpTokenError>) {
        match self.pending_admin {
            None => (self, Err(PumpTokenError::NoPendingAdminTransfer)),
            Some(new_admin) => (
                PumpToken { admin: Some(new_admin), pending_admin: None, ..self },
                Ok(self.admin->0),
            ),
        }
    }

    /// Second step of an admin transfer: the pending admin becomes the admin.
    /// Gives back the previous admin; refused when no transfer is pending.
    pub fn accept_admin(&mut self) -> (r: Result<A, PumpTokenError>)
        requires
            old(self).pending_admin is Some ==> old(self).admin is Some,
        ensures
            (*final(self), r) == old(self).spec_accept_admin(),
    {
        match self.pending_admin.take() {
            None => Err(PumpTokenError::NoPendingAdminTransfer),
            Some(new_admin) => {
                let previous = self.admin.take();
                self.admin = Some(new_admin);
                Ok(previous.unwrap())
            },
        }
    }

    pub open spec fn spec_renounce_admin(self) -> Self {
        PumpToken { pending_admin: None, ..self }
    }

    /// Cancels a pending admin transfer; the admin stays.
    pub fn renounce_admin(&mut self)
        requires
            old(self).admin is Some,
        ensures
            *final(self) == old(self).spec_renounce_admin(),
    {
        self.pending_admin = None;
    }

    pub fn get_pending_admin(&self) -> (r: &Option<A>)
        ensures
            *r == self.pending_admin,
    {
        &self.pending_admin
    }

    pub open spec fn spec_set_minter(self, new_minter: A) -> Self {
        PumpToken { minter: Some(new_minter), ..self }
    }

    /// Replaces the minter.
    pub fn set_minter(&mut self, new_minter: A)
        requires
            old(self).admin is Some,
        ensures
            *final(self) == old(self).spec_set_minter(new_minter),
    {
        self.minter = Some(new_minter);
    }

    pub fn get_minter(&self) -> (r: &A)
        requires
            self.minter is Some,
        ensures
            *r == self.minter->0,
    {
        self.minter.as_ref().unwrap()
    }

    /// Decimals of pumpBTC.
    pub fn decimals() -> (r: u32)
        ensures
            r == DECIMAL,
    {
        DECIMAL
    }
}

} // verus!
