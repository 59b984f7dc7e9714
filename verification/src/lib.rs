//! Verified core of the PumpBTC staking system on Stellar: the staking
//! contract's bookkeeping, its fee and date-slot arithmetic, and the
//! pumpBTC token's balance, allowance and two-step admin rules.
//!
//! Storage, authorization, cross-contract calls and events belong to the
//! host; the functions here take the values that the host read and say
//! exactly what is written back and what has to be paid or minted.

pub mod error;
pub mod math;
pub mod utils;
pub mod event;
pub mod staking;
pub mod token;
pub mod laws;
pub mod guards;
