//! Accounting core of the MRYT staking protocol.
//!
//! Depositors lock collateral in a vault and receive receipt tokens for it,
//! one for one. A position can be drawn down again once its lock period has
//! passed, a capped share at a time. Simulated yield accrues to the pool and
//! is compounded into it.
//!
//! The library keeps the books: the ledger, the positions and the rules by
//! which each operation changes them. It moves no tokens itself: the caller
//! carries out the token requests that an operation returns. The time comes
//! from the clock of the runtime, or from the caller.

pub mod accounts;
pub mod error;
pub mod instructions;
pub mod laws;
pub mod model;
pub mod rules;
pub mod runtime;
pub mod state;
pub mod token;

pub use accounts::{AccrueYield, AutoCompoundYield, CalculateApy, Deposit, Initialize, Withdraw};
pub use error::{ErrorCode, OperationError};
pub use instructions::{
    accrue_yield, auto_compound_yield, calculate_apy, deposit, deposit_at, initialize, withdraw,
    withdraw_at,
};
pub use rules::Apy;
pub use state::{CollateralAsset, Config, StakedPosition, MAX_WITHDRAWAL_PERCENT, MIN_LOCK_PERIOD};
pub use token::{Burn, MintTo, TokenInstruction, Transfer};
