//! The rules of the protocol: what each operation makes of the ledger and of
//! a position, as functions of plain values.
//!
//! An operation either takes effect as a whole or is rejected and changes
//! nothing, so each rule gives the state after the operation or the error.
//! The executable operations are specified by these functions, and so is the
//! model of the whole protocol.

use crate::error::ErrorCode;
use crate::state::{Config, StakedPosition, MAX_WITHDRAWAL_PERCENT};
use anchor_lang::prelude::Pubkey;
use vstd::prelude::*;

verus! {

/// The ledger of a newly initialized protocol: `authority` administers it and
/// every counter is zero.
pub open spec fn initial_config(authority: Pubkey) -> Config {
    Config { authority, total_staked: 0, total_yield: 0, total_mryt_supply: 0 }
}

/// Whether a deposit of `amount` pushes the collateral under stake, the
/// receipt-token supply or the position past the 64-bit maximum.
pub open spec fn deposit_overflows(config: Config, position: StakedPosition, amount: u64) -> bool {
    ||| config.total_staked + amount > u64::MAX
    ||| config.total_mryt_supply + amount > u64::MAX
    ||| position.amount + amount > u64::MAX
}

/// A deposit of `amount` by `depositor` at the time `now`.
///
/// The amount is added to the collateral under stake, to the receipt-token
/// supply and to the position, which from then on belongs to the depositor and
/// is locked anew from `now`. If one of the three sums leaves the 64-bit range
/// the deposit is rejected.
pub open spec fn deposit_effect(
    config: Config,
    position: StakedPosition,
    depositor: Pubkey,
    amount: u64,
    now: i64,
) -> Result<(Config, StakedPosition), ErrorCode> {
    if deposit_overflows(config, position, amount) {
        Err(ErrorCode::MathOverflow)
    } else {
        Ok(
            (
                Config {
                    total_staked: (config.total_staked + amount) as u64,
                    total_mryt_supply: (config.total_mryt_supply + amount) as u64,
                    ..config
                },
                StakedPosition {
                    user: depositor,
                    deposit_time: now,
                    amount: (position.amount + amount) as u64,
                },
            ),
        )
    }
}

/// A withdrawal of `amount` from `position` at the time `now`.
///
/// The conditions are tested in this order: the lock must have run its full
/// period; the cap of the position must be computable in 64 bits; the amount
/// must not exceed the cap; and the amount must not exceed the receipt-token
/// supply or the collateral under stake. Then the amount is taken from all
/// three, and the start of the lock stays as it is.
pub open spec fn withdraw_effect(
    config: Config,
    position: StakedPosition,
    amount: u64,
    now: i64,
) -> Result<(Config, StakedPosition), ErrorCode> {
    if !position.lock_elapsed(now) {
        Err(ErrorCode::EarlyWithdrawal)
    } else if position.amount * MAX_WITHDRAWAL_PERCENT > u64::MAX {
        Err(ErrorCode::MathOverflow)
    } else if amount > position.withdrawal_cap() {
        Err(ErrorCode::WithdrawalTooHigh)
    } else if amount > config.total_mryt_supply || amount > config.total_staked {
        Err(ErrorCode::MathOverflow)
    } else {
        Ok(
            (
                Config {
                    total_staked: (config.total_staked - amount) as u64,
                    total_mryt_supply: (config.total_mryt_supply - amount) as u64,
                    ..config
                },
                StakedPosition { amount: (position.amount - amount) as u64, ..position },
            ),
        )
    }
}

/// The yield of one accrual: a flat hundredth of the collateral under stake,
/// rounded down.
pub open spec fn accrued_yield(config: Config) -> nat {
    config.total_staked as nat / 100
}

/// One accrual of simulated yield: the yield of the accrual is added to the
/// yield not yet compounded, unless the sum leaves the 64-bit range.
pub open spec fn accrue_effect(config: Config) -> Result<Config, ErrorCode> {
    if config.total_yield + accrued_yield(config) > u64::MAX {
        Err(ErrorCode::MathOverflow)
    } else {
        Ok(Config { total_yield: (config.total_yield + accrued_yield(config)) as u64, ..config })
    }
}

/// What one compounding reinvests: half of the yield not yet compounded,
/// rounded down.
pub open spec fn reinvested_yield(config: Config) -> nat {
    config.total_yield as nat / 2
}

/// One compounding: the reinvested half moves from the yield into the
/// collateral under stake, unless the stake then leaves the 64-bit range. No
/// position and no receipt token takes part.
pub open spec fn compound_effect(config: Config) -> Result<Config, ErrorCode> {
    if config.total_staked + reinvested_yield(config) > u64::MAX {
        Err(ErrorCode::MathOverflow)
    } else {
        Ok(
            Config {
                total_yield: (config.total_yield - reinvested_yield(config)) as u64,
                total_staked: (config.total_staked + reinvested_yield(config)) as u64,
                ..config
            },
        )
    }
}

/// The yield rate of a ledger, in the exact terms from which the percentage
/// is formed.
#[derive(Clone, Copy, Debug, PartialEq, Eq, Structural)]
pub enum Apy {
    /// Nothing is staked: the rate is 0%.
    Zero,
    /// The rate in percent is `total_yield / total_staked * 100`, and
    /// `total_staked` is not zero.
    Ratio { total_yield: u64, total_staked: u64 },
}

/// The yield rate that a ledger reports: zero where nothing is staked,
/// whatever the yield, and else the ratio of its yield to its stake.
pub open spec fn reported_apy(config: Config) -> Apy {
    if config.total_staked == 0 {
        Apy::Zero
    } else {
        Apy::Ratio { total_yield: config.total_yield, total_staked: config.total_staked }
    }
}

} // verus!
