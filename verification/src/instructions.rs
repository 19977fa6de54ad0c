//! The operations of the protocol.
//!
//! Each operation works on the accounts handed to it and either takes effect
//! as a whole or returns an error and leaves them as they were.
//!
//! Deposits and withdrawals move tokens: they return the requests to the
//! token service that belong to the operation, in the order in which they are
//! to be carried out. The operation stands only if every one of them
//! succeeds.
//!
//! Deposits and withdrawals also go by the time. `deposit` and `withdraw`
//! read the clock of the runtime. `deposit_at` and `withdraw_at` take the
//! time from the caller, and say exactly what the operation does at that
//! time.

use crate::accounts::{
    AccrueYield, AutoCompoundYield, CalculateApy, Deposit, Initialize, Withdraw,
};
use crate::error::{ErrorCode, OperationError};
use crate::rules::{
    accrue_effect, compound_effect, deposit_effect, deposit_overflows, initial_config,
    reinvested_yield, reported_apy, withdraw_effect, Apy,
};
use crate::runtime::unix_timestamp;
use crate::state::{Config, StakedPosition, MAX_WITHDRAWAL_PERCENT, MIN_LOCK_PERIOD};
use crate::token::TokenInstruction;
use vstd::prelude::*;

verus! {

/// Initializes the protocol configuration: the signer becomes the
/// administrator and every counter starts at zero.
pub fn initialize(ctx: &mut Initialize) -> (result: Result<(), ErrorCode>)
    ensures
        result is Ok,
        *final(ctx) == (Initialize { config: initial_config(old(ctx).authority), ..*old(ctx) }),
{
    ctx.config.authority = ctx.authority;
    ctx.config.total_staked = 0;
    ctx.config.total_yield = 0;
    ctx.config.total_mryt_supply = 0;
    Ok(())
}

/// Deposits collateral into the vault and mints receipt tokens for it, one
/// for one, at the time that the clock shows.
///
/// A deposit that overflows is rejected whatever the clock does. Any other
/// deposit takes effect as `deposit_at` says for the time read, which is then
/// the start of the position's lock, unless the clock cannot be read.
pub fn deposit(ctx: &mut Deposit, amount: u64) -> (result: Result<
    Vec<TokenInstruction>,
    OperationError,
>)
    ensures
        match result {
            Ok(instructions) => {
                &&& deposit_effect(
                    old(ctx).config,
                    old(ctx).staked_position,
                    old(ctx).authority,
                    amount,
                    final(ctx).staked_position.deposit_time,
                ) == Ok::<(Config, StakedPosition), ErrorCode>(
                    (final(ctx).config, final(ctx).staked_position),
                )
                &&& *final(ctx) == (Deposit {
                    config: final(ctx).config,
                    staked_position: final(ctx).staked_position,
                    ..*old(ctx)
                })
                &&& instructions@ == old(ctx).token_instructions(amount)
            },
            Err(OperationError::Rejected(code)) => {
                &&& code == ErrorCode::MathOverflow
                &&& deposit_overflows(old(ctx).config, old(ctx).staked_position, amount)
                &&& *final(ctx) == *old(ctx)
            },
            Err(OperationError::Clock(_)) => {
                &&& !deposit_overflows(old(ctx).config, old(ctx).staked_position, amount)
                &&& *final(ctx) == *old(ctx)
            },
        },
{
    // An overflow is found before the clock is read.
    if ctx.config.total_staked.checked_add(amount).is_none()
        || ctx.config.total_mryt_supply.checked_add(amount).is_none()
        || ctx.staked_position.amount.checked_add(amount).is_none() {
        return Err(OperationError::Rejected(ErrorCode::MathOverflow));
    }
    match unix_timestamp() {
        Ok(now) => match deposit_at(ctx, amount, now) {
            Ok(instructions) => Ok(instructions),
            Err(code) => Err(OperationError::Rejected(code)),
        },
        Err(error) => Err(OperationError::Clock(error)),
    }
}

/// Deposits collateral into the vault and mints receipt tokens for it, one
/// for one, at the time `now`.
///
/// The depositor's position grows by the amount, and its lock starts anew at
/// `now` for the whole balance, whatever the amount.
pub fn deposit_at(ctx: &mut Deposit, amount: u64, now: i64) -> (result: Result<
    Vec<TokenInstruction>,
    ErrorCode,
>)
    ensures
        match deposit_effect(
            old(ctx).config,
            old(ctx).staked_position,
            old(ctx).authority,
            amount,
            now,
        ) {
            Ok((config, staked_position)) => {
                &&& result is Ok
                &&& result->Ok_0@ == old(ctx).token_instructions(amount)
                &&& *final(ctx) == (Deposit { config, staked_position, ..*old(ctx) })
            },
            Err(code) => {
                &&& result == Err::<Vec<TokenInstruction>, ErrorCode>(code)
                &&& *final(ctx) == *old(ctx)
            },
        },
{
    let transfer = ctx.into_transfer_to_vault_context();
    let total_staked = ctx.config.total_staked.checked_add(amount).ok_or(
        ErrorCode::MathOverflow,
    )?;
    let mint_to = ctx.into_mint_to_context();
    let total_mryt_supply = ctx.config.total_mryt_supply.checked_add(amount).ok_or(
        ErrorCode::MathOverflow,
    )?;
    let locked = ctx.staked_position.amount.checked_add(amount).ok_or(ErrorCode::MathOverflow)?;

    ctx.config.total_staked = total_staked;
    ctx.config.total_mryt_supply = total_mryt_supply;
    ctx.staked_position.user = ctx.authority;
    ctx.staked_position.amount = locked;
    // Reset the deposit time to enforce a fresh lock period.
    ctx.staked_position.deposit_time = now;

    let mut instructions: Vec<TokenInstruction> = Vec::new();
    instructions.push(TokenInstruction::Transfer { transfer, amount });
    instructions.push(TokenInstruction::MintTo { mint_to, amount });
    Ok(instructions)
}

/// Withdraws collateral by burning receipt tokens, at the time that the clock
/// shows.
///
/// The withdrawal takes effect, or is rejected, as `withdraw_at` says for the
/// time read, unless the clock cannot be read.
pub fn withdraw(ctx: &mut Withdraw, amount: u64) -> (result: Result<
    Vec<TokenInstruction>,
    OperationError,
>)
    ensures
        match result {
            Ok(instructions) => {
                &&& exists|now: i64| #[trigger]
                    withdraw_effect(old(ctx).config, old(ctx).staked_position, amount, now) == Ok::<
                        (Config, StakedPosition),
                        ErrorCode,
                    >((final(ctx).config, final(ctx).staked_position))
                &&& *final(ctx) == (Withdraw {
                    config: final(ctx).config,
                    staked_position: final(ctx).staked_position,
                    ..*old(ctx)
                })
                &&& instructions@ == old(ctx).token_instructions(amount)
            },
            Err(OperationError::Rejected(code)) => {
                &&& exists|now: i64| #[trigger]
                    withdraw_effect(old(ctx).config, old(ctx).staked_position, amount, now) == Err::<
                        (Config, StakedPosition),
                        ErrorCode,
                    >(code)
                &&& *final(ctx) == *old(ctx)
            },
            Err(OperationError::Clock(_)) => *final(ctx) == *old(ctx),
        },
{
    match unix_timestamp() {
        Ok(now) => match withdraw_at(ctx, amount, now) {
            Ok(instructions) => Ok(instructions),
            Err(code) => Err(OperationError::Rejected(code)),
        },
        Err(error) => Err(OperationError::Clock(error)),
    }
}

/// Withdraws collateral by burning receipt tokens, at the time `now`.
///
/// Enforces the lock period of the position, counted from its latest deposit,
/// and the cap on a single withdrawal.
pub fn withdraw_at(ctx: &mut Withdraw, amount: u64, now: i64) -> (result: Result<
    Vec<TokenInstruction>,
    ErrorCode,
>)
    ensures
        match withdraw_effect(old(ctx).config, old(ctx).staked_position, amount, now) {
            Ok((config, staked_position)) => {
                &&& result is Ok
                &&& result->Ok_0@ == old(ctx).token_instructions(amount)
                &&& *final(ctx) == (Withdraw { config, staked_position, ..*old(ctx) })
            },
            Err(code) => {
                &&& result == Err::<Vec<TokenInstruction>, ErrorCode>(code)
                &&& *final(ctx) == *old(ctx)
            },
        },
{
    if (now as i128) - (ctx.staked_position.deposit_time as i128) < (MIN_LOCK_PERIOD as i128) {
        return Err(ErrorCode::EarlyWithdrawal);
    }
    // Enforce the withdrawal cap: a percentage of what the position holds now.
    let max_allowed = ctx.staked_position.amount.checked_mul(MAX_WITHDRAWAL_PERCENT as u64).ok_or(
        ErrorCode::MathOverflow,
    )?.checked_div(100).ok_or(ErrorCode::MathOverflow)?;
    if amount > max_allowed {
        return Err(ErrorCode::WithdrawalTooHigh);
    }
    let burn = ctx.into_burn_context();
    let total_mryt_supply = ctx.config.total_mryt_supply.checked_sub(amount).ok_or(
        ErrorCode::MathOverflow,
    )?;
    let transfer = ctx.into_transfer_to_user_context();
    let total_staked = ctx.config.total_staked.checked_sub(amount).ok_or(
        ErrorCode::MathOverflow,
    )?;
    let remaining = ctx.staked_position.amount.checked_sub(amount).ok_or(
        ErrorCode::MathOverflow,
    )?;

    ctx.config.total_mryt_supply = total_mryt_supply;
    ctx.config.total_staked = total_staked;
    ctx.staked_position.amount = remaining;

    let mut instructions: Vec<TokenInstruction> = Vec::new();
    instructions.push(TokenInstruction::Burn { burn, amount });
    instructions.push(TokenInstruction::Transfer { transfer, amount });
    Ok(instructions)
}

/// Simulates yield accrual: one percent of the collateral now under stake is
/// added to the yield, whatever time has passed since the last accrual.
pub fn accrue_yield(ctx: &mut AccrueYield) -> (result: Result<(), ErrorCode>)
    ensures
        match accrue_effect(old(ctx).config) {
            Ok(config) => result is Ok && final(ctx).config == config,
            Err(code) => result == Err::<(), ErrorCode>(code) && *final(ctx) == *old(ctx),
        },
{
    let yield_amount = ctx.config.total_staked / 100;
    let total_yield = ctx.config.total_yield.checked_add(yield_amount).ok_or(
        ErrorCode::MathOverflow,
    )?;
    ctx.config.total_yield = total_yield;
    Ok(())
}

/// Auto-compounds yield: half of the accrued yield goes back into the staked
/// pool. Returns the amount reinvested.
///
/// The amount is credited to the pool as a whole and to no position.
pub fn auto_compound_yield(ctx: &mut AutoCompoundYield) -> (result: Result<u64, ErrorCode>)
    ensures
        match compound_effect(old(ctx).config) {
            Ok(config) => {
                &&& result == Ok::<u64, ErrorCode>(reinvested_yield(old(ctx).config) as u64)
                &&& final(ctx).config == config
            },
            Err(code) => result == Err::<u64, ErrorCode>(code) && *final(ctx) == *old(ctx),
        },
{
    let reinvest_amount = ctx.config.total_yield / 2;
    let total_yield = ctx.config.total_yield.checked_sub(reinvest_amount).ok_or(
        ErrorCode::MathOverflow,
    )?;
    let total_staked = ctx.config.total_staked.checked_add(reinvest_amount).ok_or(
        ErrorCode::MathOverflow,
    )?;
    ctx.config.total_yield = total_yield;
    ctx.config.total_staked = total_staked;
    Ok(reinvest_amount)
}

/// Calculates the current yield rate from the accrued yield and the staked
/// collateral. Changes nothing.
pub fn calculate_apy(ctx: &CalculateApy) -> (result: Result<Apy, ErrorCode>)
    ensures
        result == Ok::<Apy, ErrorCode>(reported_apy(ctx.config)),
{
    let config = &ctx.config;
    if config.total_staked == 0 {
        return Ok(Apy::Zero);
    }
    Ok(Apy::Ratio { total_yield: config.total_yield, total_staked: config.total_staked })
}

} // verus!
