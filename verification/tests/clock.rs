use anchor_lang::prelude::{ProgramError, Pubkey};
use mryt_protocol::{deposit, withdraw, Config, Deposit, ErrorCode, OperationError};
use mryt_protocol::{StakedPosition, Withdraw};

fn key(tag: u8) -> Pubkey {
    Pubkey::new_from_array([tag; 32])
}

fn deposit_accounts(total_staked: u64, locked: u64) -> Deposit {
    Deposit {
        config: Config {
            authority: key(1),
            total_staked,
            total_yield: 0,
            total_mryt_supply: locked,
        },
        config_key: key(10),
        authority: key(11),
        user_token_account: key(12),
        vault_token_account: key(13),
        mryt_mint: key(14),
        user_mryt: key(15),
        staked_position: StakedPosition { user: key(11), deposit_time: 40, amount: locked },
    }
}

fn withdraw_accounts(locked: u64) -> Withdraw {
    Withdraw {
        config: Config {
            authority: key(1),
            total_staked: locked,
            total_yield: 0,
            total_mryt_supply: locked,
        },
        config_key: key(20),
        authority: key(21),
        user_mryt: key(22),
        mryt_mint: key(23),
        vault_token_account: key(24),
        user_token_account: key(25),
        staked_position: StakedPosition { user: key(21), deposit_time: 0, amount: locked },
    }
}

// Outside the runtime there is no clock to read.

#[test]
fn deposit_without_a_clock_fails_and_changes_nothing() {
    let before = deposit_accounts(100, 100);
    let mut ctx = before;
    let result = deposit(&mut ctx, 5);
    assert_eq!(result, Err(OperationError::Clock(ProgramError::UnsupportedSysvar)));
    assert_eq!(ctx, before);
}

#[test]
fn overflowing_deposit_is_rejected_before_the_clock_is_read() {
    let before = deposit_accounts(u64::MAX, 100);
    let mut ctx = before;
    let result = deposit(&mut ctx, 1);
    assert_eq!(result, Err(OperationError::Rejected(ErrorCode::MathOverflow)));
    assert_eq!(ctx, before);
}

#[test]
fn deposit_overflowing_the_supply_is_rejected_before_the_clock_is_read() {
    let mut before = deposit_accounts(0, 0);
    before.config.total_mryt_supply = u64::MAX;
    let mut ctx = before;
    let result = deposit(&mut ctx, 1);
    assert_eq!(result, Err(OperationError::Rejected(ErrorCode::MathOverflow)));
    assert_eq!(ctx, before);
}

#[test]
fn deposit_overflowing_the_position_is_rejected_before_the_clock_is_read() {
    let mut before = deposit_accounts(0, 0);
    before.staked_position.amount = u64::MAX - 1;
    let mut ctx = before;
    let result = deposit(&mut ctx, 2);
    assert_eq!(result, Err(OperationError::Rejected(ErrorCode::MathOverflow)));
    assert_eq!(ctx, before);
}

#[test]
fn withdrawal_without_a_clock_fails_and_changes_nothing() {
    let before = withdraw_accounts(1000);
    let mut ctx = before;
    let result = withdraw(&mut ctx, 10);
    assert_eq!(result, Err(OperationError::Clock(ProgramError::UnsupportedSysvar)));
    assert_eq!(ctx, before);
}

#[test]
fn withdrawal_above_cap_without_a_clock_fails_on_the_clock() {
    let before = withdraw_accounts(1000);
    let mut ctx = before;
    let result = withdraw(&mut ctx, 1000);
    assert_eq!(result, Err(OperationError::Clock(ProgramError::UnsupportedSysvar)));
    assert_eq!(ctx, before);
}
