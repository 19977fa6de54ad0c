use anchor_lang::prelude::Pubkey;
use mryt_protocol::{withdraw_at, Config, ErrorCode, StakedPosition, Withdraw};
use mryt_protocol::{Burn, TokenInstruction, Transfer, MIN_LOCK_PERIOD};

fn key(tag: u8) -> Pubkey {
    Pubkey::new_from_array([tag; 32])
}

fn withdraw_accounts(config: Config, staked_position: StakedPosition) -> Withdraw {
    Withdraw {
        config,
        config_key: key(20),
        authority: key(21),
        user_mryt: key(22),
        mryt_mint: key(23),
        vault_token_account: key(24),
        user_token_account: key(25),
        staked_position,
    }
}

fn ledger(total_staked: u64, total_yield: u64, total_mryt_supply: u64) -> Config {
    Config { authority: key(1), total_staked, total_yield, total_mryt_supply }
}

fn position(amount: u64, deposit_time: i64) -> StakedPosition {
    StakedPosition { user: key(21), deposit_time, amount }
}

#[test]
fn withdrawal_of_exactly_twenty_percent_succeeds() {
    let mut ctx = withdraw_accounts(ledger(1000, 0, 1000), position(1000, 0));
    assert!(withdraw_at(&mut ctx, 200, MIN_LOCK_PERIOD).is_ok());
    assert_eq!(ctx.staked_position.amount, 800);
    assert_eq!(ctx.config.total_staked, 800);
    assert_eq!(ctx.config.total_mryt_supply, 800);
}

#[test]
fn withdrawal_above_twenty_percent_is_too_high() {
    let before = withdraw_accounts(ledger(1000, 0, 1000), position(1000, 0));
    let mut ctx = before;
    assert_eq!(withdraw_at(&mut ctx, 201, MIN_LOCK_PERIOD), Err(ErrorCode::WithdrawalTooHigh));
    assert_eq!(ctx, before);
}

#[test]
fn cap_is_rounded_down() {
    // 20% of 1004 is 200.8: the cap is 200.
    let before = withdraw_accounts(ledger(5000, 0, 5000), position(1004, 0));
    let mut ctx = before;
    assert_eq!(withdraw_at(&mut ctx, 201, MIN_LOCK_PERIOD), Err(ErrorCode::WithdrawalTooHigh));
    assert!(withdraw_at(&mut ctx, 200, MIN_LOCK_PERIOD).is_ok());
    assert_eq!(ctx.staked_position.amount, 804);
}

#[test]
fn cap_of_small_position_is_zero() {
    let before = withdraw_accounts(ledger(4, 0, 4), position(4, 0));
    let mut ctx = before;
    assert_eq!(withdraw_at(&mut ctx, 1, MIN_LOCK_PERIOD), Err(ErrorCode::WithdrawalTooHigh));
    assert!(withdraw_at(&mut ctx, 0, MIN_LOCK_PERIOD).is_ok());
    assert_eq!(ctx, before);
}

#[test]
fn cap_shrinks_with_each_withdrawal() {
    let mut ctx = withdraw_accounts(ledger(1000, 0, 1000), position(1000, 0));
    withdraw_at(&mut ctx, 200, MIN_LOCK_PERIOD).unwrap();
    assert_eq!(withdraw_at(&mut ctx, 161, MIN_LOCK_PERIOD), Err(ErrorCode::WithdrawalTooHigh));
    withdraw_at(&mut ctx, 160, MIN_LOCK_PERIOD).unwrap();
    assert_eq!(ctx.staked_position.amount, 640);
    withdraw_at(&mut ctx, 128, MIN_LOCK_PERIOD + 1).unwrap();
    assert_eq!(ctx.staked_position.amount, 512);
    assert_eq!(ctx.config.total_staked, 512);
    assert_eq!(ctx.config.total_mryt_supply, 512);
}

#[test]
fn withdrawal_one_second_before_lock_end_is_early() {
    let before = withdraw_accounts(ledger(1000, 0, 1000), position(1000, 1234));
    let mut ctx = before;
    let result = withdraw_at(&mut ctx, 100, 1234 + MIN_LOCK_PERIOD - 1);
    assert_eq!(result, Err(ErrorCode::EarlyWithdrawal));
    assert_eq!(ctx, before);
}

#[test]
fn withdrawal_at_lock_end_succeeds() {
    let mut ctx = withdraw_accounts(ledger(1000, 0, 1000), position(1000, 1234));
    assert!(withdraw_at(&mut ctx, 100, 1234 + MIN_LOCK_PERIOD).is_ok());
    assert_eq!(ctx.staked_position.amount, 900);
}

#[test]
fn withdrawal_right_after_deposit_is_early() {
    let mut ctx = withdraw_accounts(ledger(1000, 0, 1000), position(1000, 1234));
    assert_eq!(withdraw_at(&mut ctx, 0, 1234), Err(ErrorCode::EarlyWithdrawal));
}

#[test]
fn lock_is_checked_before_cap() {
    let mut ctx = withdraw_accounts(ledger(1000, 0, 1000), position(1000, 0));
    assert_eq!(withdraw_at(&mut ctx, 999, MIN_LOCK_PERIOD - 1), Err(ErrorCode::EarlyWithdrawal));
}

#[test]
fn lock_is_checked_before_cap_overflow() {
    let mut ctx = withdraw_accounts(ledger(0, 0, 0), position(u64::MAX, 0));
    assert_eq!(withdraw_at(&mut ctx, 1, MIN_LOCK_PERIOD - 1), Err(ErrorCode::EarlyWithdrawal));
}

#[test]
fn withdrawal_leaves_lock_start_alone() {
    let mut ctx = withdraw_accounts(ledger(1000, 0, 1000), position(1000, 1234));
    withdraw_at(&mut ctx, 100, 1234 + MIN_LOCK_PERIOD + 77).unwrap();
    assert_eq!(ctx.staked_position.deposit_time, 1234);
    assert_eq!(ctx.staked_position.user, key(21));
}

#[test]
fn withdrawal_leaves_yield_and_addresses_alone() {
    let before = withdraw_accounts(ledger(1010, 5, 1000), position(1000, 0));
    let mut ctx = before;
    withdraw_at(&mut ctx, 200, MIN_LOCK_PERIOD).unwrap();
    assert_eq!(ctx.config.total_yield, 5);
    assert_eq!(ctx.config.authority, key(1));
    assert_eq!(ctx.config_key, before.config_key);
    assert_eq!(ctx.authority, before.authority);
    assert_eq!(ctx.user_mryt, before.user_mryt);
    assert_eq!(ctx.mryt_mint, before.mryt_mint);
    assert_eq!(ctx.vault_token_account, before.vault_token_account);
    assert_eq!(ctx.user_token_account, before.user_token_account);
    assert_eq!(ctx.config.total_staked, 810);
}

#[test]
fn withdrawal_requests_burn_then_collateral_out() {
    let mut ctx = withdraw_accounts(ledger(1000, 0, 1000), position(1000, 0));
    let instructions = withdraw_at(&mut ctx, 150, MIN_LOCK_PERIOD).unwrap();
    assert_eq!(
        instructions,
        vec![
            TokenInstruction::Burn {
                burn: Burn { mint: key(23), from: key(22), authority: key(21) },
                amount: 150,
            },
            TokenInstruction::Transfer {
                transfer: Transfer { from: key(24), to: key(25), authority: key(20) },
                amount: 150,
            },
        ]
    );
}

#[test]
fn position_too_large_for_cap_overflows() {
    let amount = u64::MAX / 20 + 1;
    let before = withdraw_accounts(ledger(u64::MAX, 0, u64::MAX), position(amount, 0));
    let mut ctx = before;
    assert_eq!(withdraw_at(&mut ctx, 1, MIN_LOCK_PERIOD), Err(ErrorCode::MathOverflow));
    assert_eq!(ctx, before);
}

#[test]
fn largest_position_with_a_cap_can_be_drawn_down() {
    let amount = u64::MAX / 20;
    let mut ctx = withdraw_accounts(ledger(u64::MAX, 0, u64::MAX), position(amount, 0));
    let cap = amount / 5;
    assert_eq!(withdraw_at(&mut ctx, cap + 1, MIN_LOCK_PERIOD), Err(ErrorCode::WithdrawalTooHigh));
    assert!(withdraw_at(&mut ctx, cap, MIN_LOCK_PERIOD).is_ok());
    assert_eq!(ctx.staked_position.amount, amount - cap);
}

#[test]
fn withdrawal_above_supply_overflows_and_changes_nothing() {
    let before = withdraw_accounts(ledger(1000, 0, 99), position(1000, 0));
    let mut ctx = before;
    assert_eq!(withdraw_at(&mut ctx, 100, MIN_LOCK_PERIOD), Err(ErrorCode::MathOverflow));
    assert_eq!(ctx, before);
}

#[test]
fn withdrawal_above_stake_overflows_and_changes_nothing() {
    let before = withdraw_accounts(ledger(99, 0, 1000), position(1000, 0));
    let mut ctx = before;
    assert_eq!(withdraw_at(&mut ctx, 100, MIN_LOCK_PERIOD), Err(ErrorCode::MathOverflow));
    assert_eq!(ctx, before);
}

#[test]
fn cap_is_checked_before_ledger_funds() {
    let mut ctx = withdraw_accounts(ledger(0, 0, 0), position(1000, 0));
    assert_eq!(withdraw_at(&mut ctx, 201, MIN_LOCK_PERIOD), Err(ErrorCode::WithdrawalTooHigh));
}

#[test]
fn lock_check_does_not_overflow_at_the_ends_of_time() {
    let mut ctx = withdraw_accounts(ledger(1000, 0, 1000), position(1000, i64::MIN));
    assert!(withdraw_at(&mut ctx, 10, i64::MAX).is_ok());
    let mut ctx = withdraw_accounts(ledger(1000, 0, 1000), position(1000, i64::MAX));
    assert_eq!(withdraw_at(&mut ctx, 10, i64::MIN), Err(ErrorCode::EarlyWithdrawal));
    let mut ctx = withdraw_accounts(ledger(1000, 0, 1000), position(1000, -1));
    assert!(withdraw_at(&mut ctx, 10, MIN_LOCK_PERIOD - 1).is_ok());
}

#[test]
fn into_burn_context_names_mint_receipt_account_and_depositor() {
    let ctx = withdraw_accounts(ledger(0, 0, 0), position(0, 0));
    assert_eq!(
        ctx.into_burn_context(),
        Burn { mint: key(23), from: key(22), authority: key(21) }
    );
}

#[test]
fn into_transfer_to_user_context_names_vault_user_and_ledger() {
    let ctx = withdraw_accounts(ledger(0, 0, 0), position(0, 0));
    assert_eq!(
        ctx.into_transfer_to_user_context(),
        Transfer { from: key(24), to: key(25), authority: key(20) }
    );
}
