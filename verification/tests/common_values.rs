use anchor_lang::prelude::Pubkey;
use mryt_protocol::{CollateralAsset, Config, ErrorCode, StakedPosition};
use mryt_protocol::{MAX_WITHDRAWAL_PERCENT, MIN_LOCK_PERIOD};

#[test]
fn lock_period_is_seven_days_in_seconds() {
    assert_eq!(MIN_LOCK_PERIOD, 604_800);
    assert_eq!(MIN_LOCK_PERIOD, 7 * 24 * 60 * 60);
}

#[test]
fn withdrawal_cap_is_twenty_percent() {
    assert_eq!(MAX_WITHDRAWAL_PERCENT, 20);
}

#[test]
fn stored_sizes_count_discriminator_address_and_counters() {
    assert_eq!(Config::LEN, 64);
    assert_eq!(StakedPosition::LEN, 56);
}

#[test]
fn error_messages_are_fixed() {
    assert_eq!(ErrorCode::MathOverflow.message(), "Math operation overflowed");
    assert_eq!(
        ErrorCode::EarlyWithdrawal.message(),
        "Withdrawal attempted before the minimum lock period elapsed"
    );
    assert_eq!(
        ErrorCode::WithdrawalTooHigh.message(),
        "Withdrawal amount exceeds the maximum allowed limit"
    );
}

#[test]
fn error_codes_are_distinct() {
    assert_ne!(ErrorCode::MathOverflow, ErrorCode::EarlyWithdrawal);
    assert_ne!(ErrorCode::MathOverflow, ErrorCode::WithdrawalTooHigh);
    assert_ne!(ErrorCode::EarlyWithdrawal, ErrorCode::WithdrawalTooHigh);
}

#[test]
fn collateral_catalog_has_one_member() {
    let asset = CollateralAsset::LP_Token;
    let copy = asset.clone();
    assert_eq!(asset, copy);
    assert!(matches!(copy, CollateralAsset::LP_Token));
}

#[test]
fn state_records_are_plain_values() {
    let owner = Pubkey::new_from_array([7u8; 32]);
    let config = Config { authority: owner, total_staked: 1, total_yield: 2, total_mryt_supply: 3 };
    let copy = config;
    assert_eq!(config, copy);
    let position = StakedPosition { user: owner, deposit_time: -5, amount: 9 };
    let copy = position.clone();
    assert_eq!(position, copy);
    assert_eq!(copy.deposit_time, -5);
}
