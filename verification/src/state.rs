//! The durable state of the protocol: one ledger, and one position for each
//! depositor.

use anchor_lang::prelude::Pubkey;
use vstd::prelude::*;

verus! {

/// Seconds that a position must age after its latest deposit before anything
/// can be withdrawn from it: seven days.
pub const MIN_LOCK_PERIOD: i64 = 7 * 24 * 60 * 60;

/// The share of a position's balance, in percent, that one withdrawal may take.
pub const MAX_WITHDRAWAL_PERCENT: u8 = 20;

/// Global protocol configuration: the ledger of aggregate counters.
#[derive(Clone, Copy, Debug, PartialEq, Eq)]
pub struct Config {
    /// The administrator, recorded when the protocol is initialized.
    pub authority: Pubkey,
    /// Collateral units held under stake, over all depositors.
    pub total_staked: u64,
    /// Yield units accrued and not yet compounded.
    pub total_yield: u64,
    /// Receipt-token units outstanding.
    pub total_mryt_supply: u64,
}

impl Config {
    /// Bytes of a stored ledger: an 8-byte discriminator, the administrator's
    /// address and the three counters.
    pub const LEN: usize = 8 + 32 + 8 + 8 + 8;
}

/// One depositor's staked position, with the time of the latest deposit.
#[derive(Clone, Copy, Debug, PartialEq, Eq)]
pub struct StakedPosition {
    /// The depositor whom the position belongs to.
    pub user: Pubkey,
    /// Unix timestamp of the latest deposit: the start of the current lock.
    pub deposit_time: i64,
    /// Collateral units locked for the depositor.
    pub amount: u64,
}

impl StakedPosition {
    /// Bytes of a stored position: an 8-byte discriminator, the owner's
    /// address, the timestamp and the amount.
    pub const LEN: usize = 8 + 32 + 8 + 8;

    /// The position as it is created on a depositor's first deposit: nothing
    /// locked yet.
    pub open spec fn opened(user: Pubkey) -> StakedPosition {
        StakedPosition { user, deposit_time: 0, amount: 0 }
    }

    /// Whether the lock has run its full period by the time `now`.
    pub open spec fn lock_elapsed(self, now: i64) -> bool {
        now - self.deposit_time >= MIN_LOCK_PERIOD
    }

    /// The most that one withdrawal may take: the given percentage of the
    /// balance now locked, rounded down.
    pub open spec fn withdrawal_cap(self) -> nat {
        (self.amount as nat * MAX_WITHDRAWAL_PERCENT as nat) / 100
    }
}

/// Supported collateral assets. Only LP tokens for now.
#[allow(non_camel_case_types)]
#[derive(Clone, Copy, Debug, PartialEq, Eq, Structural)]
pub enum CollateralAsset {
    LP_Token,
}

} // verus!
