//! The ways in which an operation of the protocol fails.

use anchor_lang::prelude::ProgramError;
use vstd::prelude::*;

verus! {

/// Why an operation was rejected. A rejected operation changes nothing.
#[derive(Clone, Copy, Debug, PartialEq, Eq, Structural)]
pub enum ErrorCode {
    /// A checked addition, subtraction or multiplication left the 64-bit range.
    MathOverflow,
    /// The minimum lock period has not yet elapsed.
    EarlyWithdrawal,
    /// The requested amount exceeds the per-withdrawal cap.
    WithdrawalTooHigh,
}

/// Why an operation that reads the clock failed. An operation that failed
/// changes nothing.
#[derive(Debug, PartialEq, Eq)]
pub enum OperationError {
    /// The protocol rejected the operation.
    Rejected(ErrorCode),
    /// The clock could not be read. The error is the one that the runtime
    /// gave.
    Clock(ProgramError),
}

impl ErrorCode {
    /// The human-readable message of this error.
    pub fn message(&self) -> (text: &'static str)
        ensures
            text@ == self.spec_message(),
    {
        match self {
            ErrorCode::MathOverflow => "Math operation overflowed",
            ErrorCode::EarlyWithdrawal => "Withdrawal attempted before the minimum lock period elapsed",
            ErrorCode::WithdrawalTooHigh => "Withdrawal amount exceeds the maximum allowed limit",
        }
    }

    /// The message of each error, as a sequence of characters.
    pub open spec fn spec_message(&self) -> Seq<char> {
        match self {
            ErrorCode::MathOverflow => "Math operation overflowed"@,
            ErrorCode::EarlyWithdrawal => "Withdrawal attempted before the minimum lock period elapsed"@,
            ErrorCode::WithdrawalTooHigh => "Withdrawal amount exceeds the maximum allowed limit"@,
        }
    }
}

} // verus!
