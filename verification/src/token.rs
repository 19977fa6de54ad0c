//! Requests to the fungible-token service.
//!
//! The protocol holds no tokens itself. Every movement of collateral or of
//! receipt tokens is a request to the token program, described here by the
//! addresses of the accounts that take part and by the amount. The caller
//! carries the requests out, in the order in which an operation returns them.

use anchor_lang::prelude::Pubkey;
use vstd::prelude::*;

verus! {

/// The accounts of a transfer between two token accounts.
#[derive(Clone, Copy, Debug, PartialEq, Eq)]
pub struct Transfer {
    pub from: Pubkey,
    pub to: Pubkey,
    pub authority: Pubkey,
}

/// The accounts of a request to mint tokens into a token account.
#[derive(Clone, Copy, Debug, PartialEq, Eq)]
pub struct MintTo {
    pub mint: Pubkey,
    pub to: Pubkey,
    pub authority: Pubkey,
}

/// The accounts of a request to burn tokens from a token account.
#[derive(Clone, Copy, Debug, PartialEq, Eq)]
pub struct Burn {
    pub mint: Pubkey,
    pub from: Pubkey,
    pub authority: Pubkey,
}

/// One request to the token service, with its amount.
#[derive(Clone, Copy, Debug, PartialEq, Eq)]
pub enum TokenInstruction {
    /// Move `amount` units from one token account to another.
    Transfer { transfer: Transfer, amount: u64 },
    /// Create `amount` new units in a token account.
    MintTo { mint_to: MintTo, amount: u64 },
    /// Destroy `amount` units of a token account.
    Burn { burn: Burn, amount: u64 },
}

impl TokenInstruction {
    /// The units that the request adds to the token account `account`:
    /// negative where it takes them away, zero where the account takes no
    /// part, or is both source and destination.
    pub open spec fn credit_to(self, account: Pubkey) -> int {
        match self {
            TokenInstruction::Transfer { transfer, amount } => {
                (if transfer.to == account { amount as int } else { 0 })
                    - (if transfer.from == account { amount as int } else { 0 })
            },
            TokenInstruction::MintTo { mint_to, amount } => {
                if mint_to.to == account { amount as int } else { 0 }
            },
            TokenInstruction::Burn { burn, amount } => {
                if burn.from == account { -(amount as int) } else { 0 }
            },
        }
    }
}

/// The units that a sequence of requests adds to the token account
/// `account`, all requests taken together.
pub open spec fn total_credit_to(instructions: Seq<TokenInstruction>, account: Pubkey) -> int
    decreases instructions.len(),
{
    if instructions.len() == 0 {
        0
    } else {
        total_credit_to(instructions.drop_last(), account) + instructions.last().credit_to(account)
    }
}

} // verus!
