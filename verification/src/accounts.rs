//! What each operation works on: the state that it reads and changes, and the
//! addresses of the accounts that take part in it.

use crate::state::{Config, StakedPosition};
use crate::token::{Burn, MintTo, TokenInstruction, Transfer};
use anchor_lang::prelude::Pubkey;
use vstd::prelude::*;

verus! {

/// Accounts for initialization.
#[derive(Clone, Copy, Debug, PartialEq, Eq)]
pub struct Initialize {
    /// The ledger to set up.
    pub config: Config,
    /// The signer who creates the ledger and becomes its administrator.
    pub authority: Pubkey,
}

/// Accounts for deposit.
#[derive(Clone, Copy, Debug, PartialEq, Eq)]
pub struct Deposit {
    /// The ledger.
    pub config: Config,
    /// The address of the ledger's account, which is the authority over the
    /// receipt-token mint.
    pub config_key: Pubkey,
    /// The depositor, who signs.
    pub authority: Pubkey,
    /// The token account that holds the depositor's collateral.
    pub user_token_account: Pubkey,
    /// The vault that takes the collateral.
    pub vault_token_account: Pubkey,
    /// The receipt-token mint.
    pub mryt_mint: Pubkey,
    /// The depositor's token account for receipt tokens.
    pub user_mryt: Pubkey,
    /// The depositor's position, loaded or newly created.
    pub staked_position: StakedPosition,
}

/// Accounts for withdrawal.
#[derive(Clone, Copy, Debug, PartialEq, Eq)]
pub struct Withdraw {
    /// The ledger.
    pub config: Config,
    /// The address of the ledger's account, which is the authority over the
    /// vault.
    pub config_key: Pubkey,
    /// The depositor, who signs.
    pub authority: Pubkey,
    /// The depositor's token account for receipt tokens.
    pub user_mryt: Pubkey,
    /// The receipt-token mint.
    pub mryt_mint: Pubkey,
    /// The vault that holds the collateral.
    pub vault_token_account: Pubkey,
    /// The token account that takes the depositor's collateral back.
    pub user_token_account: Pubkey,
    /// The depositor's position.
    pub staked_position: StakedPosition,
}

/// Accounts for simulating yield accrual.
#[derive(Clone, Copy, Debug, PartialEq, Eq)]
pub struct AccrueYield {
    pub config: Config,
}

/// Accounts for auto-compounding yield.
#[derive(Clone, Copy, Debug, PartialEq, Eq)]
pub struct AutoCompoundYield {
    pub config: Config,
}

/// Accounts for calculating the yield rate.
#[derive(Clone, Copy, Debug, PartialEq, Eq)]
pub struct CalculateApy {
    pub config: Config,
}

impl Deposit {
    /// The accounts of the transfer that moves collateral into the vault: out
    /// of the depositor's token account, on the depositor's authority.
    pub open spec fn transfer_to_vault(self) -> Transfer {
        Transfer {
            from: self.user_token_account,
            to: self.vault_token_account,
            authority: self.authority,
        }
    }

    /// The accounts of the request that mints receipt tokens: into the
    /// depositor's receipt account, on the authority of the ledger.
    pub open spec fn mint_to_user(self) -> MintTo {
        MintTo { mint: self.mryt_mint, to: self.user_mryt, authority: self.config_key }
    }

    /// The token requests of a deposit of `amount`: collateral goes into the
    /// vault first, then the receipt tokens are minted.
    pub open spec fn token_instructions(self, amount: u64) -> Seq<TokenInstruction> {
        seq![
            TokenInstruction::Transfer { transfer: self.transfer_to_vault(), amount },
            TokenInstruction::MintTo { mint_to: self.mint_to_user(), amount },
        ]
    }

    /// The accounts of the transfer that moves the depositor's collateral
    /// into the vault.
    pub fn into_transfer_to_vault_context(&self) -> (cpi_accounts: Transfer)
        ensures
            cpi_accounts == self.transfer_to_vault(),
    {
        Transfer {
            from: self.user_token_account,
            to: self.vault_token_account,
            authority: self.authority,
        }
    }

    /// The accounts of the request that mints receipt tokens to the
    /// depositor.
    pub fn into_mint_to_context(&self) -> (cpi_accounts: MintTo)
        ensures
            cpi_accounts == self.mint_to_user(),
    {
        // The ledger's account is the authority over the mint.
        MintTo { mint: self.mryt_mint, to: self.user_mryt, authority: self.config_key }
    }
}

impl Withdraw {
    /// The accounts of the request that burns receipt tokens: out of the
    /// depositor's receipt account, on the depositor's authority.
    pub open spec fn burn_from_user(self) -> Burn {
        Burn { mint: self.mryt_mint, from: self.user_mryt, authority: self.authority }
    }

    /// The accounts of the transfer that hands collateral back: out of the
    /// vault into the depositor's token account, on the authority of the
    /// ledger.
    pub open spec fn transfer_to_user(self) -> Transfer {
        Transfer {
            from: self.vault_token_account,
            to: self.user_token_account,
            authority: self.config_key,
        }
    }

    /// The token requests of a withdrawal of `amount`: the receipt tokens are
    /// burned first, then collateral leaves the vault.
    pub open spec fn token_instructions(self, amount: u64) -> Seq<TokenInstruction> {
        seq![
            TokenInstruction::Burn { burn: self.burn_from_user(), amount },
            TokenInstruction::Transfer { transfer: self.transfer_to_user(), amount },
        ]
    }

    /// The accounts of the request that burns the depositor's receipt
    /// tokens.
    pub fn into_burn_context(&self) -> (cpi_accounts: Burn)
        ensures
            cpi_accounts == self.burn_from_user(),
    {
        Burn { mint: self.mryt_mint, from: self.user_mryt, authority: self.authority }
    }

    /// The accounts of the transfer that hands collateral back to the
    /// depositor.
    pub fn into_transfer_to_user_context(&self) -> (cpi_accounts: Transfer)
        ensures
            cpi_accounts == self.transfer_to_user(),
    {
        // The ledger's account is the authority over the vault.
        Transfer {
            from: self.vault_token_account,
            to: self.user_token_account,
            authority: self.config_key,
        }
    }
}

} // verus!
