//! The protocol as a whole: the ledger together with every position, and the
//! calls that can be made against them.
//!
//! The operations work on one ledger and one position at a time. What must
//! hold of all positions together is stated over this model, in which the
//! positions are a map from depositor to position and one call is one step.

use crate::rules::{accrue_effect, compound_effect, deposit_effect, initial_config, withdraw_effect};
use crate::state::{Config, StakedPosition};
use anchor_lang::prelude::Pubkey;
use vstd::prelude::*;

verus! {

/// The state of the whole protocol.
pub struct Protocol {
    /// The ledger.
    pub ledger: Config,
    /// The position of every depositor who has one.
    pub positions: Map<Pubkey, StakedPosition>,
}

/// One call against the protocol.
pub enum Operation {
    /// `depositor` deposits `amount` at the time `now`.
    Deposit { depositor: Pubkey, amount: u64, now: i64 },
    /// `depositor` withdraws `amount` at the time `now`.
    Withdraw { depositor: Pubkey, amount: u64, now: i64 },
    /// Yield accrues.
    AccrueYield,
    /// Yield is compounded.
    AutoCompoundYield,
    /// The yield rate is reported.
    CalculateApy,
}

impl Operation {
    /// The time at which the call is made, where the call reads the clock.
    pub open spec fn reading(self) -> Option<i64> {
        match self {
            Operation::Deposit { now, .. } => Some(now),
            Operation::Withdraw { now, .. } => Some(now),
            _ => None,
        }
    }
}

/// The clock does not go back in the course of `ops`: of two calls that read
/// it, the later one reads no earlier time.
pub open spec fn clock_never_goes_back(ops: Seq<Operation>) -> bool {
    forall|i: int, j: int|
        #![trigger ops[i], ops[j]]
        0 <= i <= j < ops.len() ==> match (ops[i].reading(), ops[j].reading()) {
            (Some(earlier), Some(later)) => earlier <= later,
            _ => true,
        }
}

/// Adds the amount locked for `user` in `positions` to a running sum.
pub open spec fn add_locked(positions: Map<Pubkey, StakedPosition>) -> spec_fn(nat, Pubkey) -> nat {
    |sum: nat, user: Pubkey| sum + positions[user].amount as nat
}

/// The sum of the amounts of the positions of `users`.
pub open spec fn locked_among(
    users: Set<Pubkey>,
    positions: Map<Pubkey, StakedPosition>,
) -> nat {
    users.fold(0nat, add_locked(positions))
}

impl Protocol {
    /// The protocol right after initialization by `authority`: all counters
    /// zero and no position.
    pub open spec fn genesis(authority: Pubkey) -> Protocol {
        Protocol { ledger: initial_config(authority), positions: Map::empty() }
    }

    /// Only finitely many depositors have a position.
    pub open spec fn well_formed(self) -> bool {
        self.positions.dom().finite()
    }

    /// The position that an operation of `depositor` loads: the one on
    /// record, or a newly created one with nothing locked.
    pub open spec fn position_of(self, depositor: Pubkey) -> StakedPosition {
        if self.positions.dom().contains(depositor) {
            self.positions[depositor]
        } else {
            StakedPosition::opened(depositor)
        }
    }

    /// The sum of the amounts of all positions.
    pub open spec fn total_locked(self) -> nat {
        locked_among(self.positions.dom(), self.positions)
    }

    /// Every receipt token outstanding stands for a unit locked in some
    /// position, and the other way round.
    pub open spec fn supply_conserved(self) -> bool {
        self.ledger.total_mryt_supply == self.total_locked()
    }

    /// The collateral under stake covers the receipt tokens outstanding. It
    /// exceeds them by what compounding has added to the pool.
    pub open spec fn stake_covers_supply(self) -> bool {
        self.ledger.total_staked >= self.ledger.total_mryt_supply
    }

    /// The books are in order: the positions are finitely many, the
    /// receipt-token supply is the sum of their amounts, and the collateral
    /// under stake covers it.
    pub open spec fn consistent(self) -> bool {
        &&& self.well_formed()
        &&& self.supply_conserved()
        &&& self.stake_covers_supply()
    }

    /// The state after a deposit. A depositor without a position gets one. A
    /// rejected deposit leaves the state as it was.
    pub open spec fn deposit(self, depositor: Pubkey, amount: u64, now: i64) -> Protocol {
        match deposit_effect(self.ledger, self.position_of(depositor), depositor, amount, now) {
            Ok((ledger, position)) => Protocol {
                ledger,
                positions: self.positions.insert(depositor, position),
            },
            Err(_) => self,
        }
    }

    /// The state after a withdrawal. A withdrawal that is rejected, or made by
    /// someone without a position, leaves the state as it was.
    pub open spec fn withdraw(self, depositor: Pubkey, amount: u64, now: i64) -> Protocol {
        if !self.positions.dom().contains(depositor) {
            self
        } else {
            match withdraw_effect(self.ledger, self.positions[depositor], amount, now) {
                Ok((ledger, position)) => Protocol {
                    ledger,
                    positions: self.positions.insert(depositor, position),
                },
                Err(_) => self,
            }
        }
    }

    /// The state after one call.
    pub open spec fn step(self, op: Operation) -> Protocol {
        match op {
            Operation::Deposit { depositor, amount, now } => self.deposit(depositor, amount, now),
            Operation::Withdraw { depositor, amount, now } => self.withdraw(depositor, amount, now),
            Operation::AccrueYield => match accrue_effect(self.ledger) {
                Ok(ledger) => Protocol { ledger, ..self },
                Err(_) => self,
            },
            Operation::AutoCompoundYield => match compound_effect(self.ledger) {
                Ok(ledger) => Protocol { ledger, ..self },
                Err(_) => self,
            },
            Operation::CalculateApy => self,
        }
    }

    /// The state after a sequence of calls, made one after the other.
    pub open spec fn run(self, ops: Seq<Operation>) -> Protocol
        decreases ops.len(),
    {
        if ops.len() == 0 {
            self
        } else {
            self.run(ops.drop_last()).step(ops.last())
        }
    }
}

} // verus!
