//! What holds of the protocol, whatever calls are made against it.

use crate::accounts::{Deposit, Withdraw};
use crate::error::ErrorCode;
use crate::model::{add_locked, clock_never_goes_back, locked_among, Operation, Protocol};
use crate::rules::{
    compound_effect, deposit_effect, reinvested_yield, reported_apy, withdraw_effect, Apy,
};
use crate::state::{Config, StakedPosition, MAX_WITHDRAWAL_PERCENT, MIN_LOCK_PERIOD};
use crate::token::total_credit_to;
use anchor_lang::prelude::Pubkey;
use vstd::prelude::*;
use vstd::set::fold::{lemma_fold_empty, lemma_fold_insert};

verus! {

/// The sum over a set of depositors depends only on the amounts of their own
/// positions.
proof fn lemma_locked_among_agrees(
    users: Set<Pubkey>,
    p: Map<Pubkey, StakedPosition>,
    q: Map<Pubkey, StakedPosition>,
)
    requires
        users.finite(),
        forall|user: Pubkey| users.contains(user) ==> p[user].amount == q[user].amount,
    ensures
        locked_among(users, p) == locked_among(users, q),
    decreases users.len(),
{
    if users.len() == 0 {
        assert(users =~= Set::empty());
        lemma_fold_empty::<Pubkey, nat>(0nat, add_locked(p));
        lemma_fold_empty::<Pubkey, nat>(0nat, add_locked(q));
    } else {
        let user = users.choose();
        let rest = users.remove(user);
        lemma_locked_among_agrees(rest, p, q);
        lemma_fold_insert(rest, 0nat, add_locked(p), user);
        lemma_fold_insert(rest, 0nat, add_locked(q), user);
    }
}

/// Recording a position for `user` changes the sum of all amounts by the
/// difference between the new amount and what `user` had locked before.
pub proof fn lemma_total_locked_insert(state: Protocol, user: Pubkey, position: StakedPosition)
    requires
        state.well_formed(),
    ensures
        (Protocol { positions: state.positions.insert(user, position), ..state }).total_locked()
            == state.total_locked() - state.position_of(user).amount + position.amount,
{
    let before = state.positions;
    let after = before.insert(user, position);
    let others = before.dom().remove(user);
    assert(after.dom() =~= others.insert(user));
    lemma_locked_among_agrees(others, before, after);
    lemma_fold_insert(others, 0nat, add_locked(after), user);
    if before.dom().contains(user) {
        lemma_fold_insert(others, 0nat, add_locked(before), user);
    } else {
        assert(before.dom() =~= others);
    }
}

/// A newly initialized protocol has its books in order: no receipt token is
/// outstanding and nothing is locked.
pub proof fn lemma_genesis_is_consistent(authority: Pubkey)
    ensures
        Protocol::genesis(authority).consistent(),
        Protocol::genesis(authority).ledger.total_mryt_supply == 0,
        Protocol::genesis(authority).total_locked() == 0,
{
    let state = Protocol::genesis(authority);
    lemma_fold_empty::<Pubkey, nat>(0nat, add_locked(state.positions));
}

/// No call creates or destroys a receipt token without a position to match:
/// if the receipt-token supply equals the sum of the amounts of all positions
/// before a call, it does so after the call, whether the call took effect or
/// was rejected.
pub proof fn lemma_step_conserves_supply(state: Protocol, op: Operation)
    requires
        state.well_formed(),
        state.supply_conserved(),
    ensures
        state.step(op).well_formed(),
        state.step(op).supply_conserved(),
{
    match op {
        Operation::Deposit { depositor, amount, now } => {
            let position = state.position_of(depositor);
            match deposit_effect(state.ledger, position, depositor, amount, now) {
                Ok((_, after)) => lemma_total_locked_insert(state, depositor, after),
                Err(_) => {},
            }
        },
        Operation::Withdraw { depositor, amount, now } => {
            if state.positions.dom().contains(depositor) {
                let position = state.positions[depositor];
                match withdraw_effect(state.ledger, position, amount, now) {
                    Ok((_, after)) => lemma_total_locked_insert(state, depositor, after),
                    Err(_) => {},
                }
            }
        },
        _ => {},
    }
}

/// The collateral under stake never falls below the receipt-token supply:
/// deposits and withdrawals move both alike, and compounding adds to the
/// stake alone.
pub proof fn lemma_step_keeps_stake_covering_supply(state: Protocol, op: Operation)
    requires
        state.stake_covers_supply(),
    ensures
        state.step(op).stake_covers_supply(),
{
}

/// The books stay in order at the end of a sequence of calls.
proof fn lemma_run_ends_consistent(state: Protocol, ops: Seq<Operation>)
    requires
        state.consistent(),
    ensures
        state.run(ops).consistent(),
    decreases ops.len(),
{
    if ops.len() > 0 {
        lemma_run_ends_consistent(state, ops.drop_last());
        lemma_step_conserves_supply(state.run(ops.drop_last()), ops.last());
        lemma_step_keeps_stake_covering_supply(state.run(ops.drop_last()), ops.last());
    }
}

/// From a state in which the books are in order, they are in order after
/// every call of any sequence of calls. In particular the receipt-token
/// supply then equals the sum of the amounts of all positions.
pub proof fn lemma_run_stays_consistent(state: Protocol, ops: Seq<Operation>)
    requires
        state.consistent(),
    ensures
        forall|n: int|
            0 <= n <= ops.len() ==> (#[trigger] state.run(ops.take(n))).consistent(),
{
    assert forall|n: int| 0 <= n <= ops.len() implies (#[trigger] state.run(
        ops.take(n),
    )).consistent() by {
        lemma_run_ends_consistent(state, ops.take(n));
    }
}

/// Whatever calls are made against a newly initialized protocol, after each
/// of them the receipt-token supply equals the sum of the amounts of all
/// positions.
pub proof fn lemma_supply_always_conserved(authority: Pubkey, ops: Seq<Operation>)
    ensures
        forall|n: int|
            0 <= n <= ops.len() ==> (#[trigger] Protocol::genesis(authority).run(
                ops.take(n),
            )).supply_conserved(),
{
    lemma_genesis_is_consistent(authority);
    lemma_run_stays_consistent(Protocol::genesis(authority), ops);
}

/// A deposit starts the lock of the position anew at the time of the
/// deposit. So when the clock has not gone back behind the start of the
/// current lock, the start does not move back, and when the clock has
/// advanced since, the start moves forward.
pub proof fn lemma_deposit_moves_lock_forward(
    config: Config,
    position: StakedPosition,
    depositor: Pubkey,
    amount: u64,
    now: i64,
)
    requires
        deposit_effect(config, position, depositor, amount, now) is Ok,
        position.deposit_time <= now,
    ensures
        ({
            let after = deposit_effect(config, position, depositor, amount, now)->Ok_0.1;
            &&& after.deposit_time == now
            &&& after.deposit_time >= position.deposit_time
            &&& position.deposit_time < now ==> after.deposit_time > position.deposit_time
        }),
{
}

/// The start of a lock changes on deposit only: after any call, a position
/// on record is still on record, and the start of its lock is what it was,
/// unless the call was a deposit of its owner that took effect.
pub proof fn lemma_lock_moves_on_deposit_only(state: Protocol, op: Operation, user: Pubkey)
    requires
        state.positions.dom().contains(user),
    ensures
        state.step(op).positions.dom().contains(user),
        state.step(op).positions[user].deposit_time != state.positions[user].deposit_time ==> {
            &&& op matches Operation::Deposit { depositor, amount, now }
            &&& depositor == user
            &&& deposit_effect(state.ledger, state.positions[user], user, amount, now) is Ok
            &&& state.step(op).positions[user].deposit_time == now
        },
{
}

/// The cap on a withdrawal is inclusive. Once the lock has run out, and
/// where the cap of the position can be computed in 64 bits, a withdrawal of
/// exactly the cap is not too high, and it takes effect if the ledger holds
/// that much. A withdrawal of anything above the cap is rejected as too high.
/// The cap is the given percentage of the balance, rounded down.
pub proof fn lemma_cap_is_inclusive(
    config: Config,
    position: StakedPosition,
    amount: u64,
    now: i64,
)
    requires
        position.lock_elapsed(now),
        position.amount * MAX_WITHDRAWAL_PERCENT <= u64::MAX,
    ensures
        amount > position.withdrawal_cap() <==> withdraw_effect(config, position, amount, now)
            == Err::<(Config, StakedPosition), ErrorCode>(ErrorCode::WithdrawalTooHigh),
        amount <= position.withdrawal_cap() && amount <= config.total_mryt_supply && amount
            <= config.total_staked ==> withdraw_effect(config, position, amount, now) is Ok,
        position.withdrawal_cap() * 100 <= position.amount * MAX_WITHDRAWAL_PERCENT
            < position.withdrawal_cap() * 100 + 100,
{
}

/// The end of the lock period is inclusive. A withdrawal is rejected as
/// early exactly when less than the lock period has passed since the latest
/// deposit. One second before the end of the period it is rejected. At the
/// end of the period to the second it is not, and it takes effect under the
/// conditions that hold at any later time.
pub proof fn lemma_lock_boundary_is_inclusive(
    config: Config,
    position: StakedPosition,
    amount: u64,
    now: i64,
)
    ensures
        now - position.deposit_time < MIN_LOCK_PERIOD <==> withdraw_effect(
            config,
            position,
            amount,
            now,
        ) == Err::<(Config, StakedPosition), ErrorCode>(ErrorCode::EarlyWithdrawal),
        now - position.deposit_time == MIN_LOCK_PERIOD - 1 ==> withdraw_effect(
            config,
            position,
            amount,
            now,
        ) == Err::<(Config, StakedPosition), ErrorCode>(ErrorCode::EarlyWithdrawal),
        now - position.deposit_time == MIN_LOCK_PERIOD && position.amount * MAX_WITHDRAWAL_PERCENT
            <= u64::MAX && amount <= position.withdrawal_cap() && amount
            <= config.total_mryt_supply && amount <= config.total_staked ==> withdraw_effect(
            config,
            position,
            amount,
            now,
        ) is Ok,
{
}

/// A deposit that would push the collateral under stake past the 64-bit
/// maximum is rejected for overflow, and it leaves the ledger and every
/// position as they were.
pub proof fn lemma_overflowing_deposit_is_rejected(
    state: Protocol,
    depositor: Pubkey,
    amount: u64,
    now: i64,
)
    requires
        state.ledger.total_staked + amount > u64::MAX,
    ensures
        deposit_effect(state.ledger, state.position_of(depositor), depositor, amount, now)
            == Err::<(Config, StakedPosition), ErrorCode>(ErrorCode::MathOverflow),
        state.deposit(depositor, amount, now) == state,
{
}

/// Where nothing is staked the reported rate is zero, whatever the yield.
/// Where the rate is a ratio, its stake is not zero, so forming the
/// percentage never divides by zero.
pub proof fn lemma_rate_is_zero_without_stake(config: Config)
    ensures
        config.total_staked == 0 ==> reported_apy(config) == Apy::Zero,
        reported_apy(config) matches Apy::Ratio { total_staked, .. } ==> total_staked > 0,
{
}

/// Reporting the rate changes nothing, so a second report with no other call
/// in between finds the ledger that the first one found, and gives the same
/// rate.
pub proof fn lemma_report_is_repeatable(state: Protocol)
    ensures
        state.step(Operation::CalculateApy) == state,
        reported_apy(state.step(Operation::CalculateApy).ledger) == reported_apy(state.ledger),
{
}

/// The reported rate depends on nothing but the collateral under stake and
/// the yield.
pub proof fn lemma_rate_depends_on_stake_and_yield(one: Config, other: Config)
    requires
        one.total_staked == other.total_staked,
        one.total_yield == other.total_yield,
    ensures
        reported_apy(one) == reported_apy(other),
{
}

/// A run of one call more is the run without it, followed by that call.
proof fn lemma_run_one_more(state: Protocol, ops: Seq<Operation>, n: int)
    requires
        0 <= n < ops.len(),
    ensures
        state.run(ops.take(n + 1)) == state.run(ops.take(n)).step(ops[n]),
{
    assert(ops.take(n + 1).drop_last() =~= ops.take(n));
}

/// Under a clock that does not go back, no lock on record starts later than
/// a call yet to come reads the clock.
proof fn lemma_locks_not_ahead_of_clock(authority: Pubkey, ops: Seq<Operation>, n: int)
    requires
        clock_never_goes_back(ops),
        0 <= n <= ops.len(),
    ensures
        forall|user: Pubkey, j: int|
            #![trigger Protocol::genesis(authority).run(ops.take(n)).positions[user], ops[j]]
            Protocol::genesis(authority).run(ops.take(n)).positions.dom().contains(user) && n <= j
                < ops.len() && ops[j].reading() is Some ==> Protocol::genesis(authority).run(
                ops.take(n),
            ).positions[user].deposit_time <= ops[j].reading()->Some_0,
    decreases n,
{
    if n > 0 {
        // What held before the latest call still holds of the locks that the
        // call left alone, and a lock that it started anew starts at the time
        // that the call read, which no later reading precedes.
        lemma_locks_not_ahead_of_clock(authority, ops, n - 1);
        lemma_run_one_more(Protocol::genesis(authority), ops, n - 1);
    }
}

/// Under a clock that does not go back, whatever calls are made against a
/// newly initialized protocol, no call moves the start of the lock of a
/// position back, and every position stays on record.
pub proof fn lemma_locks_never_move_back(
    authority: Pubkey,
    ops: Seq<Operation>,
    n: int,
    user: Pubkey,
)
    requires
        clock_never_goes_back(ops),
        0 <= n < ops.len(),
        Protocol::genesis(authority).run(ops.take(n)).positions.dom().contains(user),
    ensures
        Protocol::genesis(authority).run(ops.take(n + 1)).positions.dom().contains(user),
        Protocol::genesis(authority).run(ops.take(n + 1)).positions[user].deposit_time
            >= Protocol::genesis(authority).run(ops.take(n)).positions[user].deposit_time,
{
    let before = Protocol::genesis(authority).run(ops.take(n));
    lemma_run_one_more(Protocol::genesis(authority), ops, n);
    lemma_locks_not_ahead_of_clock(authority, ops, n);
    lemma_lock_moves_on_deposit_only(before, ops[n], user);
}

/// No position holds more than all positions together.
proof fn lemma_position_within_total(state: Protocol, user: Pubkey)
    requires
        state.well_formed(),
        state.positions.dom().contains(user),
    ensures
        state.positions[user].amount <= state.total_locked(),
{
    let others = state.positions.dom().remove(user);
    lemma_fold_insert(others, 0nat, add_locked(state.positions), user);
}

/// No counter is drawn below zero: where the books are in order, a
/// withdrawal within the cap, made once the lock has run out, takes effect,
/// unless the position is too large for its cap to be computed in 64 bits.
pub proof fn lemma_withdrawal_within_cap_takes_effect(
    state: Protocol,
    user: Pubkey,
    amount: u64,
    now: i64,
)
    requires
        state.consistent(),
        state.positions.dom().contains(user),
        state.positions[user].lock_elapsed(now),
        state.positions[user].amount * MAX_WITHDRAWAL_PERCENT <= u64::MAX,
        amount <= state.positions[user].withdrawal_cap(),
    ensures
        withdraw_effect(state.ledger, state.positions[user], amount, now) is Ok,
        state.withdraw(user, amount, now).positions[user].amount == state.positions[user].amount
            - amount,
        state.withdraw(user, amount, now).ledger.total_mryt_supply
            == state.ledger.total_mryt_supply - amount,
        state.withdraw(user, amount, now).ledger.total_staked == state.ledger.total_staked
            - amount,
{
    lemma_position_within_total(state, user);
}

/// Compounding credits the pool and no depositor: it moves the reinvested
/// half of the yield into the collateral under stake, and leaves the
/// receipt-token supply and every position as they were.
pub proof fn lemma_compounding_credits_no_position(state: Protocol)
    requires
        compound_effect(state.ledger) is Ok,
    ensures
        ({
            let after = state.step(Operation::AutoCompoundYield);
            &&& after.positions == state.positions
            &&& after.ledger.total_mryt_supply == state.ledger.total_mryt_supply
            &&& after.ledger.total_staked == state.ledger.total_staked + reinvested_yield(
                state.ledger,
            )
            &&& after.ledger.total_yield == state.ledger.total_yield - reinvested_yield(
                state.ledger,
            )
        }),
{
}

/// A deposit is a step of the protocol: where the accounts of a deposit hold
/// the ledger and the depositor's position as the protocol has them, storing
/// what the deposit made of them gives the state after that call.
pub proof fn lemma_deposit_is_a_step(
    state: Protocol,
    before: Deposit,
    after: Deposit,
    amount: u64,
    now: i64,
)
    requires
        before.config == state.ledger,
        before.staked_position == state.position_of(before.authority),
        deposit_effect(before.config, before.staked_position, before.authority, amount, now)
            == Ok::<(Config, StakedPosition), ErrorCode>((after.config, after.staked_position)),
    ensures
        state.step(Operation::Deposit { depositor: before.authority, amount, now }) == (Protocol {
            ledger: after.config,
            positions: state.positions.insert(before.authority, after.staked_position),
        }),
{
}

/// A withdrawal is a step of the protocol: where the accounts of a
/// withdrawal hold the ledger and the depositor's position as the protocol
/// has them, storing what the withdrawal made of them gives the state after
/// that call.
pub proof fn lemma_withdrawal_is_a_step(
    state: Protocol,
    before: Withdraw,
    after: Withdraw,
    amount: u64,
    now: i64,
)
    requires
        before.config == state.ledger,
        state.positions.dom().contains(before.authority),
        before.staked_position == state.positions[before.authority],
        withdraw_effect(before.config, before.staked_position, amount, now) == Ok::<
            (Config, StakedPosition),
            ErrorCode,
        >((after.config, after.staked_position)),
    ensures
        state.step(Operation::Withdraw { depositor: before.authority, amount, now }) == (Protocol {
            ledger: after.config,
            positions: state.positions.insert(before.authority, after.staked_position),
        }),
{
}

/// A deposit books what it moves: where the vault and the depositor's two
/// token accounts are three different accounts, the token requests of a
/// deposit add to the vault what the deposit adds to the collateral under
/// stake, take the same from the depositor's collateral, and add to the
/// depositor's receipt tokens what the deposit adds to the receipt-token
/// supply and to the position.
pub proof fn lemma_deposit_books_what_it_moves(before: Deposit, amount: u64, now: i64)
    requires
        before.vault_token_account != before.user_token_account,
        before.vault_token_account != before.user_mryt,
        before.user_token_account != before.user_mryt,
        deposit_effect(before.config, before.staked_position, before.authority, amount, now) is Ok,
    ensures
        ({
            let (config, position) = deposit_effect(
                before.config,
                before.staked_position,
                before.authority,
                amount,
                now,
            )->Ok_0;
            let requests = before.token_instructions(amount);
            &&& total_credit_to(requests, before.vault_token_account) == config.total_staked
                - before.config.total_staked
            &&& total_credit_to(requests, before.user_token_account) == -(config.total_staked
                - before.config.total_staked)
            &&& total_credit_to(requests, before.user_mryt) == config.total_mryt_supply
                - before.config.total_mryt_supply
            &&& total_credit_to(requests, before.user_mryt) == position.amount
                - before.staked_position.amount
        }),
{
    reveal_with_fuel(total_credit_to, 3);
}

/// A withdrawal books what it moves: where the vault and the depositor's two
/// token accounts are three different accounts, the token requests of a
/// withdrawal take from the vault what the withdrawal takes from the
/// collateral under stake, add the same to the depositor's collateral, and
/// take from the depositor's receipt tokens what the withdrawal takes from
/// the receipt-token supply and from the position.
pub proof fn lemma_withdrawal_books_what_it_moves(before: Withdraw, amount: u64, now: i64)
    requires
        before.vault_token_account != before.user_token_account,
        before.vault_token_account != before.user_mryt,
        before.user_token_account != before.user_mryt,
        withdraw_effect(before.config, before.staked_position, amount, now) is Ok,
    ensures
        ({
            let (config, position) = withdraw_effect(
                before.config,
                before.staked_position,
                amount,
                now,
            )->Ok_0;
            let requests = before.token_instructions(amount);
            &&& total_credit_to(requests, before.vault_token_account) == config.total_staked
                - before.config.total_staked
            &&& total_credit_to(requests, before.user_token_account) == -(config.total_staked
                - before.config.total_staked)
            &&& total_credit_to(requests, before.user_mryt) == config.total_mryt_supply
                - before.config.total_mryt_supply
            &&& total_credit_to(requests, before.user_mryt) == position.amount
                - before.staked_position.amount
        }),
{
    reveal_with_fuel(total_credit_to, 3);
}

} // verus!
