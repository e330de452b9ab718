//! Histories of a ledger: what a run of transfers and deposits makes of the
//! balances, and what holds after every step of it.

use vstd::prelude::*;
use crate::account_number::AccountNumber;
use crate::secure_account::balance_after_deposit;
use crate::transfer::{balances_after_transfer, non_negative};

verus! {

/// One step of a history.
pub ghost enum Operation {
    /// A transfer transaction, committed or called off.
    Transfer { from: AccountNumber, to: AccountNumber, amount: int },
    /// A deposit on the account under `account`, if the ledger has one.
    Deposit { account: AccountNumber, amount: int },
}

/// The balances after one operation.
pub open spec fn apply(balances: Map<AccountNumber, int>, operation: Operation) -> Map<
    AccountNumber,
    int,
> {
    match operation {
        Operation::Transfer { from, to, amount } => balances_after_transfer(
            balances,
            from,
            to,
            amount,
        ),
        Operation::Deposit { account, amount } => if balances.contains_key(account) {
            balances.insert(account, balance_after_deposit(balances[account], amount))
        } else {
            balances
        },
    }
}

/// The balances after a run of operations, the first of them applied first.
pub open spec fn replay(balances: Map<AccountNumber, int>, operations: Seq<Operation>) -> Map<
    AccountNumber,
    int,
>
    decreases operations.len(),
{
    if operations.len() == 0 {
        balances
    } else {
        apply(replay(balances, operations.drop_last()), operations.last())
    }
}

/// One operation overdraws no account of a ledger in which none was
/// overdrawn.
pub proof fn lemma_apply_keeps_non_negative(
    balances: Map<AccountNumber, int>,
    operation: Operation,
)
    requires
        non_negative(balances),
    ensures
        non_negative(apply(balances, operation)),
{
}

/// A ledger that starts without an overdrawn account has none after any
/// number of steps of any history of transfers and deposits.
pub proof fn lemma_history_keeps_non_negative(
    balances: Map<AccountNumber, int>,
    operations: Seq<Operation>,
    steps: int,
)
    requires
        non_negative(balances),
        0 <= steps <= operations.len(),
    ensures
        non_negative(replay(balances, operations.take(steps))),
    decreases steps,
{
    let done = operations.take(steps);
    if steps > 0 {
        lemma_history_keeps_non_negative(balances, operations, steps - 1);
        assert(done.drop_last() == operations.take(steps - 1));
        lemma_apply_keeps_non_negative(replay(balances, done.drop_last()), done.last());
    }
}

} // verus!
