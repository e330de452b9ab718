//! The transfer transaction: funds move from one account of a store to
//! another, or nothing in the store changes at all.

use vstd::prelude::*;
use crate::account_number::AccountNumber;
use crate::response::ResponseStatus;
use crate::secure_account::{withdrawal, WithdrawError};
use crate::store::AccountStore;

verus! {

/// Why a transfer was called off.
#[derive(Clone, Copy, Debug, PartialEq, Eq, Structural)]
pub enum AbortReason {
    /// Source and destination are the same account.
    SameAccount,
    /// The store holds no account under the source number.
    SourceNotFound,
    /// The store holds no account under the destination number.
    DestinationNotFound,
    /// The amount is positive and exceeds the balance of the source.
    InsufficientFunds,
    /// The amount is zero or negative.
    InvalidAmount,
}

/// How a transfer ended.
#[derive(Clone, Copy, Debug, PartialEq, Eq, Structural)]
pub enum TransferOutcome {
    /// The source was debited and the destination credited.
    Committed,
    /// Nothing was changed.
    Aborted(AbortReason),
}

/// How a transfer of `amount` from `from` to `to` ends on a store with these
/// balances. The conditions are taken in a fixed order: the two numbers, the
/// source, the destination, the amount, the funds.
pub open spec fn transfer_outcome(
    balances: Map<AccountNumber, int>,
    from: AccountNumber,
    to: AccountNumber,
    amount: int,
) -> TransferOutcome {
    if from == to {
        TransferOutcome::Aborted(AbortReason::SameAccount)
    } else if !balances.contains_key(from) {
        TransferOutcome::Aborted(AbortReason::SourceNotFound)
    } else if !balances.contains_key(to) {
        TransferOutcome::Aborted(AbortReason::DestinationNotFound)
    } else {
        match withdrawal(balances[from], amount) {
            Ok(_) => TransferOutcome::Committed,
            Err(WithdrawError::InvalidAmount) => TransferOutcome::Aborted(
                AbortReason::InvalidAmount,
            ),
            Err(WithdrawError::InsufficientFunds) => TransferOutcome::Aborted(
                AbortReason::InsufficientFunds,
            ),
        }
    }
}

/// The balances that the transfer leaves: those of a committed transfer
/// differ from the old ones at the two accounts, by `amount` each way.
pub open spec fn balances_after_transfer(
    balances: Map<AccountNumber, int>,
    from: AccountNumber,
    to: AccountNumber,
    amount: int,
) -> Map<AccountNumber, int> {
    if transfer_outcome(balances, from, to, amount) == TransferOutcome::Committed {
        balances.insert(from, balances[from] - amount).insert(to, balances[to] + amount)
    } else {
        balances
    }
}

/// Whether the destination can take the credit: a committed transfer must
/// leave a balance that the machine integer holds.
pub open spec fn credit_fits(
    balances: Map<AccountNumber, int>,
    from: AccountNumber,
    to: AccountNumber,
    amount: int,
) -> bool {
    transfer_outcome(balances, from, to, amount) == TransferOutcome::Committed ==> balances[to]
        + amount <= i32::MAX
}

/// No account is overdrawn.
pub open spec fn non_negative(balances: Map<AccountNumber, int>) -> bool {
    forall|number: AccountNumber| #[trigger]
        balances.contains_key(number) ==> balances[number] >= 0
}

impl AbortReason {
    /// The reason that a refused withdrawal gives to the transfer around it.
    pub fn from_withdrawal(error: WithdrawError) -> (reason: Self)
        ensures
            reason == match error {
                WithdrawError::InvalidAmount => AbortReason::InvalidAmount,
                WithdrawError::InsufficientFunds => AbortReason::InsufficientFunds,
            },
    {
        match error {
            WithdrawError::InvalidAmount => AbortReason::InvalidAmount,
            WithdrawError::InsufficientFunds => AbortReason::InsufficientFunds,
        }
    }
}

impl TransferOutcome {
    /// The status that the outcome is reported with, for use in contracts: a
    /// missing account is not found, every other refusal is a bad request.
    pub open spec fn spec_status(self) -> ResponseStatus {
        match self {
            TransferOutcome::Committed => ResponseStatus::Success,
            TransferOutcome::Aborted(reason) => if reason == AbortReason::SourceNotFound || reason
                == AbortReason::DestinationNotFound {
                ResponseStatus::NotFound
            } else {
                ResponseStatus::BadRequest
            },
        }
    }

    /// The text that the outcome is reported with, for use in contracts.
    pub open spec fn spec_message(self) -> Seq<char> {
        match self {
            TransferOutcome::Committed => "Secure transfer successful."@,
            TransferOutcome::Aborted(AbortReason::SameAccount) =>
                "Sender and receiver accounts cannot be the same."@,
            TransferOutcome::Aborted(AbortReason::SourceNotFound) => "Sender account not found."@,
            TransferOutcome::Aborted(AbortReason::DestinationNotFound) =>
                "Receiver account not found."@,
            TransferOutcome::Aborted(AbortReason::InsufficientFunds) =>
                WithdrawError::InsufficientFunds.spec_message(),
            TransferOutcome::Aborted(AbortReason::InvalidAmount) =>
                WithdrawError::InvalidAmount.spec_message(),
        }
    }

    /// The status that the outcome is reported with.
    pub fn status(&self) -> (status: ResponseStatus)
        ensures
            status == self.spec_status(),
    {
        match self {
            TransferOutcome::Committed => ResponseStatus::Success,
            TransferOutcome::Aborted(AbortReason::SourceNotFound) => ResponseStatus::NotFound,
            TransferOutcome::Aborted(AbortReason::DestinationNotFound) => ResponseStatus::NotFound,
            TransferOutcome::Aborted(_) => ResponseStatus::BadRequest,
        }
    }

    /// The text that the outcome is reported with. A refused withdrawal
    /// speaks for itself.
    pub fn message(&self) -> (text: &'static str)
        ensures
            text@ == self.spec_message(),
    {
        match self {
            TransferOutcome::Committed => "Secure transfer successful.",
            TransferOutcome::Aborted(AbortReason::SameAccount) => {
                "Sender and receiver accounts cannot be the same."
            },
            TransferOutcome::Aborted(AbortReason::SourceNotFound) => "Sender account not found.",
            TransferOutcome::Aborted(AbortReason::DestinationNotFound) => {
                "Receiver account not found."
            },
            TransferOutcome::Aborted(AbortReason::InsufficientFunds) => {
                WithdrawError::InsufficientFunds.message()
            },
            TransferOutcome::Aborted(AbortReason::InvalidAmount) => {
                WithdrawError::InvalidAmount.message()
            },
        }
    }
}

/// Tells whether `secure_transfer` may be called on these arguments.
pub fn transfer_fits(
    accounts: &AccountStore,
    from: AccountNumber,
    to: AccountNumber,
    amount: i32,
) -> (fits: bool)
    ensures
        fits == credit_fits(accounts@, from, to, amount as int),
{
    if from == to || amount <= 0 {
        return true;
    }
    match (accounts.get(from), accounts.get(to)) {
        (Some(source), Some(destination)) => source.balance() < amount || destination.balance()
            <= i32::MAX - amount,
        _ => true,
    }
}

/// Moves `amount` from the account under `from` to the account under `to`.
///
/// Both accounts are taken out of the store, the source is debited and the
/// destination credited, and both are filed again. Whenever a condition fails,
/// what was taken out goes back unchanged.
///
/// The transfer is atomic: called off, it leaves every balance as it was.
/// Committed, it keeps the sum of the two balances. A transfer from an
/// account to itself is always called off, whatever the amount, and so is
/// one between two accounts for a positive amount that the source does not
/// hold. The store keeps its accounts, and none of them is overdrawn unless
/// one was before.
pub fn secure_transfer(
    accounts: &mut AccountStore,
    from: AccountNumber,
    to: AccountNumber,
    amount: i32,
) -> (outcome: TransferOutcome)
    requires
        credit_fits(old(accounts)@, from, to, amount as int),
    ensures
        outcome == transfer_outcome(old(accounts)@, from, to, amount as int),
        final(accounts)@ == balances_after_transfer(old(accounts)@, from, to, amount as int),
        final(accounts)@.dom() == old(accounts)@.dom(),
        outcome is Aborted ==> final(accounts)@ == old(accounts)@,
        outcome is Committed ==> final(accounts)@[from] + final(accounts)@[to] == old(
            accounts,
        )@[from] + old(accounts)@[to],
        from == to ==> outcome == TransferOutcome::Aborted(AbortReason::SameAccount),
        from != to && old(accounts)@.contains_key(from) && old(accounts)@.contains_key(to) && 0
            < amount && old(accounts)@[from] < amount ==> outcome == TransferOutcome::Aborted(
            AbortReason::InsufficientFunds,
        ) && final(accounts)@ == old(accounts)@,
        non_negative(old(accounts)@) ==> non_negative(final(accounts)@),
{
    if from == to {
        return TransferOutcome::Aborted(AbortReason::SameAccount);
    }
    let mut from_account = match accounts.remove(from) {
        Some(account) => account,
        None => {
            return TransferOutcome::Aborted(AbortReason::SourceNotFound);
        },
    };
    let mut to_account = match accounts.remove(to) {
        Some(account) => account,
        None => {
            accounts.insert(from_account);
            return TransferOutcome::Aborted(AbortReason::DestinationNotFound);
        },
    };
    if let Err(error) = from_account.withdraw(amount) {
        accounts.insert(from_account);
        accounts.insert(to_account);
        return TransferOutcome::Aborted(AbortReason::from_withdrawal(error));
    }
    to_account.deposit(amount);
    accounts.insert(from_account);
    accounts.insert(to_account);
    TransferOutcome::Committed
}

} // verus!
