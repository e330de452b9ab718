//! The unguarded account, kept for contrast: its balance is an open field,
//! and a transfer between such accounts asks only whether they exist.

use std::collections::HashMap;
use vstd::prelude::*;
use crate::account_number::{AccountNumber, fresh_account_number, is_random_number};
use crate::response::ResponseStatus;

verus! {

/// An account whose number and balance anyone may read and write.
#[derive(Debug)]
pub struct BankAccount {
    pub account_number: AccountNumber,
    pub balance: i32,
}

impl Clone for BankAccount {
    fn clone(&self) -> (copy: Self)
        ensures
            copy == *self,
    {
        Self { account_number: self.account_number, balance: self.balance }
    }
}

/// How an unguarded transfer ended.
#[derive(Clone, Copy, Debug, PartialEq, Eq, Structural)]
pub enum VulnerableOutcome {
    /// The sender was debited and the receiver credited.
    Processed,
    /// There is no account under the sender's number; nothing was changed.
    SenderNotFound,
    /// There is no account under the receiver's number; the sender was
    /// debited all the same.
    ReceiverNotFound,
}

impl BankAccount {
    /// Opens an account under a freshly drawn number. The initial balance is
    /// taken as it is, whatever its sign.
    pub fn new(initial_balance: i32) -> (account: Self)
        ensures
            account.balance == initial_balance,
            is_random_number(account.account_number),
    {
        Self { account_number: fresh_account_number(), balance: initial_balance }
    }

    /// This account with `change` added to its balance.
    pub open spec fn adjusted(self, change: int) -> Self {
        BankAccount { account_number: self.account_number, balance: (self.balance + change) as i32 }
    }
}

/// The accounts with the balance under `number` changed by `change`, where
/// there is an account under that number.
pub open spec fn accounts_after_adjustment(
    accounts: Map<AccountNumber, BankAccount>,
    number: AccountNumber,
    change: int,
) -> Map<AccountNumber, BankAccount> {
    if accounts.contains_key(number) {
        accounts.insert(number, accounts[number].adjusted(change))
    } else {
        accounts
    }
}

/// How an unguarded transfer ends: only the presence of the two accounts is
/// looked at, the sender's first.
pub open spec fn vulnerable_outcome(
    accounts: Map<AccountNumber, BankAccount>,
    from: AccountNumber,
    to: AccountNumber,
) -> VulnerableOutcome {
    if !accounts.contains_key(from) {
        VulnerableOutcome::SenderNotFound
    } else if !accounts.contains_key(to) {
        VulnerableOutcome::ReceiverNotFound
    } else {
        VulnerableOutcome::Processed
    }
}

/// The accounts that an unguarded transfer leaves. Without a sender nothing
/// is changed. The debit is made as soon as the sender is found, and stays
/// where the receiver is missing.
pub open spec fn accounts_after_vulnerable_transfer(
    accounts: Map<AccountNumber, BankAccount>,
    from: AccountNumber,
    to: AccountNumber,
    amount: int,
) -> Map<AccountNumber, BankAccount> {
    if accounts.contains_key(from) {
        accounts_after_adjustment(accounts_after_adjustment(accounts, from, -amount), to, amount)
    } else {
        accounts
    }
}

/// Whether a change of the balance under `number` stays within the machine
/// integer.
pub open spec fn adjustment_fits(
    accounts: Map<AccountNumber, BankAccount>,
    number: AccountNumber,
    change: int,
) -> bool {
    accounts.contains_key(number) ==> i32::MIN <= accounts[number].balance + change <= i32::MAX
}

/// Whether the debit and the credit of an unguarded transfer both stay
/// within the machine integer.
pub open spec fn debit_and_credit_fit(
    accounts: Map<AccountNumber, BankAccount>,
    from: AccountNumber,
    to: AccountNumber,
    amount: int,
) -> bool {
    accounts.contains_key(from) ==> adjustment_fits(accounts, from, -amount) && adjustment_fits(
        accounts_after_adjustment(accounts, from, -amount),
        to,
        amount,
    )
}

impl VulnerableOutcome {
    /// The status that the outcome is reported with, for use in contracts.
    pub open spec fn spec_status(self) -> ResponseStatus {
        if self == VulnerableOutcome::Processed {
            ResponseStatus::Success
        } else {
            ResponseStatus::NotFound
        }
    }

    /// The text that the outcome is reported with, for use in contracts.
    pub open spec fn spec_message(self) -> Seq<char> {
        match self {
            VulnerableOutcome::Processed => "Vulnerable transfer processed."@,
            VulnerableOutcome::SenderNotFound => "Sender account not found"@,
            VulnerableOutcome::ReceiverNotFound => "Receiver account not found"@,
        }
    }

    /// The status that the outcome is reported with.
    pub fn status(&self) -> (status: ResponseStatus)
        ensures
            status == self.spec_status(),
    {
        match self {
            VulnerableOutcome::Processed => ResponseStatus::Success,
            _ => ResponseStatus::NotFound,
        }
    }

    /// The text that the outcome is reported with.
    pub fn message(&self) -> (text: &'static str)
        ensures
            text@ == self.spec_message(),
    {
        match self {
            VulnerableOutcome::Processed => "Vulnerable transfer processed.",
            VulnerableOutcome::SenderNotFound => "Sender account not found",
            VulnerableOutcome::ReceiverNotFound => "Receiver account not found",
        }
    }
}

/// Tells whether the balance under `number` can take `change`.
fn can_adjust(
    accounts: &HashMap<AccountNumber, BankAccount>,
    number: AccountNumber,
    change: i64,
) -> (fits: bool)
    requires
        -0x8000_0000 <= change <= 0x8000_0000,
    ensures
        fits == adjustment_fits(accounts@, number, change as int),
{
    match accounts.get(&number) {
        Some(account) => {
            let balance: i64 = account.balance as i64 + change;
            -0x8000_0000 <= balance && balance <= 0x7FFF_FFFF
        },
        None => true,
    }
}

/// Changes the balance under `number` by `change` and tells whether there
/// was an account to change.
fn adjust(
    accounts: &mut HashMap<AccountNumber, BankAccount>,
    number: AccountNumber,
    change: i64,
) -> (found: bool)
    requires
        -0x8000_0000 <= change <= 0x8000_0000,
        adjustment_fits(old(accounts)@, number, change as int),
    ensures
        found == old(accounts)@.contains_key(number),
        final(accounts)@ == accounts_after_adjustment(old(accounts)@, number, change as int),
{
    let adjusted = match accounts.get(&number) {
        Some(account) => BankAccount {
            account_number: account.account_number,
            balance: (account.balance as i64 + change) as i32,
        },
        None => {
            return false;
        },
    };
    accounts.insert(number, adjusted);
    true
}

/// Tells whether `vulnerable_transfer` may be called on these arguments.
pub fn vulnerable_transfer_fits(
    accounts: &HashMap<AccountNumber, BankAccount>,
    from: AccountNumber,
    to: AccountNumber,
    amount: i32,
) -> (fits: bool)
    ensures
        fits == debit_and_credit_fit(accounts@, from, to, amount as int),
{
    if !accounts.contains_key(&from) {
        return true;
    }
    if !can_adjust(accounts, from, -(amount as i64)) {
        return false;
    }
    from == to || can_adjust(accounts, to, amount as i64)
}

/// Debits the account under `from` and credits the account under `to`,
/// without a look at the amount or at the funds.
///
/// Nothing is rolled back: where the receiver is missing the sender has paid
/// all the same, and a negative amount moves funds the other way.
pub fn vulnerable_transfer(
    accounts: &mut HashMap<AccountNumber, BankAccount>,
    from: AccountNumber,
    to: AccountNumber,
    amount: i32,
) -> (outcome: VulnerableOutcome)
    requires
        debit_and_credit_fit(old(accounts)@, from, to, amount as int),
    ensures
        outcome == vulnerable_outcome(old(accounts)@, from, to),
        final(accounts)@ == accounts_after_vulnerable_transfer(
            old(accounts)@,
            from,
            to,
            amount as int,
        ),
{
    if !adjust(accounts, from, -(amount as i64)) {
        return VulnerableOutcome::SenderNotFound;
    }
    if !adjust(accounts, to, amount as i64) {
        return VulnerableOutcome::ReceiverNotFound;
    }
    VulnerableOutcome::Processed
}

} // verus!
