//! The validated account: its balance changes only through `deposit` and
//! `withdraw`, which refuse amounts that are not positive and never overdraw.

use vstd::prelude::*;
use crate::account_number::{AccountNumber, fresh_account_number, is_random_number};

verus! {

/// Why a withdrawal was refused.
#[derive(Clone, Copy, Debug, PartialEq, Eq, Structural)]
pub enum WithdrawError {
    /// The amount was zero or negative.
    InvalidAmount,
    /// The amount was positive and larger than the balance.
    InsufficientFunds,
}

/// An account with a public number and a guarded balance.
#[derive(Debug)]
pub struct BankAccount {
    pub account_number: AccountNumber,
    balance: i32,
}

/// The mathematical view of an account: its number and its balance.
pub ghost struct AccountView {
    pub account_number: AccountNumber,
    pub balance: int,
}

impl View for BankAccount {
    type V = AccountView;

    closed spec fn view(&self) -> AccountView {
        AccountView { account_number: self.account_number, balance: self.balance as int }
    }
}

impl Clone for BankAccount {
    fn clone(&self) -> (copy: Self)
        ensures
            copy == *self,
    {
        Self { account_number: self.account_number, balance: self.balance }
    }
}

/// The balance that a deposit of `amount` leaves on an account that held
/// `balance`: amounts that are not positive change nothing.
pub open spec fn balance_after_deposit(balance: int, amount: int) -> int {
    if amount > 0 {
        balance + amount
    } else {
        balance
    }
}

/// What a withdrawal of `amount` from an account that holds `balance` comes
/// to: the balance that is left, or the reason for which nothing is taken.
pub open spec fn withdrawal(balance: int, amount: int) -> Result<int, WithdrawError> {
    if amount <= 0 {
        Err(WithdrawError::InvalidAmount)
    } else if balance < amount {
        Err(WithdrawError::InsufficientFunds)
    } else {
        Ok(balance - amount)
    }
}

impl WithdrawError {
    /// The text that explains the refusal, for use in contracts.
    pub open spec fn spec_message(self) -> Seq<char> {
        match self {
            WithdrawError::InvalidAmount => "Withdrawal amount must be positive."@,
            WithdrawError::InsufficientFunds => "Insufficient funds."@,
        }
    }

    /// The text that explains the refusal.
    pub fn message(&self) -> (text: &'static str)
        ensures
            text@ == self.spec_message(),
    {
        match self {
            WithdrawError::InvalidAmount => "Withdrawal amount must be positive.",
            WithdrawError::InsufficientFunds => "Insufficient funds.",
        }
    }
}

impl BankAccount {
    /// Opens an account under a freshly drawn number. The initial balance is
    /// taken as it is, whatever its sign.
    pub fn new(initial_balance: i32) -> (account: Self)
        ensures
            account@.balance == initial_balance,
            is_random_number(account@.account_number),
    {
        Self::with_number(fresh_account_number(), initial_balance)
    }

    /// Opens an account under the given number. The initial balance is taken
    /// as it is, whatever its sign.
    pub fn with_number(account_number: AccountNumber, initial_balance: i32) -> (account: Self)
        ensures
            account@ == (AccountView { account_number, balance: initial_balance as int }),
    {
        Self { account_number, balance: initial_balance }
    }

    /// The number of the account.
    pub fn number(&self) -> (number: AccountNumber)
        ensures
            number == self@.account_number,
    {
        self.account_number
    }

    /// The current balance.
    pub fn balance(&self) -> (balance: i32)
        ensures
            balance == self@.balance,
    {
        self.balance
    }

    /// Adds a positive `amount` to the balance; any other amount is ignored.
    pub fn deposit(&mut self, amount: i32)
        requires
            balance_after_deposit(old(self)@.balance, amount as int) <= i32::MAX,
        ensures
            final(self)@.account_number == old(self)@.account_number,
            final(self)@.balance == balance_after_deposit(old(self)@.balance, amount as int),
            old(self)@.balance >= 0 ==> final(self)@.balance >= 0,
    {
        if amount > 0 {
            self.balance += amount;
        }
    }

    /// Takes a positive `amount` that the balance covers. Any other amount is
    /// refused, and the account is then left as it was.
    pub fn withdraw(&mut self, amount: i32) -> (outcome: Result<(), WithdrawError>)
        ensures
            final(self)@.account_number == old(self)@.account_number,
            match withdrawal(old(self)@.balance, amount as int) {
                Ok(rest) => outcome == Ok::<(), WithdrawError>(()) && final(self)@.balance == rest,
                Err(reason) => outcome == Err::<(), WithdrawError>(reason) && final(self)@
                    == old(self)@,
            },
            old(self)@.balance >= 0 ==> final(self)@.balance >= 0,
    {
        if amount <= 0 {
            return Err(WithdrawError::InvalidAmount);
        }
        if self.balance >= amount {
            self.balance -= amount;
            Ok(())
        } else {
            Err(WithdrawError::InsufficientFunds)
        }
    }

    /// An account is no more than its number and its balance: two accounts
    /// with the same view are the same account.
    pub proof fn lemma_view_is_injective(self, other: Self)
        requires
            self@ == other@,
        ensures
            self == other,
    {
    }
}

} // verus!
