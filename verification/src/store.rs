//! The account store: at most one account under each number, every account
//! filed under its own number.

use std::collections::HashMap;
use vstd::prelude::*;
use crate::account_number::AccountNumber;
use crate::secure_account::{AccountView, BankAccount};

verus! {

/// The accounts of a ledger, found by number.
///
/// Its view is the map from the numbers it holds to the balances that stand
/// on them. The store does no locking of its own: `&mut` is the exclusive
/// access that a service with several workers takes through a mutex.
pub struct AccountStore {
    accounts: HashMap<AccountNumber, BankAccount>,
}

impl View for AccountStore {
    type V = Map<AccountNumber, int>;

    closed spec fn view(&self) -> Map<AccountNumber, int> {
        Map::new(
            |number: AccountNumber| self.accounts@.contains_key(number),
            |number: AccountNumber| self.accounts@[number]@.balance,
        )
    }
}

/// What a store with these balances holds under `number`, if anything.
pub open spec fn entry(balances: Map<AccountNumber, int>, number: AccountNumber) -> Option<
    AccountView,
> {
    if balances.contains_key(number) {
        Some(AccountView { account_number: number, balance: balances[number] })
    } else {
        None
    }
}

/// Whether `found` is what a lookup of `number` gives on a store with these
/// balances: the account under that number, or nothing where there is none.
pub open spec fn is_lookup(
    balances: Map<AccountNumber, int>,
    number: AccountNumber,
    found: Option<&BankAccount>,
) -> bool {
    match found {
        Some(account) => entry(balances, number) == Some(account@),
        None => entry(balances, number).is_none(),
    }
}

impl AccountStore {
    #[verifier::type_invariant]
    spec fn filed_under_own_number(&self) -> bool {
        forall|number: AccountNumber| #[trigger]
            self.accounts@.contains_key(number) ==> self.accounts@[number]@.account_number
                == number
    }

    /// A store without accounts.
    pub fn new() -> (store: Self)
        ensures
            store@ == Map::<AccountNumber, int>::empty(),
    {
        Self { accounts: HashMap::new() }
    }

    /// Files `account` under its number, in place of any account that stood
    /// there before.
    pub fn insert(&mut self, account: BankAccount)
        ensures
            final(self)@ == old(self)@.insert(account@.account_number, account@.balance),
    {
        proof {
            use_type_invariant(&*self);
        }
        // The map changes outside the store, which holds an empty one
        // meanwhile and so keeps its invariant at every step.
        let mut accounts = HashMap::new();
        std::mem::swap(&mut accounts, &mut self.accounts);
        accounts.insert(account.number(), account);
        self.accounts = accounts;
    }

    /// Takes the account under `number` out of the store and hands it over.
    pub fn remove(&mut self, number: AccountNumber) -> (taken: Option<BankAccount>)
        ensures
            final(self)@ == old(self)@.remove(number),
            match taken {
                Some(account) => entry(old(self)@, number) == Some(account@),
                None => entry(old(self)@, number).is_none(),
            },
    {
        proof {
            use_type_invariant(&*self);
        }
        let mut accounts = HashMap::new();
        std::mem::swap(&mut accounts, &mut self.accounts);
        let taken = accounts.remove(&number);
        self.accounts = accounts;
        taken
    }

    /// Looks up the account under `number`; the store stays as it is.
    pub fn get(&self, number: AccountNumber) -> (found: Option<&BankAccount>)
        ensures
            is_lookup(self@, number, found),
    {
        proof {
            use_type_invariant(self);
        }
        self.accounts.get(&number)
    }

    /// A lookup is repeatable: whatever two lookups of one number give on one
    /// store, with nothing changed in between, is the same.
    pub proof fn lemma_lookup_is_repeatable(
        &self,
        number: AccountNumber,
        first: Option<&BankAccount>,
        second: Option<&BankAccount>,
    )
        requires
            is_lookup(self@, number, first),
            is_lookup(self@, number, second),
        ensures
            first == second,
    {
        if let (Some(one), Some(other)) = (first, second) {
            one.lemma_view_is_injective(*other);
        }
    }
}

} // verus!
