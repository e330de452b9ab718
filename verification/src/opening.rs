//! Opening an account: one number is drawn, and the account is entered
//! under it in both books, the unguarded and the guarded one.

use std::collections::HashMap;
use vstd::prelude::*;
use crate::account_number::{AccountNumber, is_random_number};
use crate::secure_account;
use crate::store::AccountStore;
use crate::vulnerable_account;

verus! {

/// Opens an account with `initial_balance` and enters it in both books under
/// one freshly drawn number. An account that stood under that number before
/// is replaced. Hands back the account as the unguarded book holds it.
pub fn create_account(
    vulnerable_accounts: &mut HashMap<AccountNumber, vulnerable_account::BankAccount>,
    secure_accounts: &mut AccountStore,
    initial_balance: i32,
) -> (created: vulnerable_account::BankAccount)
    ensures
        created.balance == initial_balance,
        is_random_number(created.account_number),
        final(vulnerable_accounts)@ == old(vulnerable_accounts)@.insert(
            created.account_number,
            created,
        ),
        final(secure_accounts)@ == old(secure_accounts)@.insert(
            created.account_number,
            initial_balance as int,
        ),
{
    let created = vulnerable_account::BankAccount::new(initial_balance);
    let number = created.account_number;
    vulnerable_accounts.insert(number, created.clone());
    secure_accounts.insert(secure_account::BankAccount::with_number(number, initial_balance));
    created
}

} // verus!
