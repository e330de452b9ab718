use ledger::account_number::AccountNumber;
use ledger::opening::create_account;
use ledger::store::AccountStore;
use ledger::response::ResponseStatus;
use ledger::vulnerable_account::{
    vulnerable_transfer, vulnerable_transfer_fits, BankAccount, VulnerableOutcome,
};
use std::collections::HashMap;

fn book(accounts: &[(AccountNumber, i32)]) -> HashMap<AccountNumber, BankAccount> {
    let mut book = HashMap::new();
    for (number, balance) in accounts {
        book.insert(*number, BankAccount { account_number: *number, balance: *balance });
    }
    book
}

fn held(book: &HashMap<AccountNumber, BankAccount>, number: AccountNumber) -> Option<i32> {
    book.get(&number).map(|account| account.balance)
}

#[test]
fn vulnerable_account_keeps_the_initial_balance() {
    let account = BankAccount::new(-12);
    assert_eq!(account.balance, -12);
    assert_eq!(
        account.account_number & 0xF000_C000_0000_0000_0000,
        0x4000_8000_0000_0000_0000
    );
    assert_ne!(account.account_number, BankAccount::new(-12).account_number);
    let copy = account.clone();
    assert_eq!(copy.account_number, account.account_number);
    assert_eq!(copy.balance, -12);
}

#[test]
fn vulnerable_transfer_moves_the_amount() {
    let mut book = book(&[(1, 100), (2, 50)]);
    assert_eq!(vulnerable_transfer(&mut book, 1, 2, 30), VulnerableOutcome::Processed);
    assert_eq!(held(&book, 1), Some(70));
    assert_eq!(held(&book, 2), Some(80));
    assert_eq!(book[&1].account_number, 1);
    assert_eq!(book[&2].account_number, 2);
}

#[test]
fn vulnerable_transfer_overdraws() {
    let mut book = book(&[(1, 100), (2, 50)]);
    assert_eq!(vulnerable_transfer(&mut book, 1, 2, 1000), VulnerableOutcome::Processed);
    assert_eq!(held(&book, 1), Some(-900));
    assert_eq!(held(&book, 2), Some(1050));
}

#[test]
fn vulnerable_transfer_of_a_negative_amount_pays_the_sender() {
    let mut book = book(&[(1, 100), (2, 50)]);
    assert_eq!(vulnerable_transfer(&mut book, 1, 2, -20), VulnerableOutcome::Processed);
    assert_eq!(held(&book, 1), Some(120));
    assert_eq!(held(&book, 2), Some(30));
}

#[test]
fn vulnerable_transfer_without_sender_changes_nothing() {
    let mut book = book(&[(2, 50)]);
    assert_eq!(vulnerable_transfer(&mut book, 1, 2, 30), VulnerableOutcome::SenderNotFound);
    assert_eq!(held(&book, 1), None);
    assert_eq!(held(&book, 2), Some(50));
}

#[test]
fn vulnerable_transfer_without_receiver_loses_the_amount() {
    let mut book = book(&[(1, 100)]);
    assert_eq!(vulnerable_transfer(&mut book, 1, 2, 30), VulnerableOutcome::ReceiverNotFound);
    assert_eq!(held(&book, 1), Some(70));
    assert_eq!(held(&book, 2), None);
}

#[test]
fn vulnerable_transfer_to_the_sender_leaves_the_balance() {
    let mut book = book(&[(1, 100)]);
    assert_eq!(vulnerable_transfer(&mut book, 1, 1, 30), VulnerableOutcome::Processed);
    assert_eq!(held(&book, 1), Some(100));
}

#[test]
fn vulnerable_transfer_fits_unless_a_balance_overflows() {
    let book = book(&[(1, i32::MIN + 5), (2, i32::MAX - 5), (3, 0)]);
    assert!(vulnerable_transfer_fits(&book, 1, 3, 5));
    assert!(!vulnerable_transfer_fits(&book, 1, 3, 6));
    assert!(vulnerable_transfer_fits(&book, 3, 2, 5));
    assert!(!vulnerable_transfer_fits(&book, 3, 2, 6));
    assert!(!vulnerable_transfer_fits(&book, 3, 9, i32::MIN));
    assert!(vulnerable_transfer_fits(&book, 3, 9, i32::MIN + 1));
    assert!(vulnerable_transfer_fits(&book, 9, 2, 1000));
    assert!(vulnerable_transfer_fits(&book, 1, 1, 5));
    assert!(!vulnerable_transfer_fits(&book, 1, 1, 6));
    assert!(vulnerable_transfer_fits(&book, 2, 1, i32::MAX - 5));
}

#[test]
fn vulnerable_outcome_statuses_and_messages() {
    assert_eq!(VulnerableOutcome::Processed.status(), ResponseStatus::Success);
    assert_eq!(VulnerableOutcome::SenderNotFound.status(), ResponseStatus::NotFound);
    assert_eq!(VulnerableOutcome::ReceiverNotFound.status(), ResponseStatus::NotFound);
    assert_eq!(VulnerableOutcome::Processed.message(), "Vulnerable transfer processed.");
    assert_eq!(VulnerableOutcome::SenderNotFound.message(), "Sender account not found");
    assert_eq!(VulnerableOutcome::ReceiverNotFound.message(), "Receiver account not found");
}

#[test]
fn create_account_enters_the_account_in_both_books() {
    let mut vulnerable = HashMap::new();
    let mut secure = AccountStore::new();
    let created = create_account(&mut vulnerable, &mut secure, 100);
    assert_eq!(created.balance, 100);
    let number = created.account_number;
    assert_eq!(number & 0xF000_C000_0000_0000_0000, 0x4000_8000_0000_0000_0000);
    assert_eq!(vulnerable.len(), 1);
    assert_eq!(vulnerable[&number].account_number, number);
    assert_eq!(vulnerable[&number].balance, 100);
    let filed = secure.get(number).expect("the account was created");
    assert_eq!(filed.account_number, number);
    assert_eq!(filed.balance(), 100);
}

#[test]
fn create_account_keeps_earlier_accounts() {
    let mut vulnerable = HashMap::new();
    let mut secure = AccountStore::new();
    let first = create_account(&mut vulnerable, &mut secure, 100);
    let second = create_account(&mut vulnerable, &mut secure, -5);
    assert_ne!(first.account_number, second.account_number);
    assert_eq!(vulnerable.len(), 2);
    assert_eq!(vulnerable[&first.account_number].balance, 100);
    assert_eq!(vulnerable[&second.account_number].balance, -5);
    assert_eq!(secure.get(first.account_number).map(|account| account.balance()), Some(100));
    assert_eq!(secure.get(second.account_number).map(|account| account.balance()), Some(-5));
}
