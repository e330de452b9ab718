//! An in-memory ledger: accounts, the store that holds them, and the
//! transaction that moves funds between two of them atomically.

pub mod account_number;
pub mod history;
pub mod opening;
pub mod response;
pub mod secure_account;
pub mod store;
pub mod transfer;
pub mod vulnerable_account;
