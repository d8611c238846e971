//! An envelope-budgeting ledger: accounts, categories, transactions and
//! transfers, with the balances derived from them.
//!
//! Identifiers are 128-bit values (the integer form of a UUID). Money is held
//! in fixed point, as a signed count of hundredths of the currency unit.

pub mod domain;
pub mod balance;
pub mod laws;
pub mod money;
