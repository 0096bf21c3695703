//! A custody ledger that keeps one stored balance per program-owned storage slot,
//! changed only by Initialize, Deposit and Withdraw, each proved free of overflow
//! and of partial effects.

pub mod batch;
pub mod entrypoint;
pub mod error;
pub mod instruction;
pub mod processor;
pub mod slot;
pub mod theorems;
