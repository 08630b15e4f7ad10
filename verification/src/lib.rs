//! Relay submission of a transaction with a tip, and confirmation that it
//! landed: assembling the two transactions of a bundle, polling the ledger
//! for the primary signature, and the bounded retry loop around both.

pub mod assembler;
pub mod chain;
pub mod coordinator;
pub mod miner;
pub mod poller;
pub mod status;
pub mod trace;
