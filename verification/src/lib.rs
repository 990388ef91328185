//! A dead man's switch vault: an owner keeps the vault alive with heartbeats, and
//! once the heartbeat window has lapsed the beneficiary may claim its funds.
//!
//! The library holds the vault's state machine and its rules. Reading and writing
//! the chain's storage, asking the chain to validate addresses and querying bank
//! balances are the host's work: their results reach these functions as arguments.

pub mod error;
pub mod text;
pub mod cosmos;
pub mod state;
pub mod msg;
pub mod contract;
pub mod laws;
