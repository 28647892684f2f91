//! Verified models of a suite of Soroban smart contracts.
//!
//! Each contract is a struct that holds its ledger storage as plain values;
//! its entry points are methods that take the invocation context (`host::Env`)
//! and either commit a new state or fail with an `Error`, leaving the state as
//! it was, as a failed invocation leaves the ledger.
pub mod table;
pub mod host;
pub mod ledger;
pub mod math;
pub mod vulnerable;
pub mod secure;
