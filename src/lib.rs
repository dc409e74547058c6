//! Client-side logic for submitting transactions to the Ore mining program:
//! a cache of the ledger's latest blockhash, the decisions that keep
//! registration, token-account creation and claims idempotent, the decoding
//! of program accounts, and the state machine that drives one transaction
//! from signing to a terminal outcome with bounded retries on expiry.
//! Network I/O stays with the caller, which feeds observed events in and
//! performs the actions that come out.

pub mod accounts;
pub mod builder;
pub mod freshness;
pub mod instruction;
pub mod submit;
