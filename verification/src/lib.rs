//! A prediction market on reputation: users stake a non-transferable credit,
//! Cred, on the yes or no of a claim; an oracle resolves the claim; winners
//! are paid redistributed Cred.
//!
//! - [`state`], [`events`], [`error`]: the records, the events and the failures.
//! - [`instructions`]: each operation as a function on the records it touches.
//! - [`address`]: the address of each record, derived from what identifies it.
//! - [`store`], [`ledger`]: the records by address, and the operations on them.
//! - [`protocol`]: operations as values, on given or on derived addresses.
//! - [`invariants`]: what holds of every ledger that the operations can reach.
//! - [`minter`]: the decisions of the proof-record minter.
pub mod accounts;
pub mod address;
pub mod constants;
pub mod error;
pub mod events;
pub mod instructions;
pub mod invariants;
pub mod ledger;
pub mod minter;
pub mod protocol;
pub mod pubkey;
pub mod state;
pub mod store;
