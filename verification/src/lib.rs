//! A two-party asset-exchange escrow: one party places an asset in custody and
//! records the price it wants, a second party pays that price and receives the
//! asset, and the record is retired.

pub mod account;
pub mod authority;
pub mod bytes;
pub mod error;
pub mod instruction;
pub mod laws;
pub mod ledger;
pub mod processor;
pub mod state;
