//! A dead man's switch over a fungible asset.
//!
//! An owner places assets in the custody of a contract and proves activity by
//! checking in. Once a full check-in period has gone by without a check-in,
//! the beneficiary may collect whatever the contract holds. The owner may take
//! everything back at any time.
//!
//! The crate holds the rules only. Proof of identity, the clock, the asset
//! ledger and the event log belong to the host: each operation takes what the
//! host observed as plain arguments and answers with the effects that the
//! host is to carry out.

pub mod contract;
pub mod effects;
pub mod error;
pub mod identity;
pub mod laws;
pub mod ledger;
pub mod record;
pub mod rules;
pub mod storage;
