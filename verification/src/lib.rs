//! Governance-vault voting library.
//!
//! Holders convert a governance asset into a staked variant, open time-boxed
//! vote campaigns (vaults) with an aggregate vote cap, cast votes by burning
//! staked governance in exchange for campaign-scoped vote tokens, and later
//! claim a pro-rata share of a deposited reward asset.
//!
//! The library is the campaign state machine alone: it decides whether an
//! operation is allowed, updates the records, and returns the ledger
//! operations (mints, burns, transfers) that the hosting ledger must perform
//! atomically with the record updates. The ledger itself, account resolution
//! and the clock belong to the host.

pub mod ledger;
pub mod math;
pub mod model;
pub mod ops;
pub mod state;
