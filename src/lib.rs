//! A single-campaign crowdfunding ledger.
//!
//! The ledger keeps one campaign's configuration and the donations made
//! toward it. Everything the ledger needs from its host (the verified caller,
//! the current time, the outcome of a token transfer) is handed in as a plain
//! value, so each operation is a verified step from one ledger state to the next.

pub mod address;
pub mod donations;
pub mod ledger;
pub mod laws;
