//! A two-party rental escrow for a single non-fungible asset unit.
//!
//! The library decides every transition of the rental agreement
//! (`Created -> Requested -> Accepted -> Closed`) and says which fund
//! transfers and custody changes the hosting ledger has to carry out.

pub mod custodian;
pub mod errors;
pub mod escrow;
pub mod key;
pub mod laws;
pub mod state;
