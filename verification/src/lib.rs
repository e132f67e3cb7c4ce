//! Verified state machines of two ledger contracts: a pay-per-content
//! access registry and an admin-controlled token treasury.

pub mod events;
pub mod host;
pub mod store;
pub mod content_access;
pub mod errors;
pub mod treasury;
pub mod content_access_laws;
pub mod treasury_laws;
