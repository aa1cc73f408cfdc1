//! Asset-issuance module for a family of token-factory chain dialects.
//!
//! One contract instance manages a single denomination: it derives the
//! denom at initialization, builds the wire message each chain variant
//! expects for the factory operations (create-denom, mint, burn,
//! change-admin, set-metadata), keeps overflow-checked mint/burn
//! counters, and correlates asynchronous mint callbacks to their
//! pending payouts through monotonically increasing reply ids.

pub mod contract;
pub mod denom;
pub mod error;
pub mod execute;
pub mod laws;
pub mod msg;
pub mod query;
pub mod response;
pub mod state;
pub mod tokenfactory;
