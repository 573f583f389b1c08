//! The asset ledger: who owns each asset, and who may move it.
pub mod constant;
pub mod contract;
pub mod errors;
pub mod laws;
pub mod msg;
pub mod rules;
pub mod store;
pub mod types;
