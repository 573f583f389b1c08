//! The auction engine: listing, bidding, settlement, and the binding of a
//! companion asset ledger.
pub mod contract;
pub mod error;
pub mod laws;
pub mod msg;
pub mod rules;
pub mod state;
