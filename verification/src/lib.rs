//! An auction engine for uniquely identified assets, with the asset ledger it
//! settles against.
//!
//! A seller locks an asset into escrow, bidders raise one another in a single
//! denomination, and once the deadline height has passed anyone may settle: the
//! asset goes to the leader and the funds to the seller. Every entry point is a
//! deterministic step on a key-value storage, and returns the calls that the
//! host is to carry out.
pub mod auction;
pub mod host;
pub mod nft;
pub mod storage;
pub mod text;
