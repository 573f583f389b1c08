//! Why the auction engine turns a call down.
use cosmwasm_std::StdError;
use vstd::prelude::*;

verus! {

/// Why a call was turned down. Nothing is stored and no call is emitted when
/// one of these comes back.
#[derive(Debug, PartialEq)]
pub enum ContractError {
    /// The storage or the host turned the call down: no record under the
    /// key, an address that the host refuses, an asset that is listed
    /// already, a malformed report.
    Std(StdError),
    /// A bid came after the deadline height.
    AuctionEnded {},
    /// A settlement came at or before the deadline height.
    AuctionNotEnded {},
    /// A bid without exactly one deposit, in another denomination, or not above
    /// the standing bid.
    InvalidBid {},
}

} // verus!
