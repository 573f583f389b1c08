//! The requests that the auction engine takes.
use crate::host::Coin;
use cosmwasm_std::StdError;
use vstd::prelude::*;

verus! {

/// Sets the engine up.
#[derive(Debug, Clone, PartialEq, Eq)]
pub struct InstantiateMsg {
    /// Where present, a companion asset ledger is created along with the
    /// engine and becomes the default ledger of later listings.
    pub auction_nft: Option<AuctionNft>,
    /// For how many blocks after its creation a listing takes bids.
    pub auction_limit_block_height: u64,
}

/// The companion asset ledger to create: its code, its name and its symbol.
#[derive(Debug, Clone, PartialEq, Eq)]
pub struct AuctionNft {
    pub nft_code_id: u64,
    pub nft_contract_name: String,
    pub nft_contract_symbol: String,
}

/// [`AuctionNft`] as a mathematical value.
pub struct AuctionNftView {
    pub nft_code_id: u64,
    pub nft_contract_name: Seq<char>,
    pub nft_contract_symbol: Seq<char>,
}

impl View for AuctionNft {
    type V = AuctionNftView;

    open spec fn view(&self) -> AuctionNftView {
        AuctionNftView {
            nft_code_id: self.nft_code_id,
            nft_contract_name: self.nft_contract_name@,
            nft_contract_symbol: self.nft_contract_symbol@,
        }
    }
}

/// [`InstantiateMsg`] as a mathematical value.
pub struct InstantiateMsgView {
    pub auction_nft: Option<AuctionNftView>,
    pub auction_limit_block_height: u64,
}

impl View for InstantiateMsg {
    type V = InstantiateMsgView;

    open spec fn view(&self) -> InstantiateMsgView {
        InstantiateMsgView {
            auction_nft: match self.auction_nft {
                Some(nft) => Some(nft@),
                None => None,
            },
            auction_limit_block_height: self.auction_limit_block_height,
        }
    }
}

/// A change to the auctions.
#[derive(Debug, PartialEq)]
pub enum ExecuteMsg {
    /// Puts the caller's asset `id` up for auction.
    Listing {
        /// The asset ledger that holds the asset, as the host's address check
        /// left it: the address, or the host's reason for refusing it. `None`
        /// stands for the engine's companion ledger.
        nft_contract_address: Option<Result<String, StdError>>,
        id: u128,
        /// The amount that the first bid has to exceed, and the denomination
        /// of all bids.
        minimum_bid: Coin,
    },
    /// Bids the one deposit that comes with the call.
    Bid { listing_id: String },
    /// Settles an auction whose deadline has passed.
    Withdraw { listing_id: String },
}

/// A question to the engine.
#[derive(Debug, Clone, PartialEq, Eq)]
pub enum QueryMsg {
    /// The record of one listing.
    ListingToken { listing_id: String },
}

} // verus!
