//! What the engine keeps between calls: its configuration, and one record for
//! each auction that has not been settled.
use crate::host::{Coin, CoinView};
use cosmwasm_std::{MemoryStorage, StdError, Uint128};
use cosmwasm_storage::{bucket, bucket_read, singleton, singleton_read};
use vstd::prelude::*;

verus! {

/// The storage region of the configuration.
pub const AUCTION: &'static str = "auction";

/// The storage region of the listings.
pub const LIST_RESOLVER_KEY: &'static str = "listingresolver";

/// The engine's configuration.
#[derive(Debug, Clone, PartialEq, Eq)]
pub struct Auction {
    /// The companion asset ledger, once its creation has been reported.
    pub nft_contract_address: Option<String>,
    /// For how many blocks after its creation a listing takes bids.
    pub limit_block_height: u64,
}

/// [`Auction`] as a mathematical value.
pub struct AuctionView {
    pub nft_contract_address: Option<Seq<char>>,
    pub limit_block_height: u64,
}

impl View for Auction {
    type V = AuctionView;

    open spec fn view(&self) -> AuctionView {
        AuctionView {
            nft_contract_address: match self.nft_contract_address {
                Some(a) => Some(a@),
                None => None,
            },
            limit_block_height: self.limit_block_height,
        }
    }
}

/// One auction that has not been settled.
#[derive(Debug, Clone, PartialEq, Eq)]
pub struct ListingToken {
    pub listing_id: String,
    pub token_id: u128,
    /// The asset ledger that holds the asset.
    pub contract_address: String,
    pub seller: String,
    /// The standing bid; before the first bid, the seller's minimum.
    pub max_bid: Coin,
    /// Who made the standing bid; before the first bid, the engine itself.
    pub max_bidder: String,
    /// The deadline height: the last block in which a bid is taken.
    pub block_limit: u64,
}

/// [`ListingToken`] as a mathematical value.
pub struct ListingTokenView {
    pub listing_id: Seq<char>,
    pub token_id: u128,
    pub contract_address: Seq<char>,
    pub seller: Seq<char>,
    pub max_bid: CoinView,
    pub max_bidder: Seq<char>,
    pub block_limit: u64,
}

impl View for ListingToken {
    type V = ListingTokenView;

    open spec fn view(&self) -> ListingTokenView {
        ListingTokenView {
            listing_id: self.listing_id@,
            token_id: self.token_id,
            contract_address: self.contract_address@,
            seller: self.seller@,
            max_bid: self.max_bid@,
            max_bidder: self.max_bidder@,
            block_limit: self.block_limit,
        }
    }
}

/// The configuration that a storage holds: what loading it gives, and `None`
/// where loading it fails.
pub uninterp spec fn stored_auction(storage: MemoryStorage) -> Option<AuctionView>;

/// The listings that a storage holds: each record that can be loaded, under
/// the identifier that it is loaded by.
pub uninterp spec fn stored_listings(storage: MemoryStorage) -> Map<Seq<char>, ListingTokenView>;

/// Calls `Singleton::save` on the configuration region. The record is written
/// as strings and integers, for which the encoder returns no error, so the call
/// succeeds; it replaces the configuration and touches no listing.
#[verifier::external_body]
pub(crate) fn save_auction(storage: &mut MemoryStorage, config: &Auction) -> (r: Result<
    (),
    StdError,
>)
    ensures
        r is Ok,
        stored_auction(*final(storage)) == Some(config@),
        stored_listings(*final(storage)) == stored_listings(*old(storage)),
{
    let record = (config.nft_contract_address.clone(), config.limit_block_height);
    singleton(storage, AUCTION.as_bytes()).save(&record)
}

/// Calls `ReadonlySingleton::load` on the configuration region: the
/// configuration that was saved last, or an error where there is none.
#[verifier::external_body]
pub(crate) fn load_auction(storage: &MemoryStorage) -> (r: Result<Auction, StdError>)
    ensures
        r is Ok <==> stored_auction(*storage) is Some,
        r is Ok ==> Some(r->Ok_0@) == stored_auction(*storage),
{
    let (nft_contract_address, limit_block_height): (Option<String>, u64) = singleton_read(
        storage,
        AUCTION.as_bytes(),
    ).load()?;
    Ok(Auction { nft_contract_address, limit_block_height })
}

/// Calls `Bucket::save` on the listing region. The record is written as
/// strings and integers, for which the encoder returns no error, so the call
/// succeeds; it puts the listing under `key`, in place of what was there, and
/// touches nothing else.
#[verifier::external_body]
pub(crate) fn save_listing(storage: &mut MemoryStorage, key: &str, listing: &ListingToken) -> (r:
    Result<(), StdError>)
    ensures
        r is Ok,
        stored_listings(*final(storage)) == stored_listings(*old(storage)).insert(key@, listing@),
        stored_auction(*final(storage)) == stored_auction(*old(storage)),
{
    let record = (
        listing.listing_id.clone(),
        Uint128(listing.token_id),
        listing.contract_address.clone(),
        listing.seller.clone(),
        listing.max_bid.denom.clone(),
        Uint128(listing.max_bid.amount),
        listing.max_bidder.clone(),
        listing.block_limit,
    );
    bucket(storage, LIST_RESOLVER_KEY.as_bytes()).save(key.as_bytes(), &record)
}

/// Calls `ReadonlyBucket::load` on the listing region: the listing that was
/// saved last under `key` and not removed since, or an error where there is
/// none.
#[verifier::external_body]
pub(crate) fn load_listing(storage: &MemoryStorage, key: &str) -> (r: Result<ListingToken, StdError>)
    ensures
        r is Ok <==> stored_listings(*storage).contains_key(key@),
        r is Ok ==> r->Ok_0@ == stored_listings(*storage)[key@],
{
    let (listing_id, token_id, contract_address, seller, denom, amount, max_bidder, block_limit): (
        String,
        Uint128,
        String,
        String,
        String,
        Uint128,
        String,
        u64,
    ) = bucket_read(storage, LIST_RESOLVER_KEY.as_bytes()).load(key.as_bytes())?;
    let max_bid = Coin { denom, amount: amount.u128() };
    Ok(ListingToken { listing_id, token_id: token_id.u128(), contract_address, seller, max_bid, max_bidder, block_limit })
}

/// Calls `Bucket::remove` on the listing region: the listing under `key` is
/// gone, if there was one, and nothing else is touched.
#[verifier::external_body]
pub(crate) fn remove_listing(storage: &mut MemoryStorage, key: &str)
    ensures
        stored_listings(*final(storage)) == stored_listings(*old(storage)).remove(key@),
        stored_auction(*final(storage)) == stored_auction(*old(storage)),
{
    bucket::<(String, Uint128, String, String, String, Uint128, String, u64)>(
        storage,
        LIST_RESOLVER_KEY.as_bytes(),
    ).remove(key.as_bytes())
}

} // verus!
