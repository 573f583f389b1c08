//! The rules of the engine, as functions on what its storage holds.
//!
//! Each rule takes the state before a call and the call's inputs, and gives the
//! state after it together with what the call hands back. The entry points are
//! proved to follow these rules.
use crate::auction::error::ContractError;
use crate::auction::msg::{AuctionNftView, InstantiateMsgView};
use crate::auction::state::{stored_auction, stored_listings, AuctionView, ListingTokenView};
use crate::host::{
    generic_error, tag, CoinView, CosmosMsgView, EventView, AttributeView, ReplyOn, Response, ResponseView,
    SubMsgView,
};
use crate::nft::msg::ExecuteMsgView;
use crate::text::decimal;
use cosmwasm_std::{MemoryStorage, StdError};
use vstd::prelude::*;

verus! {

/// The number under which the creation of the companion ledger is reported
/// back.
pub const INSTANTIATE_REPLY_ID: u64 = 1;

/// What the engine keeps: its configuration, once set up, and the auctions
/// that have not been settled, each under its identifier.
pub struct State {
    pub config: Option<AuctionView>,
    pub listings: Map<Seq<char>, ListingTokenView>,
}

/// What a storage holds, as the engine reads it.
pub open spec fn state_of(storage: MemoryStorage) -> State {
    State { config: stored_auction(storage), listings: stored_listings(storage) }
}

/// Why a rule turns a call down.
pub enum Refusal {
    /// The storage holds no record to work on. The error is the storage's
    /// own, inside [`ContractError::Std`].
    NoRecord,
    /// The rule itself refuses, with this error.
    Because(ContractError),
}

/// The state after a call, and the response or the refusal that the call
/// hands back. A refusal leaves the state as it was.
pub struct Outcome {
    pub state: State,
    pub result: Result<ResponseView, Refusal>,
}

/// Whether what an entry point returned is what a rule asks for.
pub open spec fn agrees(returned: Result<Response, ContractError>, asked: Result<ResponseView, Refusal>) -> bool {
    match asked {
        Ok(response) => returned is Ok && returned->Ok_0@ == response,
        Err(Refusal::NoRecord) => returned is Err && returned->Err_0 is Std,
        Err(Refusal::Because(error)) => returned == Err::<Response, ContractError>(error),
    }
}

/// A refusal for a reason that the engine words itself.
pub open spec fn refuse(state: State, reason: Seq<char>) -> Outcome {
    Outcome {
        state,
        result: Err(Refusal::Because(ContractError::Std(generic_error(reason)))),
    }
}

/// The identifier of the listing of asset `id` on the ledger at `ledger`: the
/// ledger's address, a slash, and the asset's number in decimal notation.
pub open spec fn listing_id_of(ledger: Seq<char>, id: u128) -> Seq<char> {
    ledger + seq!['/'] + decimal(id as nat)
}

/// A call to the asset ledger at `ledger`, with no funds attached.
pub open spec fn ledger_call(ledger: Seq<char>, msg: ExecuteMsgView) -> CosmosMsgView {
    CosmosMsgView::Execute { contract_addr: ledger, msg, send: seq![] }
}

/// A payment of one coin out of the engine's balance.
pub open spec fn payment(to: Seq<char>, coin: CoinView) -> CosmosMsgView {
    CosmosMsgView::Send { to_address: to, amount: seq![coin] }
}

/// The request that creates the companion ledger, with the caller as its
/// administrator, reported back on success only.
pub open spec fn companion_request(admin: Seq<char>, nft: AuctionNftView) -> SubMsgView {
    SubMsgView {
        id: INSTANTIATE_REPLY_ID,
        msg: CosmosMsgView::Instantiate {
            admin: Some(admin),
            code_id: nft.nft_code_id,
            msg: crate::nft::msg::InstantiateMsgView {
                name: nft.nft_contract_name,
                symbol: nft.nft_contract_symbol,
            },
            send: seq![],
            label: "auction-nft"@,
        },
        gas_limit: None,
        reply_on: ReplyOn::Success,
    }
}

/// Setting up: the bidding window is stored, with no companion ledger bound
/// yet, and the companion's creation is requested where the caller asked for
/// one. Listings are left alone.
pub open spec fn instantiate_rule(state: State, sender: Seq<char>, msg: InstantiateMsgView) -> Outcome {
    Outcome {
        state: State {
            config: Some(
                AuctionView {
                    nft_contract_address: None,
                    limit_block_height: msg.auction_limit_block_height,
                },
            ),
            listings: state.listings,
        },
        result: Ok(
            ResponseView {
                submessages: match msg.auction_nft {
                    Some(nft) => seq![companion_request(sender, nft)],
                    None => seq![],
                },
                messages: seq![],
                attributes: seq![],
            },
        ),
    }
}

/// The record of a new auction: the seller's minimum stands as the bid, and
/// the engine itself as the bidder.
pub open spec fn new_listing(
    ledger: Seq<char>,
    id: u128,
    seller: Seq<char>,
    minimum_bid: CoinView,
    engine: Seq<char>,
    deadline: u64,
) -> ListingTokenView {
    ListingTokenView {
        listing_id: listing_id_of(ledger, id),
        token_id: id,
        contract_address: ledger,
        seller,
        max_bid: minimum_bid,
        max_bidder: engine,
        block_limit: deadline,
    }
}

/// What a new listing hands back: the approval of the engine and the
/// asset's move from the seller into the engine's custody, in this order, and
/// the new identifier as a tag.
pub open spec fn listing_response(listing: ListingTokenView) -> ResponseView {
    ResponseView {
        submessages: seq![],
        messages: seq![
            ledger_call(
                listing.contract_address,
                ExecuteMsgView::Approve { recipient: listing.max_bidder, token_id: listing.token_id },
            ),
            ledger_call(
                listing.contract_address,
                ExecuteMsgView::TransferFrom {
                    sender: listing.seller,
                    recipient: listing.max_bidder,
                    token_id: listing.token_id,
                },
            ),
        ],
        attributes: seq![tag("action"@, "listing"@), tag("listing_id"@, listing.listing_id)],
    }
}

/// Listing. `named` is the ledger that the caller named, as the host's address
/// check left it; without one the companion ledger is taken. The call is
/// refused, in this order: without a configuration; with an address that the
/// host refused, for the host's reason; with no ledger at all; for an asset
/// whose auction has not been settled, so that no listing ever replaces a
/// record; with a deadline beyond the largest height. Else the new record is
/// stored under its identifier.
pub open spec fn listing_rule(
    state: State,
    height: u64,
    engine: Seq<char>,
    seller: Seq<char>,
    named: Option<Result<String, StdError>>,
    id: u128,
    minimum_bid: CoinView,
) -> Outcome {
    match state.config {
        None => Outcome { state, result: Err(Refusal::NoRecord) },
        Some(config) => {
            let ledger = match named {
                Some(Ok(address)) => Ok(Some(address@)),
                Some(Err(reason)) => Err(reason),
                None => Ok(config.nft_contract_address),
            };
            match ledger {
                Err(reason) => Outcome {
                    state,
                    result: Err(Refusal::Because(ContractError::Std(reason))),
                },
                Ok(None) => refuse(state, "nft contract address not set"@),
                Ok(Some(ledger)) => {
                    if state.listings.contains_key(listing_id_of(ledger, id)) {
                        refuse(state, "listing exists"@)
                    } else if height + config.limit_block_height > u64::MAX {
                        refuse(state, "deadline height out of range"@)
                    } else {
                        let listing = new_listing(
                            ledger,
                            id,
                            seller,
                            minimum_bid,
                            engine,
                            (height + config.limit_block_height) as u64,
                        );
                        Outcome {
                            state: State {
                                config: state.config,
                                listings: state.listings.insert(listing.listing_id, listing),
                            },
                            result: Ok(listing_response(listing)),
                        }
                    }
                },
            }
        },
    }
}

/// Whether a bid is taken: the deadline has not passed, exactly one deposit
/// came with it, in the listing's denomination, and above the standing bid.
pub open spec fn bid_check(listing: ListingTokenView, height: u64, funds: Seq<CoinView>) -> Result<(), ContractError> {
    if listing.block_limit < height {
        Err(ContractError::AuctionEnded {  })
    } else if funds.len() != 1 {
        Err(ContractError::InvalidBid {  })
    } else if funds[0].amount <= listing.max_bid.amount || funds[0].denom
        != listing.max_bid.denom {
        Err(ContractError::InvalidBid {  })
    } else {
        Ok(())
    }
}

/// What a bid that was taken hands back: the refund of the bidder it replaces,
/// unless that is the engine itself, and the listing's identifier as a tag.
pub open spec fn bid_response(replaced: ListingTokenView, engine: Seq<char>, listing_id: Seq<char>) -> ResponseView {
    ResponseView {
        submessages: seq![],
        messages: if replaced.max_bidder != engine {
            seq![payment(replaced.max_bidder, replaced.max_bid)]
        } else {
            seq![]
        },
        attributes: seq![tag("action"@, "bid"@), tag("listing_id"@, listing_id)],
    }
}

/// Bidding. The call is refused for a listing that the storage does not hold,
/// and where [`bid_check`] refuses. Else the deposit becomes the standing bid
/// and the caller its bidder.
pub open spec fn bid_rule(
    state: State,
    height: u64,
    engine: Seq<char>,
    bidder: Seq<char>,
    funds: Seq<CoinView>,
    listing_id: Seq<char>,
) -> Outcome {
    if !state.listings.contains_key(listing_id) {
        Outcome { state, result: Err(Refusal::NoRecord) }
    } else {
        let listing = state.listings[listing_id];
        match bid_check(listing, height, funds) {
            Err(error) => Outcome { state, result: Err(Refusal::Because(error)) },
            Ok(()) => Outcome {
                state: State {
                    config: state.config,
                    listings: state.listings.insert(
                        listing_id,
                        ListingTokenView { max_bid: funds[0], max_bidder: bidder, ..listing },
                    ),
                },
                result: Ok(bid_response(listing, engine, listing_id)),
            },
        }
    }
}

/// What a settlement hands back. With a bidder other than the engine, the
/// asset goes to that bidder and the standing bid to the seller, tagged as
/// sold. With the engine still standing as the bidder, the asset goes back to
/// the seller and no funds move, tagged as unsold.
pub open spec fn withdraw_response(listing: ListingTokenView, engine: Seq<char>, listing_id: Seq<char>) -> ResponseView {
    if listing.max_bidder != engine {
        ResponseView {
            submessages: seq![],
            messages: seq![
                ledger_call(
                    listing.contract_address,
                    ExecuteMsgView::Transfer {
                        recipient: listing.max_bidder,
                        token_id: listing.token_id,
                    },
                ),
                payment(listing.seller, listing.max_bid),
            ],
            attributes: seq![
                tag("action"@, "withdraw"@),
                tag("status"@, "sold"@),
                tag("listing_id"@, listing_id),
            ],
        }
    } else {
        ResponseView {
            submessages: seq![],
            messages: seq![
                ledger_call(
                    listing.contract_address,
                    ExecuteMsgView::Transfer { recipient: listing.seller, token_id: listing.token_id },
                ),
            ],
            attributes: seq![
                tag("action"@, "withdraw"@),
                tag("status"@, "unsold"@),
                tag("listing_id"@, listing_id),
            ],
        }
    }
}

/// Settling. The call is refused for a listing that the storage does not hold,
/// and as long as the height has not passed the deadline. Else the record is
/// removed.
pub open spec fn withdraw_rule(state: State, height: u64, engine: Seq<char>, listing_id: Seq<char>) -> Outcome {
    if !state.listings.contains_key(listing_id) {
        Outcome { state, result: Err(Refusal::NoRecord) }
    } else {
        let listing = state.listings[listing_id];
        if listing.block_limit >= height {
            Outcome { state, result: Err(Refusal::Because(ContractError::AuctionNotEnded {  })) }
        } else {
            Outcome {
                state: State { config: state.config, listings: state.listings.remove(listing_id) },
                result: Ok(withdraw_response(listing, engine, listing_id)),
            }
        }
    }
}

/// Looking a listing up: its record, where the storage holds one.
pub open spec fn query_rule(state: State, listing_id: Seq<char>) -> Option<ListingTokenView> {
    if state.listings.contains_key(listing_id) {
        Some(state.listings[listing_id])
    } else {
        None
    }
}

/// The first event of the given kind.
pub open spec fn first_of_kind(events: Seq<EventView>, kind: Seq<char>) -> Option<EventView>
    decreases events.len(),
{
    if events.len() == 0 {
        None
    } else if events[0].kind == kind {
        Some(events[0])
    } else {
        first_of_kind(events.drop_first(), kind)
    }
}

/// The value of the last tag with the given key.
pub open spec fn last_value(attributes: Seq<AttributeView>, key: Seq<char>) -> Option<Seq<char>>
    decreases attributes.len(),
{
    if attributes.len() == 0 {
        None
    } else if attributes.last().key == key {
        Some(attributes.last().value)
    } else {
        last_value(attributes.drop_last(), key)
    }
}

/// The address of the ledger that a creation left behind: in the first event
/// of kind `wasm`, the value of the last tag `contract_address`.
pub open spec fn created_address(events: Seq<EventView>) -> Result<Seq<char>, Seq<char>> {
    match first_of_kind(events, "wasm"@) {
        None => Err("wasm not found"@),
        Some(event) => match last_value(event.attributes, "contract_address"@) {
            None => Err("contract address not found"@),
            Some(address) => Ok(address),
        },
    }
}

/// What a binding hands back: the bound address as a tag.
pub open spec fn bound_response(address: Seq<char>) -> ResponseView {
    ResponseView {
        submessages: seq![],
        messages: seq![],
        attributes: seq![tag("nft_auction_contract_address"@, address)],
    }
}

/// Binding the companion ledger. `result` holds the events of the creation, or
/// the host's message where it failed. The report is refused, in this order:
/// under another number than [`INSTANTIATE_REPLY_ID`] or for a creation that
/// failed; where the events name no address; without a configuration; and with
/// a companion ledger bound already. Else the address is bound.
pub open spec fn reply_rule(state: State, id: u64, result: Result<Seq<EventView>, Seq<char>>) -> Outcome {
    if id != INSTANTIATE_REPLY_ID || result is Err {
        refuse(state, "invalid reply id or result"@)
    } else {
        match created_address(result->Ok_0) {
            Err(reason) => refuse(state, reason),
            Ok(address) => match state.config {
                None => Outcome { state, result: Err(Refusal::NoRecord) },
                Some(config) => if config.nft_contract_address is Some {
                    refuse(state, "invalid reply id or result"@)
                } else {
                    Outcome {
                        state: State {
                            config: Some(
                                AuctionView { nft_contract_address: Some(address), ..config },
                            ),
                            listings: state.listings,
                        },
                        result: Ok(bound_response(address)),
                    }
                },
            },
        }
    }
}

} // verus!
