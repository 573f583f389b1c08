//! What follows from the rules of the engine, over every state and every
//! sequence of calls.
use crate::auction::error::ContractError;
use crate::auction::rules::{
    bid_rule, ledger_call, listing_id_of, listing_rule, payment, query_rule, reply_rule,
    withdraw_rule, Refusal, State,
};
use crate::host::{CoinView, EventView};
use crate::nft::msg::ExecuteMsgView;
use crate::text::{decimal, is_digit, lemma_decimal_digits, lemma_decimal_injective};
use cosmwasm_std::StdError;
use vstd::prelude::*;

verus! {

/// One bid: the height it comes at, who makes it, and the deposits that come
/// with it.
pub struct BidCall {
    pub height: u64,
    pub bidder: Seq<char>,
    pub funds: Seq<CoinView>,
}

/// The state after a sequence of bids on one listing, each of them taken or
/// refused by [`bid_rule`].
pub open spec fn after_bids(state: State, engine: Seq<char>, listing_id: Seq<char>, bids: Seq<BidCall>) -> State
    decreases bids.len(),
{
    if bids.len() == 0 {
        state
    } else {
        bid_rule(
            after_bids(state, engine, listing_id, bids.drop_last()),
            bids.last().height,
            engine,
            bids.last().bidder,
            bids.last().funds,
            listing_id,
        ).state
    }
}

/// Whether the bid at place `k` of a sequence is taken.
pub open spec fn taken(state: State, engine: Seq<char>, listing_id: Seq<char>, bids: Seq<BidCall>, k: int) -> bool {
    bid_rule(
        after_bids(state, engine, listing_id, bids.take(k)),
        bids[k].height,
        engine,
        bids[k].bidder,
        bids[k].funds,
        listing_id,
    ).result is Ok
}

/// The standing bid's amount after the first `n` bids of a sequence.
pub open spec fn standing(state: State, engine: Seq<char>, listing_id: Seq<char>, bids: Seq<BidCall>, n: int) -> u128 {
    after_bids(state, engine, listing_id, bids.take(n)).listings[listing_id].max_bid.amount
}

/// A call that is turned down leaves the configuration and every listing as
/// they were, whichever rule it falls under.
pub proof fn law_refusal_changes_nothing(
    state: State,
    height: u64,
    engine: Seq<char>,
    caller: Seq<char>,
    named: Option<Result<String, StdError>>,
    id: u128,
    coin: CoinView,
    funds: Seq<CoinView>,
    listing_id: Seq<char>,
    reply_id: u64,
    report: Result<Seq<EventView>, Seq<char>>,
)
    ensures
        ({
            let listed = listing_rule(state, height, engine, caller, named, id, coin);
            listed.result is Err ==> listed.state == state
        }),
        ({
            let bid = bid_rule(state, height, engine, caller, funds, listing_id);
            bid.result is Err ==> bid.state == state
        }),
        ({
            let settled = withdraw_rule(state, height, engine, listing_id);
            settled.result is Err ==> settled.state == state
        }),
        ({
            let bound = reply_rule(state, reply_id, report);
            bound.result is Err ==> bound.state == state
        }),
{
}

/// Whether every listing is kept under its own identifier.
pub open spec fn filed_by_identifier(state: State) -> bool {
    forall|key: Seq<char>| #[trigger]
        state.listings.contains_key(key) ==> state.listings[key].listing_id == key
}

/// Listings stay under their own identifiers: where that holds before a
/// listing, a bid or a settlement, it holds after it.
pub proof fn law_listings_stay_filed_by_identifier(
    state: State,
    height: u64,
    engine: Seq<char>,
    caller: Seq<char>,
    named: Option<Result<String, StdError>>,
    id: u128,
    coin: CoinView,
    funds: Seq<CoinView>,
    listing_id: Seq<char>,
)
    requires
        filed_by_identifier(state),
    ensures
        filed_by_identifier(listing_rule(state, height, engine, caller, named, id, coin).state),
        filed_by_identifier(bid_rule(state, height, engine, caller, funds, listing_id).state),
        filed_by_identifier(withdraw_rule(state, height, engine, listing_id).state),
{
}

/// Two listings have the same identifier only if they are of the same asset on
/// the same ledger.
pub proof fn law_listing_id_tells_ledger_and_asset(ledger_a: Seq<char>, id_a: u128, ledger_b: Seq<char>, id_b: u128)
    requires
        listing_id_of(ledger_a, id_a) == listing_id_of(ledger_b, id_b),
    ensures
        ledger_a == ledger_b,
        id_a == id_b,
{
    let a = listing_id_of(ledger_a, id_a);
    let b = listing_id_of(ledger_b, id_b);
    let da = decimal(id_a as nat);
    let db = decimal(id_b as nat);
    lemma_decimal_digits(id_a as nat);
    lemma_decimal_digits(id_b as nat);
    assert(!is_digit('/'));
    assert(a.len() == ledger_a.len() + 1 + da.len());
    assert(b.len() == ledger_b.len() + 1 + db.len());
    if da.len() < db.len() {
        let p = ledger_a.len() as int;
        assert(a[p] == '/');
        assert(b[p] == db[p - ledger_b.len() - 1]);
        assert(is_digit(db[p - ledger_b.len() - 1]));
        assert(false);
    }
    if db.len() < da.len() {
        let p = ledger_b.len() as int;
        assert(b[p] == '/');
        assert(a[p] == da[p - ledger_a.len() - 1]);
        assert(is_digit(da[p - ledger_a.len() - 1]));
        assert(false);
    }
    assert(ledger_a =~= a.subrange(0, ledger_a.len() as int));
    assert(ledger_b =~= b.subrange(0, ledger_b.len() as int));
    assert(da =~= a.subrange(ledger_a.len() as int + 1, a.len() as int));
    assert(db =~= b.subrange(ledger_b.len() as int + 1, b.len() as int));
    lemma_decimal_injective(id_a as nat, id_b as nat);
}

/// A bid that is taken raises the standing bid, in the same denomination, and
/// makes its caller the leader; a bid that is refused changes nothing.
pub proof fn law_bid_raises_or_changes_nothing(
    state: State,
    height: u64,
    engine: Seq<char>,
    bidder: Seq<char>,
    funds: Seq<CoinView>,
    listing_id: Seq<char>,
)
    ensures
        ({
            let outcome = bid_rule(state, height, engine, bidder, funds, listing_id);
            let before = state.listings[listing_id];
            let after = outcome.state.listings[listing_id];
            &&& outcome.result is Err ==> outcome.state == state
            &&& outcome.result is Ok ==> {
                &&& state.listings.contains_key(listing_id)
                &&& outcome.state.listings.contains_key(listing_id)
                &&& after.max_bid.amount > before.max_bid.amount
                &&& after.max_bid.denom == before.max_bid.denom
                &&& after.max_bidder == bidder
                &&& funds == seq![after.max_bid]
            }
        }),
{
    let outcome = bid_rule(state, height, engine, bidder, funds, listing_id);
    if outcome.result is Ok {
        assert(funds =~= seq![funds[0]]);
    }
}

/// Over any sequence of bids on one listing the standing bid never falls, and
/// it is higher after a stretch of the sequence than before it if a bid of
/// that stretch was taken.
pub proof fn law_standing_bid_rises(
    state: State,
    engine: Seq<char>,
    listing_id: Seq<char>,
    bids: Seq<BidCall>,
    i: int,
    j: int,
)
    requires
        state.listings.contains_key(listing_id),
        0 <= i <= j <= bids.len(),
    ensures
        after_bids(state, engine, listing_id, bids.take(j)).listings.contains_key(listing_id),
        standing(state, engine, listing_id, bids, i) <= standing(state, engine, listing_id, bids, j),
        (exists|k: int| i <= k < j && taken(state, engine, listing_id, bids, k)) ==> standing(
            state,
            engine,
            listing_id,
            bids,
            i,
        ) < standing(state, engine, listing_id, bids, j),
    decreases j,
{
    if j == 0 {
        assert(bids.take(0) =~= Seq::<BidCall>::empty());
    } else if i == j {
        law_standing_bid_rises(state, engine, listing_id, bids, 0, j - 1);
        assert(bids.take(j).drop_last() =~= bids.take(j - 1));
        assert(bids.take(j).last() == bids[j - 1]);
    } else {
        law_standing_bid_rises(state, engine, listing_id, bids, i, j - 1);
        assert(bids.take(j).drop_last() =~= bids.take(j - 1));
        assert(bids.take(j).last() == bids[j - 1]);
        let before = after_bids(state, engine, listing_id, bids.take(j - 1));
        law_bid_raises_or_changes_nothing(
            before,
            bids[j - 1].height,
            engine,
            bids[j - 1].bidder,
            bids[j - 1].funds,
            listing_id,
        );
        if exists|k: int| i <= k < j && taken(state, engine, listing_id, bids, k) {
            let k = choose|k: int| i <= k < j && taken(state, engine, listing_id, bids, k);
            if k < j - 1 {
                assert(i <= k < j - 1 && taken(state, engine, listing_id, bids, k));
            }
        }
    }
}

/// After any sequence of bids on one listing, the leader is the caller of the
/// last bid that was taken.
pub proof fn law_leader_made_last_bid_taken(
    state: State,
    engine: Seq<char>,
    listing_id: Seq<char>,
    bids: Seq<BidCall>,
    k: int,
    n: int,
)
    requires
        0 <= k < n <= bids.len(),
        taken(state, engine, listing_id, bids, k),
        forall|m: int| k < m < n ==> !taken(state, engine, listing_id, bids, m),
    ensures
        after_bids(state, engine, listing_id, bids.take(n)).listings[listing_id].max_bidder
            == bids[k].bidder,
    decreases n,
{
    assert(bids.take(n).drop_last() =~= bids.take(n - 1));
    assert(bids.take(n).last() == bids[n - 1]);
    let before = after_bids(state, engine, listing_id, bids.take(n - 1));
    law_bid_raises_or_changes_nothing(
        before,
        bids[n - 1].height,
        engine,
        bids[n - 1].bidder,
        bids[n - 1].funds,
        listing_id,
    );
    if k < n - 1 {
        law_leader_made_last_bid_taken(state, engine, listing_id, bids, k, n - 1);
        assert(!taken(state, engine, listing_id, bids, n - 1));
    }
}

/// Bids that are all refused leave the state as it was.
pub proof fn law_refused_bids_change_nothing(state: State, engine: Seq<char>, listing_id: Seq<char>, bids: Seq<BidCall>)
    requires
        forall|k: int| 0 <= k < bids.len() ==> !taken(state, engine, listing_id, bids, k),
    ensures
        after_bids(state, engine, listing_id, bids) == state,
    decreases bids.len(),
{
    if bids.len() > 0 {
        let head = bids.drop_last();
        assert forall|k: int| 0 <= k < head.len() implies !taken(
            state,
            engine,
            listing_id,
            head,
            k,
        ) by {
            assert(head.take(k) =~= bids.take(k));
            assert(!taken(state, engine, listing_id, bids, k));
        }
        law_refused_bids_change_nothing(state, engine, listing_id, head);
        let last = bids.len() - 1;
        assert(bids.take(last) =~= head);
        assert(!taken(state, engine, listing_id, bids, last));
    }
}

/// A bid of one deposit that does not exceed the standing bid is refused and
/// changes nothing; while the deadline has not passed it is refused as an
/// invalid bid.
pub proof fn law_bid_not_above_standing_is_refused(
    state: State,
    height: u64,
    engine: Seq<char>,
    bidder: Seq<char>,
    deposit: CoinView,
    listing_id: Seq<char>,
)
    requires
        state.listings.contains_key(listing_id),
        deposit.amount <= state.listings[listing_id].max_bid.amount,
    ensures
        ({
            let outcome = bid_rule(state, height, engine, bidder, seq![deposit], listing_id);
            &&& outcome.result is Err
            &&& outcome.state == state
            &&& height <= state.listings[listing_id].block_limit ==> outcome.result == Err::<
                crate::host::ResponseView,
                Refusal,
            >(Refusal::Because(ContractError::InvalidBid {  }))
        }),
{
}

/// An asset whose auction has not been settled cannot be listed again: the
/// listing is refused, and the record keeps its seller, its standing bid, its
/// leader and its deadline. So a record is written once, changed by bids
/// alone, and gone only by settlement.
pub proof fn law_live_listing_is_not_replaced(
    state: State,
    height: u64,
    engine: Seq<char>,
    seller: Seq<char>,
    named: Option<Result<String, StdError>>,
    id: u128,
    minimum_bid: CoinView,
    ledger: Seq<char>,
)
    requires
        state.listings.contains_key(listing_id_of(ledger, id)),
        state.config is Some,
        named matches Some(Ok(address)) ==> address@ == ledger,
        named is None ==> state.config->0.nft_contract_address == Some(ledger),
    ensures
        listing_rule(state, height, engine, seller, named, id, minimum_bid).result is Err,
        listing_rule(state, height, engine, seller, named, id, minimum_bid).state == state,
{
}

/// No listing changes a record: whatever is listed, and whether it goes
/// through or not, every auction that has not been settled keeps its record.
pub proof fn law_listing_changes_no_record(
    state: State,
    height: u64,
    engine: Seq<char>,
    seller: Seq<char>,
    named: Option<Result<String, StdError>>,
    id: u128,
    minimum_bid: CoinView,
    live: Seq<char>,
)
    requires
        state.listings.contains_key(live),
    ensures
        ({
            let after = listing_rule(state, height, engine, seller, named, id, minimum_bid).state;
            after.listings.contains_key(live) && after.listings[live] == state.listings[live]
        }),
{
}

/// A listing that goes through writes a record where there was none, and
/// leaves every other record as it was.
pub proof fn law_listing_adds_one_record(
    state: State,
    height: u64,
    engine: Seq<char>,
    seller: Seq<char>,
    named: Option<Result<String, StdError>>,
    id: u128,
    minimum_bid: CoinView,
    other: Seq<char>,
)
    requires
        listing_rule(state, height, engine, seller, named, id, minimum_bid).result is Ok,
    ensures
        ({
            let outcome = listing_rule(state, height, engine, seller, named, id, minimum_bid);
            let listing_id = outcome.result->Ok_0.attributes[1].value;
            &&& !state.listings.contains_key(listing_id)
            &&& outcome.state.listings.contains_key(listing_id)
            &&& state.listings.contains_key(other) ==> outcome.state.listings.contains_key(other)
                && outcome.state.listings[other] == state.listings[other]
        }),
{
}

/// Right after a listing, its record is found under the identifier that the
/// listing was tagged with: the standing bid is the seller's minimum, and the
/// bidder is the engine itself.
pub proof fn law_listing_is_found(
    state: State,
    height: u64,
    engine: Seq<char>,
    seller: Seq<char>,
    named: Option<Result<String, StdError>>,
    id: u128,
    minimum_bid: CoinView,
)
    requires
        listing_rule(state, height, engine, seller, named, id, minimum_bid).result is Ok,
    ensures
        ({
            let outcome = listing_rule(state, height, engine, seller, named, id, minimum_bid);
            let listing_id = outcome.result->Ok_0.attributes[1].value;
            let found = query_rule(outcome.state, listing_id);
            &&& found is Some
            &&& found->0.listing_id == listing_id
            &&& found->0.token_id == id
            &&& found->0.seller == seller
            &&& found->0.max_bid == minimum_bid
            &&& found->0.max_bidder == engine
            &&& found->0.block_limit == height + state.config->0.limit_block_height
            &&& listing_id == listing_id_of(found->0.contract_address, id)
        }),
{
}

/// A first bid of exactly the seller's minimum is refused.
pub proof fn law_first_bid_at_minimum_is_refused(
    state: State,
    height: u64,
    engine: Seq<char>,
    seller: Seq<char>,
    named: Option<Result<String, StdError>>,
    id: u128,
    minimum_bid: CoinView,
    bid_height: u64,
    bidder: Seq<char>,
)
    requires
        listing_rule(state, height, engine, seller, named, id, minimum_bid).result is Ok,
    ensures
        ({
            let listed = listing_rule(state, height, engine, seller, named, id, minimum_bid);
            let listing_id = listed.result->Ok_0.attributes[1].value;
            let outcome = bid_rule(
                listed.state,
                bid_height,
                engine,
                bidder,
                seq![minimum_bid],
                listing_id,
            );
            outcome.result is Err && outcome.state == listed.state
        }),
{
}

/// A settlement up to the deadline height is refused as too early and changes
/// nothing. Past the deadline it goes through and removes the listing, so
/// that a second settlement of it finds no record, at whatever height.
pub proof fn law_settlement_once_past_deadline(
    state: State,
    height: u64,
    engine: Seq<char>,
    listing_id: Seq<char>,
    later: u64,
)
    requires
        state.listings.contains_key(listing_id),
    ensures
        ({
            let outcome = withdraw_rule(state, height, engine, listing_id);
            let deadline = state.listings[listing_id].block_limit;
            &&& height <= deadline ==> outcome.state == state && outcome.result == Err::<
                crate::host::ResponseView,
                Refusal,
            >(Refusal::Because(ContractError::AuctionNotEnded {  }))
            &&& height > deadline ==> {
                &&& outcome.result is Ok
                &&& query_rule(outcome.state, listing_id) is None
                &&& withdraw_rule(outcome.state, later, engine, listing_id).result == Err::<
                    crate::host::ResponseView,
                    Refusal,
                >(Refusal::NoRecord)
                &&& withdraw_rule(outcome.state, later, engine, listing_id).state == outcome.state
            }
        }),
{
}

/// A listing that the engine still leads is settled by handing the asset
/// back to the seller: one call to the asset ledger, and no payment.
pub proof fn law_unsold_asset_returns_to_seller(state: State, height: u64, engine: Seq<char>, listing_id: Seq<char>)
    requires
        state.listings.contains_key(listing_id),
        state.listings[listing_id].block_limit < height,
        state.listings[listing_id].max_bidder == engine,
    ensures
        ({
            let listing = state.listings[listing_id];
            let response = withdraw_rule(state, height, engine, listing_id).result->Ok_0;
            &&& withdraw_rule(state, height, engine, listing_id).result is Ok
            &&& response.messages == seq![
                ledger_call(
                    listing.contract_address,
                    ExecuteMsgView::Transfer { recipient: listing.seller, token_id: listing.token_id },
                ),
            ]
            &&& forall|i: int| 0 <= i < response.messages.len() ==> !(response.messages[i] is Send)
            &&& response.submessages.len() == 0
        }),
{
}

/// A listing that another than the engine leads is settled by handing the
/// asset to the leader and the standing bid to the seller; no other payment
/// is made.
pub proof fn law_sold_asset_goes_to_leader(state: State, height: u64, engine: Seq<char>, listing_id: Seq<char>)
    requires
        state.listings.contains_key(listing_id),
        state.listings[listing_id].block_limit < height,
        state.listings[listing_id].max_bidder != engine,
    ensures
        ({
            let listing = state.listings[listing_id];
            let response = withdraw_rule(state, height, engine, listing_id).result->Ok_0;
            &&& withdraw_rule(state, height, engine, listing_id).result is Ok
            &&& response.messages == seq![
                ledger_call(
                    listing.contract_address,
                    ExecuteMsgView::Transfer {
                        recipient: listing.max_bidder,
                        token_id: listing.token_id,
                    },
                ),
                payment(listing.seller, listing.max_bid),
            ]
            &&& forall|i: int|
                0 <= i < response.messages.len() && response.messages[i] is Send
                    ==> response.messages[i] == payment(listing.seller, listing.max_bid)
            &&& response.submessages.len() == 0
        }),
{
}

/// A leader other than the engine is refunded by the very bid that replaces
/// it: that bid hands back one payment, of the replaced bid to the replaced
/// leader.
pub proof fn law_replaced_leader_is_refunded_at_once(
    state: State,
    height: u64,
    engine: Seq<char>,
    bidder: Seq<char>,
    funds: Seq<CoinView>,
    listing_id: Seq<char>,
)
    requires
        bid_rule(state, height, engine, bidder, funds, listing_id).result is Ok,
    ensures
        ({
            let replaced = state.listings[listing_id];
            let response = bid_rule(state, height, engine, bidder, funds, listing_id).result->Ok_0;
            &&& replaced.max_bidder != engine ==> response.messages == seq![
                payment(replaced.max_bidder, replaced.max_bid),
            ]
            &&& replaced.max_bidder == engine ==> response.messages.len() == 0
            &&& response.submessages.len() == 0
        }),
{
}

} // verus!
