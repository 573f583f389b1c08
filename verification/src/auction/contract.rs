//! The entry points of the auction engine.
use crate::auction::error::ContractError;
use crate::auction::msg::{ExecuteMsg, InstantiateMsg, QueryMsg};
use crate::auction::rules::{
    agrees, bid_rule, first_of_kind, instantiate_rule, last_value, ledger_call, listing_id_of,
    listing_rule, payment, query_rule, reply_rule, state_of, withdraw_rule, Outcome, Refusal,
    State, INSTANTIATE_REPLY_ID,
};
use crate::auction::state::{
    load_auction, load_listing, remove_listing, save_auction, save_listing, Auction,
    ListingToken,
};
use crate::host::{
    generic_err, views, Attribute, BankMsg, Coin, CosmosMsg, Env, Event, EventView, MessageInfo, Reply,
    ReplyOn, Response, ResponseView, SubcallResponse, WasmMsg,
};
use crate::text::decimal_string;
use cosmwasm_std::{MemoryStorage, StdError};
use vstd::prelude::*;

verus! {

/// The identifier of the listing of asset `id` on the ledger at `ledger`.
pub fn make_listing_id(ledger: &str, id: u128) -> (listing_id: String)
    ensures
        listing_id@ == listing_id_of(ledger@, id),
{
    let mut listing_id = String::from_str(ledger);
    listing_id.append("/");
    let digits = decimal_string(id);
    listing_id.append(digits.as_str());
    proof {
        reveal_strlit("/");
    }
    listing_id
}

/// A call to the asset ledger at `ledger`, with no funds attached.
fn ledger_message(ledger: &String, msg: crate::nft::msg::ExecuteMsg) -> (call: CosmosMsg)
    ensures
        call@ == ledger_call(ledger@, msg@),
{
    let send: Vec<Coin> = Vec::new();
    assert(views(send@) =~= seq![]);
    CosmosMsg::Wasm(WasmMsg::Execute { contract_addr: ledger.clone(), msg, send })
}

/// A payment of one coin out of the engine's balance.
fn payment_message(to: String, coin: Coin) -> (call: CosmosMsg)
    ensures
        call@ == payment(to@, coin@),
{
    let mut amount: Vec<Coin> = Vec::new();
    amount.push(coin);
    assert(views(amount@) =~= seq![coin@]);
    CosmosMsg::Bank(BankMsg::Send { to_address: to, amount })
}

/// Sets the engine up: stores the bidding window and, where `msg` asks for a
/// companion asset ledger, requests its creation.
pub fn instantiate(storage: &mut MemoryStorage, _env: Env, info: MessageInfo, msg: InstantiateMsg) -> (r:
    Result<Response, ContractError>)
    ensures
        state_of(*final(storage)) == instantiate_rule(
            state_of(*old(storage)),
            info.sender@,
            msg@,
        ).state,
        agrees(r, instantiate_rule(state_of(*old(storage)), info.sender@, msg@).result),
{
    let mut res = Response::new();
    match msg.auction_nft {
        Some(v) => {
            let send: Vec<Coin> = Vec::new();
            assert(views(send@) =~= seq![]);
            let instantiate_msg = WasmMsg::Instantiate {
                admin: Some(info.sender),
                code_id: v.nft_code_id,
                msg: crate::nft::msg::InstantiateMsg {
                    name: v.nft_contract_name,
                    symbol: v.nft_contract_symbol,
                },
                send,
                label: String::from_str("auction-nft"),
            };
            res.add_submessage(
                INSTANTIATE_REPLY_ID,
                CosmosMsg::Wasm(instantiate_msg),
                None,
                ReplyOn::Success,
            );
        },
        None => {},
    }
    let config_state = Auction {
        nft_contract_address: None,
        limit_block_height: msg.auction_limit_block_height,
    };
    match save_auction(storage, &config_state) {
        Ok(()) => {},
        Err(e) => {
            return Err(ContractError::Std(e));
        },
    }
    Ok(res)
}

/// Carries out one change to the auctions.
pub fn execute(storage: &mut MemoryStorage, env: Env, info: MessageInfo, msg: ExecuteMsg) -> (r: Result<
    Response,
    ContractError,
>)
    ensures
        state_of(*final(storage)) == execute_rule(state_of(*old(storage)), env, info, msg).state,
        agrees(r, execute_rule(state_of(*old(storage)), env, info, msg).result),
{
    match msg {
        ExecuteMsg::Listing { nft_contract_address, id, minimum_bid } => {
            execute_listing(storage, env, info, nft_contract_address, id, minimum_bid)
        },
        ExecuteMsg::Bid { listing_id } => execute_bid(storage, env, info, listing_id),
        ExecuteMsg::Withdraw { listing_id } => execute_withdraw(storage, env, info, listing_id),
    }
}

/// The rule that a change falls under.
pub open spec fn execute_rule(state: State, env: Env, info: MessageInfo, msg: ExecuteMsg) -> Outcome {
    match msg {
        ExecuteMsg::Listing { nft_contract_address, id, minimum_bid } => listing_rule(
            state,
            env.block.height,
            env.contract.address@,
            info.sender@,
            nft_contract_address,
            id,
            minimum_bid@,
        ),
        ExecuteMsg::Bid { listing_id } => bid_rule(
            state,
            env.block.height,
            env.contract.address@,
            info.sender@,
            views(info.funds@),
            listing_id@,
        ),
        ExecuteMsg::Withdraw { listing_id } => withdraw_rule(
            state,
            env.block.height,
            env.contract.address@,
            listing_id@,
        ),
    }
}

/// Puts the caller's asset `id` up for auction: stores the new listing and asks
/// the asset ledger to approve the engine and to move the asset into its
/// custody. An asset whose auction has not been settled is not listed again.
pub fn execute_listing(
    storage: &mut MemoryStorage,
    env: Env,
    info: MessageInfo,
    nft_contract_address: Option<Result<String, StdError>>,
    id: u128,
    minimum_bid: Coin,
) -> (r: Result<Response, ContractError>)
    ensures
        state_of(*final(storage)) == listing_rule(
            state_of(*old(storage)),
            env.block.height,
            env.contract.address@,
            info.sender@,
            nft_contract_address,
            id,
            minimum_bid@,
        ).state,
        agrees(
            r,
            listing_rule(
                state_of(*old(storage)),
                env.block.height,
                env.contract.address@,
                info.sender@,
                nft_contract_address,
                id,
                minimum_bid@,
            ).result,
        ),
{
    let auction_config = match load_auction(storage) {
        Ok(config) => config,
        Err(e) => {
            return Err(ContractError::Std(e));
        },
    };
    let contract_address: String = match nft_contract_address {
        None => match auction_config.nft_contract_address {
            Some(address) => address,
            None => {
                return Err(ContractError::Std(generic_err("nft contract address not set")));
            },
        },
        Some(Ok(address)) => address,
        Some(Err(e)) => {
            return Err(ContractError::Std(e));
        },
    };
    let listing_id = make_listing_id(contract_address.as_str(), id);
    match load_listing(storage, listing_id.as_str()) {
        Ok(_) => {
            return Err(ContractError::Std(generic_err("listing exists")));
        },
        Err(_) => {},
    }
    let block_limit = match env.block.height.checked_add(auction_config.limit_block_height) {
        Some(height) => height,
        None => {
            return Err(ContractError::Std(generic_err("deadline height out of range")));
        },
    };
    let listing_token = ListingToken {
        listing_id: listing_id.clone(),
        token_id: id,
        contract_address: contract_address.clone(),
        seller: info.sender.clone(),
        max_bid: minimum_bid,
        max_bidder: env.contract.address.clone(),
        block_limit,
    };
    match save_listing(storage, listing_id.as_str(), &listing_token) {
        Ok(()) => {},
        Err(e) => {
            return Err(ContractError::Std(e));
        },
    }
    let mut res = Response::new();
    res.add_attribute("action", String::from_str("listing"));
    res.add_attribute("listing_id", listing_id);
    res.add_message(
        ledger_message(
            &contract_address,
            crate::nft::msg::ExecuteMsg::Approve {
                recipient: env.contract.address.clone(),
                token_id: id,
            },
        ),
    );
    res.add_message(
        ledger_message(
            &contract_address,
            crate::nft::msg::ExecuteMsg::TransferFrom {
                sender: info.sender,
                recipient: env.contract.address,
                token_id: id,
            },
        ),
    );
    proof {
        let asked = listing_rule(
            state_of(*old(storage)),
            env.block.height,
            env.contract.address@,
            info.sender@,
            nft_contract_address,
            id,
            minimum_bid@,
        ).result->Ok_0;
        assert(res@.attributes =~= asked.attributes);
        assert(res@.messages =~= asked.messages);
    }
    Ok(res)
}

/// Takes the one deposit that comes with the call as a bid on a listing, and
/// refunds the bidder that it replaces.
pub fn execute_bid(storage: &mut MemoryStorage, env: Env, info: MessageInfo, listing_id: String) -> (r:
    Result<Response, ContractError>)
    ensures
        state_of(*final(storage)) == bid_rule(
            state_of(*old(storage)),
            env.block.height,
            env.contract.address@,
            info.sender@,
            views(info.funds@),
            listing_id@,
        ).state,
        agrees(
            r,
            bid_rule(
                state_of(*old(storage)),
                env.block.height,
                env.contract.address@,
                info.sender@,
                views(info.funds@),
                listing_id@,
            ).result,
        ),
{
    let listing = match load_listing(storage, listing_id.as_str()) {
        Ok(listing) => listing,
        Err(e) => {
            return Err(ContractError::Std(e));
        },
    };
    if listing.block_limit < env.block.height {
        return Err(ContractError::AuctionEnded {  });
    }
    if info.funds.len() != 1 {
        return Err(ContractError::InvalidBid {  });
    }
    let mut funds = info.funds;
    let send_fund = match funds.pop() {
        Some(fund) => fund,
        None => {
            return Err(ContractError::InvalidBid {  });
        },
    };
    if send_fund.amount <= listing.max_bid.amount || !(send_fund.denom == listing.max_bid.denom) {
        return Err(ContractError::InvalidBid {  });
    }
    let ListingToken {
        listing_id: id,
        token_id,
        contract_address,
        seller,
        max_bid: last_bid,
        max_bidder: last_bidder,
        block_limit,
    } = listing;
    let raised = ListingToken {
        listing_id: id,
        token_id,
        contract_address,
        seller,
        max_bid: send_fund,
        max_bidder: info.sender,
        block_limit,
    };
    match save_listing(storage, listing_id.as_str(), &raised) {
        Ok(()) => {},
        Err(e) => {
            return Err(ContractError::Std(e));
        },
    }
    let mut res = Response::new();
    res.add_attribute("action", String::from_str("bid"));
    res.add_attribute("listing_id", listing_id);
    if !(env.contract.address == last_bidder) {
        res.add_message(payment_message(last_bidder, last_bid));
    }
    proof {
        let asked = bid_rule(
            state_of(*old(storage)),
            env.block.height,
            env.contract.address@,
            info.sender@,
            views(info.funds@),
            listing_id@,
        ).result->Ok_0;
        assert(res@.attributes =~= asked.attributes);
    }
    Ok(res)
}

/// Settles an auction whose deadline has passed: removes the listing, hands
/// the asset to the leader and the standing bid to the seller, or hands the
/// asset back to the seller where nobody bid.
pub fn execute_withdraw(storage: &mut MemoryStorage, env: Env, _info: MessageInfo, listing_id: String) -> (r:
    Result<Response, ContractError>)
    ensures
        state_of(*final(storage)) == withdraw_rule(
            state_of(*old(storage)),
            env.block.height,
            env.contract.address@,
            listing_id@,
        ).state,
        agrees(
            r,
            withdraw_rule(
                state_of(*old(storage)),
                env.block.height,
                env.contract.address@,
                listing_id@,
            ).result,
        ),
{
    let listing = match load_listing(storage, listing_id.as_str()) {
        Ok(listing) => listing,
        Err(e) => {
            return Err(ContractError::Std(e));
        },
    };
    if listing.block_limit >= env.block.height {
        return Err(ContractError::AuctionNotEnded {  });
    }
    remove_listing(storage, listing_id.as_str());
    let mut res = Response::new();
    res.add_attribute("action", String::from_str("withdraw"));
    if !(env.contract.address == listing.max_bidder) {
        res.add_attribute("status", String::from_str("sold"));
        res.add_attribute("listing_id", listing_id);
        res.add_message(
            ledger_message(
                &listing.contract_address,
                crate::nft::msg::ExecuteMsg::Transfer {
                    recipient: listing.max_bidder,
                    token_id: listing.token_id,
                },
            ),
        );
        res.add_message(payment_message(listing.seller, listing.max_bid));
    } else {
        res.add_attribute("status", String::from_str("unsold"));
        res.add_attribute("listing_id", listing_id);
        res.add_message(
            ledger_message(
                &listing.contract_address,
                crate::nft::msg::ExecuteMsg::Transfer {
                    recipient: listing.seller,
                    token_id: listing.token_id,
                },
            ),
        );
    }
    proof {
        let asked = withdraw_rule(
            state_of(*old(storage)),
            env.block.height,
            env.contract.address@,
            listing_id@,
        ).result->Ok_0;
        assert(res@.attributes =~= asked.attributes);
        assert(res@.messages =~= asked.messages);
    }
    Ok(res)
}

/// Answers one question about the auctions.
pub fn query(storage: &MemoryStorage, _env: Env, msg: QueryMsg) -> (r: Result<ListingToken, StdError>)
    ensures
        match msg {
            QueryMsg::ListingToken { listing_id } => match r {
                Ok(listing) => query_rule(state_of(*storage), listing_id@) == Some(listing@),
                Err(_) => query_rule(state_of(*storage), listing_id@) is None,
            },
        },
{
    match msg {
        QueryMsg::ListingToken { listing_id } => query_listing_token(storage, listing_id),
    }
}

/// The record of a listing, or the storage's error where it holds none under
/// this identifier.
pub fn query_listing_token(storage: &MemoryStorage, listing_id: String) -> (r: Result<
    ListingToken,
    StdError,
>)
    ensures
        match r {
            Ok(listing) => query_rule(state_of(*storage), listing_id@) == Some(listing@),
            Err(_) => query_rule(state_of(*storage), listing_id@) is None,
        },
{
    load_listing(storage, listing_id.as_str())
}

/// The events of a report, or the host's message of the failure.
pub open spec fn report_of(result: Result<SubcallResponse, String>) -> Result<Seq<EventView>, Seq<char>> {
    match result {
        Ok(response) => Ok(views(response.events@)),
        Err(message) => Err(message@),
    }
}

/// Whether what the binding returned is what its rule asks for.
pub open spec fn agrees_std(returned: Result<Response, StdError>, asked: Result<ResponseView, Refusal>) -> bool {
    match asked {
        Ok(response) => returned is Ok && returned->Ok_0@ == response,
        Err(Refusal::NoRecord) => returned is Err,
        Err(Refusal::Because(error)) => returned is Err && ContractError::Std(returned->Err_0)
            == error,
    }
}

/// Takes the host's report on the creation of the companion asset ledger, and
/// binds the new ledger's address in the configuration.
pub fn reply(storage: &mut MemoryStorage, _env: Env, report: Reply) -> (r: Result<Response, StdError>)
    ensures
        state_of(*final(storage)) == reply_rule(
            state_of(*old(storage)),
            report.id,
            report_of(report.result),
        ).state,
        agrees_std(r, reply_rule(state_of(*old(storage)), report.id, report_of(report.result)).result),
{
    if report.id != INSTANTIATE_REPLY_ID {
        return Err(generic_err("invalid reply id or result"));
    }
    match report.result {
        Ok(response) => handle_instantiate_reply(storage, response),
        Err(_) => Err(generic_err("invalid reply id or result")),
    }
}

/// The place of the first event of the given kind.
fn find_event(events: &Vec<Event>, kind: &str) -> (found: Option<usize>)
    ensures
        match found {
            Some(i) => i < events.len() && first_of_kind(views(events@), kind@) == Some(events[i as int]@),
            None => first_of_kind(views(events@), kind@) is None,
        },
{
    let wanted = String::from_str(kind);
    let ghost all = views(events@);
    let mut i: usize = 0;
    assert(all.skip(0) =~= all);
    while i < events.len()
        invariant
            i <= events.len(),
            all == views(events@),
            wanted@ == kind@,
            first_of_kind(all, kind@) == first_of_kind(all.skip(i as int), kind@),
        decreases events.len() - i,
    {
        if events[i].kind == wanted {
            return Some(i);
        }
        assert(all.skip(i as int).drop_first() =~= all.skip(i + 1));
        i = i + 1;
    }
    None
}

/// The value of the last tag with the given key.
fn find_value(attributes: &Vec<Attribute>, key: &str) -> (found: Option<String>)
    ensures
        match found {
            Some(value) => last_value(views(attributes@), key@) == Some(value@),
            None => last_value(views(attributes@), key@) is None,
        },
{
    let wanted = String::from_str(key);
    let ghost all = views(attributes@);
    let mut i: usize = attributes.len();
    assert(all.take(i as int) =~= all);
    while i > 0
        invariant
            i <= attributes.len(),
            all == views(attributes@),
            wanted@ == key@,
            last_value(all, key@) == last_value(all.take(i as int), key@),
        decreases i,
    {
        if attributes[i - 1].key == wanted {
            return Some(attributes[i - 1].value.clone());
        }
        assert(all.take(i as int).drop_last() =~= all.take(i - 1));
        i = i - 1;
    }
    None
}

/// Binds the address that the events of a creation name, unless one is bound
/// already.
fn handle_instantiate_reply(storage: &mut MemoryStorage, responses: SubcallResponse) -> (r: Result<
    Response,
    StdError,
>)
    ensures
        state_of(*final(storage)) == reply_rule(
            state_of(*old(storage)),
            INSTANTIATE_REPLY_ID,
            Ok(views(responses.events@)),
        ).state,
        agrees_std(
            r,
            reply_rule(
                state_of(*old(storage)),
                INSTANTIATE_REPLY_ID,
                Ok(views(responses.events@)),
            ).result,
        ),
{
    let contract_address = match find_event(&responses.events, "wasm") {
        None => {
            return Err(generic_err("wasm not found"));
        },
        Some(i) => match find_value(&responses.events[i].attributes, "contract_address") {
            None => {
                return Err(generic_err("contract address not found"));
            },
            Some(address) => address,
        },
    };
    let auction_config = match load_auction(storage) {
        Ok(config) => config,
        Err(e) => {
            return Err(e);
        },
    };
    if auction_config.nft_contract_address.is_some() {
        return Err(generic_err("invalid reply id or result"));
    }
    let bound = Auction {
        nft_contract_address: Some(contract_address.clone()),
        limit_block_height: auction_config.limit_block_height,
    };
    match save_auction(storage, &bound) {
        Ok(()) => {},
        Err(e) => {
            return Err(e);
        },
    }
    let mut res = Response::new();
    res.add_attribute("nft_auction_contract_address", contract_address);
    Ok(res)
}

} // verus!
