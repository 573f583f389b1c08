//! The entry points of the asset ledger.
use crate::host::{generic_err, generic_error, views, Env, MessageInfo, Response};
use crate::nft::errors::ContractError;
use crate::nft::msg::{ExecuteMsg, InstantiateMsg, QueryMsg};
use crate::nft::rules::{
    agrees, approve_for_all_rule, approve_rule, approved_for, execute_rule, follows,
    instantiate_rule, may_approve, mint_rule, minted, newest, owner_of, transfer_from_rule,
    transfer_rule, with_holding, without,
};
use crate::nft::store::{
    holdings, read_minted_token_id_store, read_operators_store, read_owner_tokens_store,
    read_token_approvals_store, read_token_owner_store, read_token_store, readable,
    stored_ledger, text_of, token_of, write_minted_token_id_store, write_operators_store,
    write_owner_tokens_store, write_state_store, write_token_approvals_store,
    write_token_owner_store, write_token_store, Ledger,
};
use crate::nft::types::{State, Token, TokenId};
use cosmwasm_std::{MemoryStorage, StdError};
use vstd::prelude::*;

verus! {

/// Sets the ledger up under a name and a symbol.
pub fn instantiate(storage: &mut MemoryStorage, _env: Env, _info: MessageInfo, msg: InstantiateMsg) -> (r:
    Result<Response, ContractError>)
    ensures
        stored_ledger(*final(storage)) == instantiate_rule(
            stored_ledger(*old(storage)),
            msg@,
        ).ledger,
        agrees(r, instantiate_rule(stored_ledger(*old(storage)), msg@).result),
        readable(*old(storage)) ==> readable(*final(storage)),
{
    if !is_valid_name(msg.name.as_str()) {
        return Err(ContractError::InvalidNameFormat {  });
    }
    if !is_valid_symbol(msg.symbol.as_str()) {
        return Err(ContractError::InvalidSymbolFormat {  });
    }
    match write_state_store(storage, State { name: msg.name, symbol: msg.symbol }) {
        Ok(()) => {},
        Err(e) => {
            return Err(ContractError::Std(e));
        },
    }
    Ok(Response::new())
}

/// Carries out one change to the ledger, for the caller of the message. On a
/// storage whose records can all be read back, the change goes by its rule;
/// on another one the call may fail with the storage's error.
pub fn execute(storage: &mut MemoryStorage, env: Env, info: MessageInfo, msg: ExecuteMsg) -> (r: Result<
    Response,
    ContractError,
>)
    ensures
        readable(*old(storage)) ==> follows(
            *final(storage),
            r,
            execute_rule(stored_ledger(*old(storage)), info.sender@, msg@),
        ),
{
    match msg {
        ExecuteMsg::Transfer { recipient, token_id } => handle_transfer(
            storage,
            env,
            info.sender,
            recipient,
            token_id,
        ),
        ExecuteMsg::TransferFrom { sender, recipient, token_id } => handle_transfer_from(
            storage,
            env,
            sender,
            recipient,
            token_id,
        ),
        ExecuteMsg::Approve { recipient, token_id } => handle_approve(
            storage,
            env,
            info.sender,
            recipient,
            token_id,
        ),
        ExecuteMsg::ApproveForAll { opeartor, approved } => handle_approve_for_all(
            storage,
            env,
            info.sender,
            opeartor,
            approved,
        ),
        ExecuteMsg::Mint { name, uri } => handle_mint(storage, env, info.sender, name, uri),
    }
}

/// What the ledger answers to a question.
#[derive(Debug, PartialEq, Eq)]
pub enum QueryResponse {
    /// How many assets an address holds.
    Balance(usize),
    /// The owner of an asset, if it has one.
    Owner(Option<String>),
    /// Who is approved to receive an asset, if anyone.
    Allowance(Option<String>),
    /// The record of an asset, if it was minted.
    Token(Option<Token>),
}

/// Whether an answer is the true one for a question to a ledger.
pub open spec fn answers(ledger: Ledger, msg: QueryMsg, answer: QueryResponse) -> bool {
    match msg {
        QueryMsg::Balance { address } => answer matches QueryResponse::Balance(count) && count
            == holdings(ledger, address@).len(),
        QueryMsg::Owner { token_id } => answer matches QueryResponse::Owner(owner) && text_of(owner)
            == owner_of(ledger, token_id),
        QueryMsg::Allowance { token_id } => answer matches QueryResponse::Allowance(approved)
            && text_of(approved) == approved_for(ledger, token_id),
        QueryMsg::Token { token_id } => answer matches QueryResponse::Token(token) && token_of(
            token,
        ) == crate::nft::store::fetch(ledger.tokens, crate::nft::types::token_key(token_id)),
    }
}

/// Answers one question about the ledger. The call fails only on a record
/// that cannot be read back.
pub fn query(storage: &MemoryStorage, _env: Env, msg: QueryMsg) -> (r: Result<QueryResponse, StdError>)
    ensures
        readable(*storage) ==> r is Ok,
        r is Ok ==> answers(stored_ledger(*storage), msg, r->Ok_0),
{
    match msg {
        QueryMsg::Balance { address } => query_balance(storage, address),
        QueryMsg::Owner { token_id } => query_owner(storage, token_id),
        QueryMsg::Allowance { token_id } => query_allowance(storage, token_id),
        QueryMsg::Token { token_id } => query_token(storage, token_id),
    }
}

/// Moves an asset of `sender` to `recipient`.
fn handle_transfer(storage: &mut MemoryStorage, _env: Env, sender: String, recipient: String, value: u128) -> (r:
    Result<Response, ContractError>)
    ensures
        readable(*old(storage)) ==> follows(
            *final(storage),
            r,
            transfer_rule(stored_ledger(*old(storage)), sender@, recipient@, value),
        ),
{
    let token_id = TokenId::new(value);
    execute_transfer(storage, sender, recipient, token_id)
}

/// Moves an asset of `sender` to `recipient`, who must hold its approval.
fn handle_transfer_from(
    storage: &mut MemoryStorage,
    _env: Env,
    sender: String,
    recipient: String,
    value: u128,
) -> (r: Result<Response, ContractError>)
    ensures
        readable(*old(storage)) ==> follows(
            *final(storage),
            r,
            transfer_from_rule(stored_ledger(*old(storage)), sender@, recipient@, value),
        ),
{
    let token_id = TokenId::new(value);
    match validate_allowance(storage, &token_id, recipient.clone()) {
        Ok(true) => {},
        Ok(false) => {
            return Err(ContractError::NotExistTokenAllowance {  });
        },
        Err(e) => {
            return Err(ContractError::Std(e));
        },
    }
    execute_transfer(storage, sender, recipient, token_id)
}

/// Moves an asset from its owner's list to the end of the receiver's.
fn execute_transfer(storage: &mut MemoryStorage, from: String, to: String, token_id: TokenId) -> (r: Result<
    Response,
    ContractError,
>)
    ensures
        readable(*old(storage)) ==> follows(
            *final(storage),
            r,
            transfer_rule(stored_ledger(*old(storage)), from@, to@, token_id@),
        ),
{
    match validate_token_id(storage, &token_id) {
        Ok(true) => {},
        Ok(false) => {
            return Err(ContractError::NotExistToken {  });
        },
        Err(e) => {
            return Err(ContractError::Std(e));
        },
    }
    match validate_token_owner(storage, &token_id, from.clone()) {
        Ok((_, true)) => {},
        Ok((_, false)) => {
            return Err(ContractError::InvalidTokenOwner {  });
        },
        Err(e) => {
            return Err(ContractError::Std(e));
        },
    }
    match update_owner_tokens_store(storage, token_id, from.clone(), false) {
        Ok(()) => {},
        Err(e) => {
            return Err(ContractError::Std(e));
        },
    }
    match update_owner_tokens_store(storage, token_id, to.clone(), true) {
        Ok(()) => {},
        Err(e) => {
            return Err(ContractError::Std(e));
        },
    }
    match write_token_owner_store(storage, token_id, to.clone()) {
        Ok(()) => {},
        Err(e) => {
            return Err(ContractError::Std(e));
        },
    }
    let mut res = Response::new();
    res.add_attribute("action", String::from_str("transfer_from"));
    res.add_attribute("sender", from);
    res.add_attribute("recipient", to);
    res.add_attribute("token_id", token_id.as_string());
    proof {
        if readable(*old(storage)) {
            let asked = transfer_rule(stored_ledger(*old(storage)), from@, to@, token_id@);
            assert(res@.attributes =~= asked.result->Ok_0.attributes);
        }
    }
    Ok(res)
}

/// Takes an asset off an owner's list, or puts it at the end of the list.
fn update_owner_tokens_store(store: &mut MemoryStorage, token_id: TokenId, owner: String, received: bool) -> (r:
    Result<(), StdError>)
    ensures
        readable(*old(store)) ==> {
            &&& r is Ok
            &&& readable(*final(store))
            &&& stored_ledger(*final(store)) == with_holding(
                stored_ledger(*old(store)),
                token_id@,
                owner@,
                received,
            )
        },
{
    let mut token_id_set = match read_owner_tokens_store(store, owner.clone()) {
        Ok(list) => list,
        Err(e) => {
            return Err(e);
        },
    };
    if received {
        let ghost before = views(token_id_set@);
        token_id_set.push(token_id);
        assert(views(token_id_set@) =~= before.push(token_id@));
        match write_owner_tokens_store(store, owner.clone(), token_id_set) {
            Ok(()) => {},
            Err(e) => {
                return Err(e);
            },
        }
    } else {
        let ghost all = views(token_id_set@);
        let mut new_token_id_set: Vec<TokenId> = Vec::new();
        let mut i: usize = 0;
        while i < token_id_set.len()
            invariant
                i <= token_id_set.len(),
                all == views(token_id_set@),
                views(new_token_id_set@) == without(all.take(i as int), token_id@),
            decreases token_id_set.len() - i,
        {
            let elm = token_id_set[i];
            assert(all.take(i + 1).drop_last() =~= all.take(i as int));
            if !token_id.equal(&elm) {
                new_token_id_set.push(elm);
            }
            i = i + 1;
        }
        assert(all.take(i as int) =~= all);
        match write_owner_tokens_store(store, owner, new_token_id_set) {
            Ok(()) => {},
            Err(e) => {
                return Err(e);
            },
        }
    }
    Ok(())
}

/// Approves `recipient` to receive an asset, in the name of `sender`.
fn handle_approve(storage: &mut MemoryStorage, _env: Env, sender: String, recipient: String, value: u128) -> (r:
    Result<Response, ContractError>)
    ensures
        readable(*old(storage)) ==> follows(
            *final(storage),
            r,
            approve_rule(stored_ledger(*old(storage)), sender@, recipient@, value),
        ),
{
    let token_id = TokenId::new(value);
    match check_be_able_to_approve(storage, &token_id, sender.clone()) {
        Ok(true) => {},
        Ok(false) => {
            return Err(ContractError::CanNotApprove {  });
        },
        Err(e) => {
            return Err(ContractError::Std(e));
        },
    }
    match write_token_approvals_store(storage, token_id, recipient.clone()) {
        Ok(()) => {},
        Err(e) => {
            return Err(ContractError::Std(e));
        },
    }
    let mut res = Response::new();
    res.add_attribute("action", String::from_str("approve"));
    res.add_attribute("sender", sender);
    res.add_attribute("recipient", recipient);
    res.add_attribute("token_id", token_id.as_string());
    proof {
        if readable(*old(storage)) {
            let asked = approve_rule(stored_ledger(*old(storage)), sender@, recipient@, value);
            assert(res@.attributes =~= asked.result->Ok_0.attributes);
        }
    }
    Ok(res)
}

/// Names `operator` to act for `sender`, or dismisses it.
fn handle_approve_for_all(
    storage: &mut MemoryStorage,
    _env: Env,
    sender: String,
    operator: String,
    approved: bool,
) -> (r: Result<Response, ContractError>)
    ensures
        stored_ledger(*final(storage)) == approve_for_all_rule(
            stored_ledger(*old(storage)),
            sender@,
            operator@,
            approved,
        ).ledger,
        agrees(
            r,
            approve_for_all_rule(stored_ledger(*old(storage)), sender@, operator@, approved).result,
        ),
        readable(*old(storage)) ==> readable(*final(storage)),
{
    if sender == operator {
        return Err(ContractError::InvalidAddress {  });
    }
    match write_operators_store(storage, sender.clone(), operator.clone(), approved) {
        Ok(()) => {},
        Err(e) => {
            return Err(ContractError::Std(e));
        },
    }
    let mut res = Response::new();
    res.add_attribute("action", String::from_str("approve_for_all"));
    res.add_attribute("sender", sender);
    res.add_attribute("operator", operator);
    proof {
        let asked = approve_for_all_rule(
            stored_ledger(*old(storage)),
            sender@,
            operator@,
            approved,
        );
        assert(res@.attributes =~= asked.result->Ok_0.attributes);
    }
    Ok(res)
}

/// A list with the same assets in the same order.
fn copy_ids(ids: &Vec<TokenId>) -> (copy: Vec<TokenId>)
    ensures
        views(copy@) == views(ids@),
{
    let mut copy: Vec<TokenId> = Vec::new();
    let mut i: usize = 0;
    while i < ids.len()
        invariant
            i <= ids.len(),
            copy@.len() == i,
            forall|k: int| 0 <= k < i ==> copy@[k]@ == ids@[k]@,
        decreases ids.len() - i,
    {
        copy.push(ids[i]);
        i = i + 1;
    }
    copy
}

/// Mints a new asset for `owner`.
fn handle_mint(storage: &mut MemoryStorage, _env: Env, owner: String, name: String, uri: String) -> (r:
    Result<Response, ContractError>)
    ensures
        readable(*old(storage)) ==> follows(
            *final(storage),
            r,
            mint_rule(stored_ledger(*old(storage)), owner@, name@, uri@),
        ),
{
    let new_token_id = match make_token_id(storage) {
        Ok(id) => id,
        Err(e) => {
            return Err(ContractError::Std(e));
        },
    };
    let new_token = Token::new(new_token_id, name, uri);
    match write_token_store(storage, new_token_id, new_token) {
        Ok(()) => {},
        Err(e) => {
            return Err(ContractError::Std(e));
        },
    }
    match write_token_owner_store(storage, new_token_id, owner.clone()) {
        Ok(()) => {},
        Err(e) => {
            return Err(ContractError::Std(e));
        },
    }
    let mut token_id_set = match read_owner_tokens_store(storage, owner.clone()) {
        Ok(list) => list,
        Err(e) => {
            return Err(ContractError::Std(e));
        },
    };
    let ghost before = views(token_id_set@);
    token_id_set.push(new_token_id);
    assert(views(token_id_set@) =~= before.push(new_token_id@));
    match write_minted_token_id_store(storage, copy_ids(&token_id_set)) {
        Ok(()) => {},
        Err(e) => {
            return Err(ContractError::Std(e));
        },
    }
    match write_owner_tokens_store(storage, owner, token_id_set) {
        Ok(()) => {},
        Err(e) => {
            return Err(ContractError::Std(e));
        },
    }
    let mut res = Response::new();
    res.add_attribute("action", String::from_str("mint"));
    res.add_attribute("token_id", new_token_id.as_string());
    proof {
        if readable(*old(storage)) {
            let asked = mint_rule(stored_ledger(*old(storage)), owner@, name@, uri@);
            assert(res@.attributes =~= asked.result->Ok_0.attributes);
        }
    }
    Ok(res)
}

/// How many assets an address holds.
fn query_balance(storage: &MemoryStorage, address: String) -> (r: Result<QueryResponse, StdError>)
    ensures
        readable(*storage) ==> r is Ok,
        r is Ok ==> answers(stored_ledger(*storage), (QueryMsg::Balance { address }), r->Ok_0),
{
    let res = match read_owner_tokens_store(storage, address) {
        Ok(list) => list,
        Err(e) => {
            return Err(e);
        },
    };
    Ok(QueryResponse::Balance(res.len()))
}

/// The owner of an asset.
fn query_owner(storage: &MemoryStorage, value: u128) -> (r: Result<QueryResponse, StdError>)
    ensures
        readable(*storage) ==> r is Ok,
        r is Ok ==> answers(
            stored_ledger(*storage),
            (QueryMsg::Owner { token_id: value }),
            r->Ok_0,
        ),
{
    let address = match read_token_owner_store(storage, TokenId::new(value)) {
        Ok(owner) => owner,
        Err(e) => {
            return Err(e);
        },
    };
    Ok(QueryResponse::Owner(address))
}

/// Who is approved to receive an asset.
fn query_allowance(storage: &MemoryStorage, value: u128) -> (r: Result<QueryResponse, StdError>)
    ensures
        readable(*storage) ==> r is Ok,
        r is Ok ==> answers(
            stored_ledger(*storage),
            (QueryMsg::Allowance { token_id: value }),
            r->Ok_0,
        ),
{
    let token_id = TokenId::new(value);
    let res = match read_token_approvals_store(storage, token_id) {
        Ok(approved) => approved,
        Err(e) => {
            return Err(e);
        },
    };
    Ok(QueryResponse::Allowance(res))
}

/// The record of an asset.
fn query_token(storage: &MemoryStorage, value: u128) -> (r: Result<QueryResponse, StdError>)
    ensures
        readable(*storage) ==> r is Ok,
        r is Ok ==> answers(
            stored_ledger(*storage),
            (QueryMsg::Token { token_id: value }),
            r->Ok_0,
        ),
{
    let token_id = TokenId::new(value);
    let res = match read_token_store(storage, token_id) {
        Ok(token) => token,
        Err(e) => {
            return Err(e);
        },
    };
    Ok(QueryResponse::Token(res))
}

/// The number for the next asset: one after the newest, or zero where none
/// was minted.
fn make_token_id(store: &MemoryStorage) -> (r: Result<TokenId, StdError>)
    ensures
        readable(*store) ==> match r {
            Ok(id) => match newest(stored_ledger(*store)) {
                Some(last) => last < u128::MAX && id@ == last + 1,
                None => id@ == 0,
            },
            Err(e) => newest(stored_ledger(*store)) == Some(u128::MAX) && e == generic_error(
                "token id out of range"@,
            ),
        },
{
    let new_token_id = match get_current_token_id(store) {
        Ok(Some(v)) => match v.as_u128().checked_add(1) {
            Some(next) => next,
            None => {
                return Err(generic_err("token id out of range"));
            },
        },
        Ok(None) => 0,
        Err(e) => {
            return Err(e);
        },
    };
    Ok(TokenId::new(new_token_id))
}

/// The asset that was minted last, if any was.
fn get_current_token_id(store: &MemoryStorage) -> (r: Result<Option<TokenId>, StdError>)
    ensures
        readable(*store) ==> r is Ok,
        r is Ok ==> match r->Ok_0 {
            Some(id) => newest(stored_ledger(*store)) == Some(id@),
            None => newest(stored_ledger(*store)) is None,
        },
{
    let token_id_set = match read_minted_token_id_store(store) {
        Ok(Some(record)) => record,
        Ok(None) => {
            return Ok(None);
        },
        Err(e) => {
            return Err(e);
        },
    };
    if token_id_set.len() == 0 {
        return Ok(None);
    }
    let last_token_id = token_id_set[token_id_set.len() - 1];
    Ok(Some(last_token_id))
}

/// Whether an asset with this number has been minted.
fn validate_token_id(store: &MemoryStorage, token_id: &TokenId) -> (r: Result<bool, StdError>)
    ensures
        readable(*store) ==> r is Ok,
        r is Ok ==> r->Ok_0 == minted(stored_ledger(*store), token_id@),
{
    let current_token_id = match get_current_token_id(store) {
        Ok(Some(id)) => id,
        Ok(None) => {
            return Ok(false);
        },
        Err(e) => {
            return Err(e);
        },
    };
    if current_token_id.as_u128() < token_id.as_u128() {
        return Ok(false);
    }
    return Ok(true);
}

/// Whether `sender` may approve a receiver of the asset.
fn check_be_able_to_approve(store: &MemoryStorage, token_id: &TokenId, sender: String) -> (r: Result<
    bool,
    StdError,
>)
    ensures
        readable(*store) ==> r is Ok,
        r is Ok ==> r->Ok_0 == may_approve(stored_ledger(*store), token_id@, sender@),
{
    let (token_owner, is_owner) = match validate_token_owner(store, token_id, sender.clone()) {
        Ok(found) => found,
        Err(e) => {
            return Err(e);
        },
    };
    if is_owner {
        return Ok(true);
    }
    let owner = match token_owner {
        Some(owner) => owner,
        None => {
            return Ok(false);
        },
    };
    let op = match read_operators_store(store, owner, sender) {
        Ok(flag) => flag,
        Err(e) => {
            return Err(e);
        },
    };
    match op {
        Some(true) => Ok(true),
        _ => Ok(false),
    }
}

/// The owner of the asset, and whether it is `addr`.
fn validate_token_owner(store: &MemoryStorage, token_id: &TokenId, addr: String) -> (r: Result<
    (Option<String>, bool),
    StdError,
>)
    ensures
        readable(*store) ==> r is Ok,
        r is Ok ==> {
            &&& text_of(r->Ok_0.0) == owner_of(stored_ledger(*store), token_id@)
            &&& r->Ok_0.1 == (owner_of(stored_ledger(*store), token_id@) == Some(addr@))
        },
{
    let token_owner: Option<String> = match read_token_owner_store(store, *token_id) {
        Ok(owner) => owner,
        Err(e) => {
            return Err(e);
        },
    };
    let is_owner = match &token_owner {
        None => false,
        Some(owner) => *owner == addr,
    };
    return Ok((token_owner, is_owner));
}

/// Whether the asset is approved for `addr`.
fn validate_allowance(store: &MemoryStorage, token_id: &TokenId, addr: String) -> (r: Result<
    bool,
    StdError,
>)
    ensures
        readable(*store) ==> r is Ok,
        r is Ok ==> r->Ok_0 == (approved_for(stored_ledger(*store), token_id@) == Some(addr@)),
{
    let token_approval = match read_token_approvals_store(store, *token_id) {
        Ok(approved) => approved,
        Err(e) => {
            return Err(e);
        },
    };
    match token_approval {
        None => Ok(false),
        Some(approved) => Ok(approved == addr),
    }
}

/// Whether a ledger may bear this name: three to thirty characters.
pub fn is_valid_name(name: &str) -> (valid: bool)
    ensures
        valid == (3 <= name@.len() <= 30),
{
    let count = name.unicode_len();
    if count < 3 || count > 30 {
        return false;
    }
    return true;
}

/// Whether a ledger may bear this symbol: three to thirty characters.
pub fn is_valid_symbol(symbol: &str) -> (valid: bool)
    ensures
        valid == (3 <= symbol@.len() <= 30),
{
    let count = symbol.unicode_len();
    if count < 3 || count > 30 {
        return false;
    }
    return true;
}

} // verus!
