//! What the asset ledger keeps between calls, and how it reads and writes it.
use crate::host::views;
use crate::nft::constant::{
    CONFIG, KEY_STATE, MINTED_TOKEN_ID, MINTER, OPERATORS, OWNER_TOKENS, TOKEN, TOKEN_APPROVALS,
    TOKEN_OWNER,
};
use crate::nft::types::{token_key, OperatorKey, State, StateView, Token, TokenId, TokenView};
use cosmwasm_std::{to_vec, MemoryStorage, StdError, Uint128};
use cosmwasm_storage::{bucket, bucket_read, PrefixedStorage};
use vstd::bytes::spec_u64_to_le_bytes;
use vstd::prelude::*;
use vstd::utf8::encode_utf8;

verus! {

/// The records of an asset ledger, region by region.
pub struct Ledger {
    /// The ledger's name and symbol, once set up.
    pub state: Option<StateView>,
    /// Whether an owner has named an operator, under [`operator_key`].
    pub operators: Map<Seq<u8>, bool>,
    /// The assets, each under its [`token_key`].
    pub tokens: Map<Seq<u8>, TokenView>,
    /// The assets of each owner, in the order in which they came.
    pub owner_tokens: Map<Seq<char>, Seq<u128>>,
    /// The owner of each asset, under its [`token_key`].
    pub token_owner: Map<Seq<u8>, Seq<char>>,
    /// Who is approved to receive each asset, under its [`token_key`].
    pub token_approvals: Map<Seq<u8>, Seq<char>>,
    /// The lists of minted assets; the ledger keeps one, under `minter`.
    pub minted: Map<Seq<char>, Seq<u128>>,
}

/// The ledger that a storage holds: in each region, the records that can be
/// read back.
pub uninterp spec fn stored_ledger(storage: MemoryStorage) -> Ledger;

/// Whether every record in the ledger's regions of a storage can be read back.
/// This holds of a new storage and of every storage that only the ledger has
/// written to.
pub uninterp spec fn readable(storage: MemoryStorage) -> bool;

/// The value under a key, if there is one.
pub open spec fn fetch<K, V>(map: Map<K, V>, key: K) -> Option<V> {
    if map.contains_key(key) {
        Some(map[key])
    } else {
        None
    }
}

pub open spec fn text_of(text: Option<String>) -> Option<Seq<char>> {
    match text {
        Some(t) => Some(t@),
        None => None,
    }
}

pub open spec fn ids_of(ids: Option<Vec<TokenId>>) -> Option<Seq<u128>> {
    match ids {
        Some(list) => Some(views(list@)),
        None => None,
    }
}

pub open spec fn token_of(token: Option<Token>) -> Option<TokenView> {
    match token {
        Some(t) => Some(t@),
        None => None,
    }
}

/// The key of an owner and an operator in the storage: for each of the two,
/// the length of its UTF-8 form as eight bytes, lowest first, and then that
/// form.
pub open spec fn operator_key(sender: Seq<char>, operator: Seq<char>) -> Seq<u8> {
    spec_u64_to_le_bytes(encode_utf8(sender).len() as u64) + encode_utf8(sender)
        + spec_u64_to_le_bytes(encode_utf8(operator).len() as u64) + encode_utf8(operator)
}

/// Calls `bincode::serialize`, which writes the two strings one after the
/// other, each as its length in eight bytes, lowest first, and its UTF-8
/// form. With no size limit set it returns no error.
#[verifier::external_body]
fn operator_key_bytes(key: &OperatorKey) -> (bytes: Vec<u8>)
    ensures
        bytes@ == operator_key(key.sender@, key.operator@),
{
    bincode::serialize(&(&key.sender, &key.operator)).unwrap()
}

/// Calls `to_vec` and `PrefixedStorage::set` on the configuration region. The
/// record is written as two strings, for which the encoder returns no error,
/// so the call succeeds; it replaces the ledger's name and symbol and touches
/// nothing else.
#[verifier::external_body]
fn save_state(store: &mut MemoryStorage, state: &State) -> (r: Result<(), StdError>)
    ensures
        r is Ok,
        readable(*old(store)) ==> readable(*final(store)),
        stored_ledger(*final(store)) == (Ledger {
            state: Some(state@),
            ..stored_ledger(*old(store))
        }),
{
    let bytes = to_vec(&(&state.name, &state.symbol))?;
    PrefixedStorage::new(store, CONFIG.as_bytes()).set(KEY_STATE.as_bytes(), &bytes);
    Ok(())
}

/// Calls `ReadonlyBucket::may_load` on the operator region: the flag that was
/// saved last under `key`, if any. It fails only on a record that cannot be
/// read back.
#[verifier::external_body]
fn load_operator(store: &MemoryStorage, key: &[u8]) -> (r: Result<Option<bool>, StdError>)
    ensures
        readable(*store) ==> r is Ok,
        r is Ok ==> r->Ok_0 == fetch(stored_ledger(*store).operators, key@),
{
    bucket_read(store, OPERATORS.as_bytes()).may_load(key)
}

/// Calls `Bucket::save` on the operator region. The encoder returns no error
/// for a flag, so the call succeeds; it puts the flag under `key` and touches
/// nothing else.
#[verifier::external_body]
fn save_operator(store: &mut MemoryStorage, key: &[u8], approved: bool) -> (r: Result<
    (),
    StdError,
>)
    ensures
        r is Ok,
        readable(*old(store)) ==> readable(*final(store)),
        stored_ledger(*final(store)) == (Ledger {
            operators: stored_ledger(*old(store)).operators.insert(key@, approved),
            ..stored_ledger(*old(store))
        }),
{
    bucket(store, OPERATORS.as_bytes()).save(key, &approved)
}

/// Calls `ReadonlyBucket::may_load` on the asset region: the asset that was
/// saved last under `key`, if any. It fails only on a record that cannot be
/// read back.
#[verifier::external_body]
fn load_token(store: &MemoryStorage, key: &[u8]) -> (r: Result<Option<Token>, StdError>)
    ensures
        readable(*store) ==> r is Ok,
        r is Ok ==> token_of(r->Ok_0) == fetch(stored_ledger(*store).tokens, key@),
{
    let record: Option<(Uint128, String, String)> = bucket_read(store, TOKEN.as_bytes()).may_load(
        key,
    )?;
    Ok(record.map(|(id, name, uri)| Token { token_id: TokenId(id.u128()), name, uri }))
}

/// Calls `Bucket::save` on the asset region. The record is written as
/// strings, for which the encoder returns no error, so the call succeeds; it
/// puts the asset under `key` and touches nothing else.
#[verifier::external_body]
fn save_token(store: &mut MemoryStorage, key: &[u8], token: &Token) -> (r: Result<(), StdError>)
    ensures
        r is Ok,
        readable(*old(store)) ==> readable(*final(store)),
        stored_ledger(*final(store)) == (Ledger {
            tokens: stored_ledger(*old(store)).tokens.insert(key@, token@),
            ..stored_ledger(*old(store))
        }),
{
    let record = (Uint128(token.token_id.0), token.name.clone(), token.uri.clone());
    bucket(store, TOKEN.as_bytes()).save(key, &record)
}

/// Calls `ReadonlyBucket::may_load` on the region of the owners' assets: the
/// list that was saved last under `owner`, if any. It fails only on a record
/// that cannot be read back.
#[verifier::external_body]
fn load_owner_tokens(store: &MemoryStorage, owner: &str) -> (r: Result<
    Option<Vec<TokenId>>,
    StdError,
>)
    ensures
        readable(*store) ==> r is Ok,
        r is Ok ==> ids_of(r->Ok_0) == fetch(stored_ledger(*store).owner_tokens, owner@),
{
    let record: Option<Vec<Uint128>> = bucket_read(store, OWNER_TOKENS.as_bytes()).may_load(
        owner.as_bytes(),
    )?;
    Ok(record.map(|ids| ids.into_iter().map(|id| TokenId(id.u128())).collect()))
}

/// Calls `Bucket::save` on the region of the owners' assets. The list is
/// written as strings, for which the encoder returns no error, so the call
/// succeeds; it puts the list under `owner` and touches nothing else.
#[verifier::external_body]
fn save_owner_tokens(store: &mut MemoryStorage, owner: &str, ids: &Vec<TokenId>) -> (r: Result<
    (),
    StdError,
>)
    ensures
        r is Ok,
        readable(*old(store)) ==> readable(*final(store)),
        stored_ledger(*final(store)) == (Ledger {
            owner_tokens: stored_ledger(*old(store)).owner_tokens.insert(owner@, views(ids@)),
            ..stored_ledger(*old(store))
        }),
{
    let record: Vec<Uint128> = ids.iter().map(|id| Uint128(id.0)).collect();
    bucket(store, OWNER_TOKENS.as_bytes()).save(owner.as_bytes(), &record)
}

/// Calls `ReadonlyBucket::may_load` on the owner region: the owner that was
/// saved last under `key`, if any. It fails only on a record that cannot be
/// read back.
#[verifier::external_body]
fn load_token_owner(store: &MemoryStorage, key: &[u8]) -> (r: Result<Option<String>, StdError>)
    ensures
        readable(*store) ==> r is Ok,
        r is Ok ==> text_of(r->Ok_0) == fetch(stored_ledger(*store).token_owner, key@),
{
    bucket_read(store, TOKEN_OWNER.as_bytes()).may_load(key)
}

/// Calls `Bucket::save` on the owner region. The encoder returns no error for
/// a string, so the call succeeds; it puts the owner under `key` and touches
/// nothing else.
#[verifier::external_body]
fn save_token_owner(store: &mut MemoryStorage, key: &[u8], owner: &String) -> (r: Result<
    (),
    StdError,
>)
    ensures
        r is Ok,
        readable(*old(store)) ==> readable(*final(store)),
        stored_ledger(*final(store)) == (Ledger {
            token_owner: stored_ledger(*old(store)).token_owner.insert(key@, owner@),
            ..stored_ledger(*old(store))
        }),
{
    bucket(store, TOKEN_OWNER.as_bytes()).save(key, owner)
}

/// Calls `ReadonlyBucket::may_load` on the region of the minted assets: the
/// list that was saved last under `key`, if any. It fails only on a record
/// that cannot be read back.
#[verifier::external_body]
fn load_minted(store: &MemoryStorage, key: &str) -> (r: Result<Option<Vec<TokenId>>, StdError>)
    ensures
        readable(*store) ==> r is Ok,
        r is Ok ==> ids_of(r->Ok_0) == fetch(stored_ledger(*store).minted, key@),
{
    let record: Option<Vec<Uint128>> = bucket_read(store, MINTED_TOKEN_ID.as_bytes()).may_load(
        key.as_bytes(),
    )?;
    Ok(record.map(|ids| ids.into_iter().map(|id| TokenId(id.u128())).collect()))
}

/// Calls `Bucket::save` on the region of the minted assets. The list is
/// written as strings, for which the encoder returns no error, so the call
/// succeeds; it puts the list under `key` and touches nothing else.
#[verifier::external_body]
fn save_minted(store: &mut MemoryStorage, key: &str, ids: &Vec<TokenId>) -> (r: Result<
    (),
    StdError,
>)
    ensures
        r is Ok,
        readable(*old(store)) ==> readable(*final(store)),
        stored_ledger(*final(store)) == (Ledger {
            minted: stored_ledger(*old(store)).minted.insert(key@, views(ids@)),
            ..stored_ledger(*old(store))
        }),
{
    let record: Vec<Uint128> = ids.iter().map(|id| Uint128(id.0)).collect();
    bucket(store, MINTED_TOKEN_ID.as_bytes()).save(key.as_bytes(), &record)
}

/// Calls `ReadonlyBucket::may_load` on the approval region: the address that
/// was saved last under `key`, if any. It fails only on a record that cannot
/// be read back.
#[verifier::external_body]
fn load_token_approval(store: &MemoryStorage, key: &[u8]) -> (r: Result<Option<String>, StdError>)
    ensures
        readable(*store) ==> r is Ok,
        r is Ok ==> text_of(r->Ok_0) == fetch(stored_ledger(*store).token_approvals, key@),
{
    bucket_read(store, TOKEN_APPROVALS.as_bytes()).may_load(key)
}

/// Calls `Bucket::save` on the approval region. The encoder returns no error
/// for a string, so the call succeeds; it puts the address under `key` and
/// touches nothing else.
#[verifier::external_body]
fn save_token_approval(store: &mut MemoryStorage, key: &[u8], addr: &String) -> (r: Result<
    (),
    StdError,
>)
    ensures
        r is Ok,
        readable(*old(store)) ==> readable(*final(store)),
        stored_ledger(*final(store)) == (Ledger {
            token_approvals: stored_ledger(*old(store)).token_approvals.insert(key@, addr@),
            ..stored_ledger(*old(store))
        }),
{
    bucket(store, TOKEN_APPROVALS.as_bytes()).save(key, addr)
}

/// Stores the ledger's name and symbol.
pub fn write_state_store(store: &mut MemoryStorage, state: State) -> (r: Result<(), StdError>)
    ensures
        r is Ok,
        readable(*old(store)) ==> readable(*final(store)),
        stored_ledger(*final(store)) == (Ledger {
            state: Some(state@),
            ..stored_ledger(*old(store))
        }),
{
    save_state(store, &state)
}

/// Whether `sender` has named `operator` to act for it, if it ever said so.
pub fn read_operators_store(store: &MemoryStorage, sender: String, operator: String) -> (r: Result<
    Option<bool>,
    StdError,
>)
    ensures
        readable(*store) ==> r is Ok,
        r is Ok ==> r->Ok_0 == fetch(
            stored_ledger(*store).operators,
            operator_key(sender@, operator@),
        ),
{
    let ok = OperatorKey { sender, operator };
    let key = operator_key_bytes(&ok);
    load_operator(store, key.as_slice())
}

/// Records whether `sender` lets `operator` act for it.
pub fn write_operators_store(store: &mut MemoryStorage, sender: String, operator: String, approved: bool) -> (r:
    Result<(), StdError>)
    ensures
        r is Ok,
        readable(*old(store)) ==> readable(*final(store)),
        stored_ledger(*final(store)) == (Ledger {
            operators: stored_ledger(*old(store)).operators.insert(
                operator_key(sender@, operator@),
                approved,
            ),
            ..stored_ledger(*old(store))
        }),
{
    let ok = OperatorKey { sender, operator };
    let key = operator_key_bytes(&ok);
    save_operator(store, key.as_slice(), approved)
}

/// The record of an asset, if it was minted.
pub fn read_token_store(store: &MemoryStorage, token_id: TokenId) -> (r: Result<Option<Token>, StdError>)
    ensures
        readable(*store) ==> r is Ok,
        r is Ok ==> token_of(r->Ok_0) == fetch(stored_ledger(*store).tokens, token_key(token_id@)),
{
    let key = token_id.as_bytes();
    load_token(store, key.as_slice())
}

/// Stores the record of an asset.
pub fn write_token_store(store: &mut MemoryStorage, token_id: TokenId, token: Token) -> (r: Result<
    (),
    StdError,
>)
    ensures
        r is Ok,
        readable(*old(store)) ==> readable(*final(store)),
        stored_ledger(*final(store)) == (Ledger {
            tokens: stored_ledger(*old(store)).tokens.insert(token_key(token_id@), token@),
            ..stored_ledger(*old(store))
        }),
{
    let key = token_id.as_bytes();
    save_token(store, key.as_slice(), &token)
}

/// The assets that the ledger lists for an owner; none where it keeps no list.
pub fn read_owner_tokens_store(store: &MemoryStorage, owner: String) -> (r: Result<
    Vec<TokenId>,
    StdError,
>)
    ensures
        readable(*store) ==> r is Ok,
        r is Ok ==> views(r->Ok_0@) == holdings(stored_ledger(*store), owner@),
{
    let token_list = match load_owner_tokens(store, owner.as_str()) {
        Ok(Some(record)) => record,
        Ok(None) => Vec::new(),
        Err(e) => {
            return Err(e);
        },
    };
    Ok(token_list)
}

/// The assets of an owner, in the order in which they came.
pub open spec fn holdings(ledger: Ledger, owner: Seq<char>) -> Seq<u128> {
    match fetch(ledger.owner_tokens, owner) {
        Some(list) => list,
        None => Seq::empty(),
    }
}

/// Stores the list of an owner's assets.
pub fn write_owner_tokens_store(store: &mut MemoryStorage, owner: String, token_id_set: Vec<TokenId>) -> (r:
    Result<(), StdError>)
    ensures
        r is Ok,
        readable(*old(store)) ==> readable(*final(store)),
        stored_ledger(*final(store)) == (Ledger {
            owner_tokens: stored_ledger(*old(store)).owner_tokens.insert(
                owner@,
                views(token_id_set@),
            ),
            ..stored_ledger(*old(store))
        }),
{
    save_owner_tokens(store, owner.as_str(), &token_id_set)
}

/// The owner of an asset, if it has one.
pub fn read_token_owner_store(store: &MemoryStorage, token_id: TokenId) -> (r: Result<
    Option<String>,
    StdError,
>)
    ensures
        readable(*store) ==> r is Ok,
        r is Ok ==> text_of(r->Ok_0) == fetch(
            stored_ledger(*store).token_owner,
            token_key(token_id@),
        ),
{
    let key = token_id.as_bytes();
    load_token_owner(store, key.as_slice())
}

/// Records the owner of an asset.
pub fn write_token_owner_store(store: &mut MemoryStorage, token_id: TokenId, owner: String) -> (r: Result<
    (),
    StdError,
>)
    ensures
        r is Ok,
        readable(*old(store)) ==> readable(*final(store)),
        stored_ledger(*final(store)) == (Ledger {
            token_owner: stored_ledger(*old(store)).token_owner.insert(
                token_key(token_id@),
                owner@,
            ),
            ..stored_ledger(*old(store))
        }),
{
    let key = token_id.as_bytes();
    save_token_owner(store, key.as_slice(), &owner)
}

/// The list of minted assets, if one was stored.
pub fn read_minted_token_id_store(store: &MemoryStorage) -> (r: Result<Option<Vec<TokenId>>, StdError>)
    ensures
        readable(*store) ==> r is Ok,
        r is Ok ==> ids_of(r->Ok_0) == fetch(stored_ledger(*store).minted, MINTER@),
{
    load_minted(store, MINTER)
}

/// Stores the list of minted assets.
pub fn write_minted_token_id_store(store: &mut MemoryStorage, token_id_set: Vec<TokenId>) -> (r: Result<
    (),
    StdError,
>)
    ensures
        r is Ok,
        readable(*old(store)) ==> readable(*final(store)),
        stored_ledger(*final(store)) == (Ledger {
            minted: stored_ledger(*old(store)).minted.insert(MINTER@, views(token_id_set@)),
            ..stored_ledger(*old(store))
        }),
{
    save_minted(store, MINTER, &token_id_set)
}

/// Who is approved to receive an asset, if anyone.
pub fn read_token_approvals_store(store: &MemoryStorage, token_id: TokenId) -> (r: Result<
    Option<String>,
    StdError,
>)
    ensures
        readable(*store) ==> r is Ok,
        r is Ok ==> text_of(r->Ok_0) == fetch(
            stored_ledger(*store).token_approvals,
            token_key(token_id@),
        ),
{
    let key = token_id.as_bytes();
    load_token_approval(store, key.as_slice())
}

/// Records who is approved to receive an asset.
pub fn write_token_approvals_store(store: &mut MemoryStorage, token_id: TokenId, addr: String) -> (r:
    Result<(), StdError>)
    ensures
        r is Ok,
        readable(*old(store)) ==> readable(*final(store)),
        stored_ledger(*final(store)) == (Ledger {
            token_approvals: stored_ledger(*old(store)).token_approvals.insert(
                token_key(token_id@),
                addr@,
            ),
            ..stored_ledger(*old(store))
        }),
{
    let key = token_id.as_bytes();
    save_token_approval(store, key.as_slice(), &addr)
}

} // verus!
