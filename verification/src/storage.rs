//! A storage to start from.
use crate::auction::rules::{state_of, State};
use crate::nft::store::{readable, stored_ledger, Ledger};
use cosmwasm_std::MemoryStorage;
use vstd::prelude::*;

verus! {

/// The engine before it is set up, without any listing.
pub open spec fn empty_state() -> State {
    State { config: None, listings: Map::empty() }
}

/// The ledger without any record.
pub open spec fn empty_ledger() -> Ledger {
    Ledger {
        state: None,
        operators: Map::empty(),
        tokens: Map::empty(),
        owner_tokens: Map::empty(),
        token_owner: Map::empty(),
        token_approvals: Map::empty(),
        minted: Map::empty(),
    }
}

/// Calls `MemoryStorage::new`: the storage holds nothing, so neither a
/// configuration nor a listing nor any record of a ledger, and nothing in it
/// fails to be read back.
#[verifier::external_body]
fn new_memory_storage() -> (fresh: MemoryStorage)
    ensures
        state_of(fresh) == empty_state(),
        stored_ledger(fresh) == empty_ledger(),
        readable(fresh),
{
    MemoryStorage::new()
}

/// A storage that holds nothing: an engine that was not set up and has no
/// listing, and a ledger without any record.
pub fn empty_storage() -> (fresh: MemoryStorage)
    ensures
        state_of(fresh) == empty_state(),
        stored_ledger(fresh) == empty_ledger(),
        readable(fresh),
{
    new_memory_storage()
}

} // verus!
