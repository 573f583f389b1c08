//! The regions of the ledger's storage, and the keys of its single records.
use vstd::prelude::*;

verus! {

pub const CONFIG: &'static str = "config";

pub const OWNER_TOKENS: &'static str = "owner_tokens";

pub const TOKEN_OWNER: &'static str = "token_owner";

pub const TOKEN_APPROVALS: &'static str = "token_approvals";

pub const MINTED_TOKEN_ID: &'static str = "minted_token_id";

pub const KEY_STATE: &'static str = "state";

pub const TOKEN: &'static str = "token";

pub const OPERATORS: &'static str = "operators";

/// The key of the list of minted assets.
pub const MINTER: &'static str = "minter";

} // verus!
