//! The records of the asset ledger.
use crate::text::{decimal, decimal_bytes, decimal_string, lemma_decimal_bytes_injective};
use cosmwasm_std::{to_vec, Uint128};
use vstd::prelude::*;

verus! {

/// The ledger's name and symbol.
#[derive(Debug, Clone, PartialEq, Eq)]
pub struct State {
    pub name: String,
    pub symbol: String,
}

/// [`State`] as a mathematical value.
pub struct StateView {
    pub name: Seq<char>,
    pub symbol: Seq<char>,
}

impl View for State {
    type V = StateView;

    open spec fn view(&self) -> StateView {
        StateView { name: self.name@, symbol: self.symbol@ }
    }
}

/// The number of an asset.
#[derive(Debug, Clone, Copy, PartialEq, Eq)]
pub struct TokenId(pub(crate) u128);

impl View for TokenId {
    type V = u128;

    closed spec fn view(&self) -> u128 {
        self.0
    }
}

/// The key of an asset in the storage: its number in decimal notation between
/// two double quotes.
pub open spec fn token_key(id: u128) -> Seq<u8> {
    seq![34u8] + decimal_bytes(id as nat) + seq![34u8]
}

/// Two assets with the same key are the same asset.
pub proof fn lemma_token_key_injective(a: u128, b: u128)
    requires
        token_key(a) == token_key(b),
    ensures
        a == b,
{
    let da = decimal_bytes(a as nat);
    let db = decimal_bytes(b as nat);
    assert(token_key(a).len() == da.len() + 2);
    assert(token_key(b).len() == db.len() + 2);
    assert(da =~= token_key(a).subrange(1, 1 + da.len() as int));
    assert(db =~= token_key(b).subrange(1, 1 + db.len() as int));
    lemma_decimal_bytes_injective(a as nat, b as nat);
}

/// Calls `to_vec` of cosmwasm_std on the number as a `Uint128`, which writes
/// it as a JSON string: the decimal digits between two double quotes. The
/// encoder returns no error for a string.
#[verifier::external_body]
fn uint128_json(n: u128) -> (bytes: Vec<u8>)
    ensures
        bytes@ == token_key(n),
{
    to_vec(&Uint128(n)).unwrap()
}

impl TokenId {
    /// The asset with this number.
    pub fn new(v: u128) -> (id: TokenId)
        ensures
            id@ == v,
    {
        TokenId(v)
    }

    /// The asset's number.
    pub fn as_u128(&self) -> (v: u128)
        ensures
            v == self@,
    {
        self.0
    }

    /// The key of the asset in the storage.
    pub fn as_bytes(&self) -> (bytes: Vec<u8>)
        ensures
            bytes@ == token_key(self@),
    {
        uint128_json(self.0)
    }

    /// The number in decimal notation.
    pub fn as_string(&self) -> (s: String)
        ensures
            s@ == decimal(self@ as nat),
    {
        decimal_string(self.0)
    }

    /// Whether two numbers are the same.
    pub fn equal(&self, other: &TokenId) -> (same: bool)
        ensures
            same == (self@ == other@),
    {
        self.0 == other.0
    }
}

/// An asset: its number, its name, and where its content is found.
#[derive(Debug, Clone, PartialEq, Eq)]
pub struct Token {
    pub token_id: TokenId,
    pub name: String,
    pub uri: String,
}

/// [`Token`] as a mathematical value.
pub struct TokenView {
    pub token_id: u128,
    pub name: Seq<char>,
    pub uri: Seq<char>,
}

impl View for Token {
    type V = TokenView;

    open spec fn view(&self) -> TokenView {
        TokenView { token_id: self.token_id@, name: self.name@, uri: self.uri@ }
    }
}

impl Token {
    /// An asset of these three parts.
    pub fn new(token_id: TokenId, name: String, uri: String) -> (token: Token)
        ensures
            token@ == (TokenView { token_id: token_id@, name: name@, uri: uri@ }),
    {
        Token { token_id, name, uri }
    }
}

/// An owner and one who may act for it on all its assets.
#[derive(Debug, Clone, PartialEq, Eq)]
pub struct OperatorKey {
    pub sender: String,
    pub operator: String,
}

} // verus!
