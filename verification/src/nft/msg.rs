//! The requests that the asset ledger takes.
use vstd::prelude::*;

verus! {

/// Sets the ledger up under a name and a symbol.
#[derive(Debug, Clone, PartialEq, Eq)]
pub struct InstantiateMsg {
    pub name: String,
    pub symbol: String,
}

/// [`InstantiateMsg`] as a mathematical value.
pub struct InstantiateMsgView {
    pub name: Seq<char>,
    pub symbol: Seq<char>,
}

impl View for InstantiateMsg {
    type V = InstantiateMsgView;

    open spec fn view(&self) -> InstantiateMsgView {
        InstantiateMsgView { name: self.name@, symbol: self.symbol@ }
    }
}

/// A change to the ledger.
#[derive(Debug, Clone, PartialEq, Eq)]
pub enum ExecuteMsg {
    /// The caller hands one of its assets to `recipient`.
    Transfer { recipient: String, token_id: u128 },
    /// An asset of `sender` goes to `recipient`, who must hold its approval.
    TransferFrom { sender: String, recipient: String, token_id: u128 },
    /// The caller lets `recipient` move the asset.
    Approve { recipient: String, token_id: u128 },
    /// The caller names, or dismisses, an operator for all its assets.
    ApproveForAll { opeartor: String, approved: bool },
    /// The caller mints a new asset.
    Mint { name: String, uri: String },
}

/// [`ExecuteMsg`] as a mathematical value.
pub enum ExecuteMsgView {
    Transfer { recipient: Seq<char>, token_id: u128 },
    TransferFrom { sender: Seq<char>, recipient: Seq<char>, token_id: u128 },
    Approve { recipient: Seq<char>, token_id: u128 },
    ApproveForAll { opeartor: Seq<char>, approved: bool },
    Mint { name: Seq<char>, uri: Seq<char> },
}

impl View for ExecuteMsg {
    type V = ExecuteMsgView;

    open spec fn view(&self) -> ExecuteMsgView {
        match *self {
            ExecuteMsg::Transfer { recipient, token_id } => ExecuteMsgView::Transfer {
                recipient: recipient@,
                token_id,
            },
            ExecuteMsg::TransferFrom { sender, recipient, token_id } => {
                ExecuteMsgView::TransferFrom { sender: sender@, recipient: recipient@, token_id }
            },
            ExecuteMsg::Approve { recipient, token_id } => ExecuteMsgView::Approve {
                recipient: recipient@,
                token_id,
            },
            ExecuteMsg::ApproveForAll { opeartor, approved } => ExecuteMsgView::ApproveForAll {
                opeartor: opeartor@,
                approved,
            },
            ExecuteMsg::Mint { name, uri } => ExecuteMsgView::Mint { name: name@, uri: uri@ },
        }
    }
}

/// A question to the ledger.
#[derive(Debug, Clone, PartialEq, Eq)]
pub enum QueryMsg {
    /// How many assets `address` holds.
    Balance { address: String },
    /// Who owns the asset.
    Owner { token_id: u128 },
    /// Who is approved to move the asset.
    Allowance { token_id: u128 },
    /// The asset's record.
    Token { token_id: u128 },
}

} // verus!
