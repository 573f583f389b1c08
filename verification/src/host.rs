//! The values that pass between the host and an entry point: where and for whom
//! a call runs, what it is paid, and the calls and tags it hands back.
use cosmwasm_std::{MemoryStorage, StdError};
use vstd::prelude::*;

verus! {

#[verifier::external_type_specification]
#[verifier::external_body]
pub struct ExStdError(StdError);

#[verifier::external_type_specification]
#[verifier::external_body]
pub struct ExMemoryStorage(MemoryStorage);

/// The error of `StdError::generic_err` for a message.
pub uninterp spec fn generic_error(msg: Seq<char>) -> StdError;

/// Calls `StdError::generic_err`, which wraps the message in the `GenericErr`
/// variant: the same message always gives the same error.
#[verifier::external_body]
pub(crate) fn generic_err(msg: &str) -> (e: StdError)
    ensures
        e == generic_error(msg@),
{
    StdError::generic_err(msg)
}

/// The views of the members of a sequence, in the same order.
pub open spec fn views<T: View>(items: Seq<T>) -> Seq<T::V> {
    Seq::new(items.len(), |i: int| items[i]@)
}

/// An amount of one denomination.
#[derive(Debug, Clone, PartialEq, Eq)]
pub struct Coin {
    pub denom: String,
    pub amount: u128,
}

/// [`Coin`] as a mathematical value.
pub struct CoinView {
    pub denom: Seq<char>,
    pub amount: u128,
}

impl View for Coin {
    type V = CoinView;

    open spec fn view(&self) -> CoinView {
        CoinView { denom: self.denom@, amount: self.amount }
    }
}

/// The block in which a call runs.
#[derive(Debug, Clone, PartialEq, Eq)]
pub struct BlockInfo {
    pub height: u64,
}

/// The contract that a call runs in.
#[derive(Debug, Clone, PartialEq, Eq)]
pub struct ContractInfo {
    pub address: String,
}

/// Where a call runs.
#[derive(Debug, Clone, PartialEq, Eq)]
pub struct Env {
    pub block: BlockInfo,
    pub contract: ContractInfo,
}

/// Who made a call, and the funds that came with it.
#[derive(Debug, Clone, PartialEq, Eq)]
pub struct MessageInfo {
    pub sender: String,
    pub funds: Vec<Coin>,
}

/// A tag for observers: a key and a value.
#[derive(Debug, Clone, PartialEq, Eq)]
pub struct Attribute {
    pub key: String,
    pub value: String,
}

/// [`Attribute`] as a mathematical value.
pub struct AttributeView {
    pub key: Seq<char>,
    pub value: Seq<char>,
}

impl View for Attribute {
    type V = AttributeView;

    open spec fn view(&self) -> AttributeView {
        AttributeView { key: self.key@, value: self.value@ }
    }
}

/// A movement of funds out of the contract's own balance.
#[derive(Debug, Clone, PartialEq, Eq)]
pub enum BankMsg {
    Send { to_address: String, amount: Vec<Coin> },
}

/// A call to another contract.
#[derive(Debug, Clone, PartialEq, Eq)]
pub enum WasmMsg {
    /// A request to the asset ledger at `contract_addr`.
    Execute { contract_addr: String, msg: crate::nft::msg::ExecuteMsg, send: Vec<Coin> },
    /// The creation of a new asset ledger from uploaded code.
    Instantiate {
        admin: Option<String>,
        code_id: u64,
        msg: crate::nft::msg::InstantiateMsg,
        send: Vec<Coin>,
        label: String,
    },
}

/// A call that an entry point asks the host to make.
#[derive(Debug, Clone, PartialEq, Eq)]
pub enum CosmosMsg {
    Bank(BankMsg),
    Wasm(WasmMsg),
}

/// [`CosmosMsg`] as a mathematical value, the kinds of call side by side.
pub enum CosmosMsgView {
    Send { to_address: Seq<char>, amount: Seq<CoinView> },
    Execute { contract_addr: Seq<char>, msg: crate::nft::msg::ExecuteMsgView, send: Seq<CoinView> },
    Instantiate {
        admin: Option<Seq<char>>,
        code_id: u64,
        msg: crate::nft::msg::InstantiateMsgView,
        send: Seq<CoinView>,
        label: Seq<char>,
    },
}

impl View for CosmosMsg {
    type V = CosmosMsgView;

    open spec fn view(&self) -> CosmosMsgView {
        match *self {
            CosmosMsg::Bank(BankMsg::Send { to_address, amount }) => CosmosMsgView::Send {
                to_address: to_address@,
                amount: views(amount@),
            },
            CosmosMsg::Wasm(WasmMsg::Execute { contract_addr, msg, send }) => {
                CosmosMsgView::Execute {
                    contract_addr: contract_addr@,
                    msg: msg@,
                    send: views(send@),
                }
            },
            CosmosMsg::Wasm(WasmMsg::Instantiate { admin, code_id, msg, send, label }) => {
                CosmosMsgView::Instantiate {
                    admin: match admin {
                        Some(a) => Some(a@),
                        None => None,
                    },
                    code_id,
                    msg: msg@,
                    send: views(send@),
                    label: label@,
                }
            },
        }
    }
}

/// When the host reports back on a call.
#[derive(Debug, Clone, Copy, PartialEq, Eq)]
pub enum ReplyOn {
    Always,
    Error,
    Success,
}

/// A call whose outcome the host reports back, under the number `id`.
#[derive(Debug, Clone, PartialEq, Eq)]
pub struct SubMsg {
    pub id: u64,
    pub msg: CosmosMsg,
    pub gas_limit: Option<u64>,
    pub reply_on: ReplyOn,
}

/// [`SubMsg`] as a mathematical value.
pub struct SubMsgView {
    pub id: u64,
    pub msg: CosmosMsgView,
    pub gas_limit: Option<u64>,
    pub reply_on: ReplyOn,
}

impl View for SubMsg {
    type V = SubMsgView;

    open spec fn view(&self) -> SubMsgView {
        SubMsgView { id: self.id, msg: self.msg@, gas_limit: self.gas_limit, reply_on: self.reply_on }
    }
}

/// What an entry point hands back on success: the calls to make, in order, and
/// the tags to emit.
#[derive(Debug, Clone, PartialEq, Eq)]
pub struct Response {
    pub submessages: Vec<SubMsg>,
    pub messages: Vec<CosmosMsg>,
    pub attributes: Vec<Attribute>,
}

/// [`Response`] as a mathematical value.
pub struct ResponseView {
    pub submessages: Seq<SubMsgView>,
    pub messages: Seq<CosmosMsgView>,
    pub attributes: Seq<AttributeView>,
}

impl View for Response {
    type V = ResponseView;

    open spec fn view(&self) -> ResponseView {
        ResponseView {
            submessages: views(self.submessages@),
            messages: views(self.messages@),
            attributes: views(self.attributes@),
        }
    }
}

/// The tag with the given key and value.
pub open spec fn tag(key: Seq<char>, value: Seq<char>) -> AttributeView {
    AttributeView { key, value }
}

impl Response {
    /// A response with no call and no tag.
    pub fn new() -> (r: Response)
        ensures
            r@ == (ResponseView { submessages: seq![], messages: seq![], attributes: seq![] }),
    {
        let r = Response { submessages: Vec::new(), messages: Vec::new(), attributes: Vec::new() };
        assert(views(r.submessages@) =~= seq![]);
        assert(views(r.messages@) =~= seq![]);
        assert(views(r.attributes@) =~= seq![]);
        r
    }

    /// Appends a tag.
    pub fn add_attribute(&mut self, key: &str, value: String)
        ensures
            final(self)@ == (ResponseView {
                attributes: old(self)@.attributes.push(tag(key@, value@)),
                ..old(self)@
            }),
    {
        self.attributes.push(Attribute { key: String::from_str(key), value });
        assert(views(self.attributes@) =~= views(old(self).attributes@).push(tag(key@, value@)));
    }

    /// Appends a call whose outcome is not reported back.
    pub fn add_message(&mut self, msg: CosmosMsg)
        ensures
            final(self)@ == (ResponseView {
                messages: old(self)@.messages.push(msg@),
                ..old(self)@
            }),
    {
        self.messages.push(msg);
        assert(views(self.messages@) =~= views(old(self).messages@).push(msg@));
    }

    /// Appends a call whose outcome the host reports back under `id`.
    pub fn add_submessage(&mut self, id: u64, msg: CosmosMsg, gas_limit: Option<u64>, reply_on: ReplyOn)
        ensures
            final(self)@ == (ResponseView {
                submessages: old(self)@.submessages.push(
                    SubMsgView { id, msg: msg@, gas_limit, reply_on },
                ),
                ..old(self)@
            }),
    {
        self.submessages.push(SubMsg { id, msg, gas_limit, reply_on });
        assert(views(self.submessages@) =~= views(old(self).submessages@).push(
            SubMsgView { id, msg: msg@, gas_limit, reply_on },
        ));
    }
}

/// One event of a finished call: its kind and its tags.
#[derive(Debug, Clone, PartialEq, Eq)]
pub struct Event {
    pub kind: String,
    pub attributes: Vec<Attribute>,
}

/// [`Event`] as a mathematical value.
pub struct EventView {
    pub kind: Seq<char>,
    pub attributes: Seq<AttributeView>,
}

impl View for Event {
    type V = EventView;

    open spec fn view(&self) -> EventView {
        EventView { kind: self.kind@, attributes: views(self.attributes@) }
    }
}

/// What a call that succeeded left behind.
#[derive(Debug, Clone, PartialEq, Eq)]
pub struct SubcallResponse {
    pub events: Vec<Event>,
}

/// The host's report on a call that was made with [`Response::add_submessage`].
#[derive(Debug, PartialEq, Eq)]
pub struct Reply {
    pub id: u64,
    /// What the call left behind, or the host's message of its failure.
    pub result: Result<SubcallResponse, String>,
}

} // verus!
