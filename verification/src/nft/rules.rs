//! The rules of the asset ledger, as functions on what its storage holds.
//!
//! Each rule takes the ledger before a call and the call's inputs, and gives
//! the ledger after it together with what the call hands back.
use crate::host::{generic_error, tag, Response, ResponseView};
use crate::nft::constant::MINTER;
use crate::nft::errors::ContractError;
use crate::nft::msg::{ExecuteMsgView, InstantiateMsgView};
use crate::nft::store::{fetch, holdings, operator_key, readable, stored_ledger, Ledger};
use crate::nft::types::{token_key, StateView, TokenView};
use crate::text::decimal;
use cosmwasm_std::MemoryStorage;
use vstd::prelude::*;

verus! {

/// The ledger after a call, and the response or the error that the call hands
/// back. An error leaves the ledger as it was.
pub struct Verdict {
    pub ledger: Ledger,
    pub result: Result<ResponseView, ContractError>,
}

/// Whether what an entry point returned is what a rule asks for.
pub open spec fn agrees(returned: Result<Response, ContractError>, asked: Result<ResponseView, ContractError>) -> bool {
    match asked {
        Ok(response) => returned is Ok && returned->Ok_0@ == response,
        Err(error) => returned == Err::<Response, ContractError>(error),
    }
}

/// Whether a call took a readable storage from one ledger to the one that a
/// rule asks for, and returned what the rule asks for.
pub open spec fn follows(after: MemoryStorage, returned: Result<Response, ContractError>, verdict: Verdict) -> bool {
    &&& readable(after)
    &&& stored_ledger(after) == verdict.ledger
    &&& agrees(returned, verdict.result)
}

/// A refusal that leaves the ledger as it was.
pub open spec fn refuse(ledger: Ledger, error: ContractError) -> Verdict {
    Verdict { ledger, result: Err(error) }
}

/// A response that holds tags only.
pub open spec fn tags(attributes: Seq<crate::host::AttributeView>) -> ResponseView {
    ResponseView { submessages: seq![], messages: seq![], attributes }
}

/// Whether a name or a symbol has three to thirty characters.
pub open spec fn well_sized(text: Seq<char>) -> bool {
    3 <= text.len() <= 30
}

/// Setting up: a name or a symbol of the wrong size is refused; else both are
/// stored.
pub open spec fn instantiate_rule(ledger: Ledger, msg: InstantiateMsgView) -> Verdict {
    if !well_sized(msg.name) {
        refuse(ledger, ContractError::InvalidNameFormat {  })
    } else if !well_sized(msg.symbol) {
        refuse(ledger, ContractError::InvalidSymbolFormat {  })
    } else {
        Verdict {
            ledger: Ledger {
                state: Some(StateView { name: msg.name, symbol: msg.symbol }),
                ..ledger
            },
            result: Ok(tags(seq![])),
        }
    }
}

/// The asset that was minted last, if any was.
pub open spec fn newest(ledger: Ledger) -> Option<u128> {
    match fetch(ledger.minted, MINTER@) {
        Some(list) => if list.len() > 0 {
            Some(list.last())
        } else {
            None
        },
        None => None,
    }
}

/// Whether an asset with this number has been minted: numbers are given out
/// in order, so it is one up to the newest.
pub open spec fn minted(ledger: Ledger, id: u128) -> bool {
    newest(ledger) matches Some(last) && id <= last
}

/// The owner of an asset, if it has one.
pub open spec fn owner_of(ledger: Ledger, id: u128) -> Option<Seq<char>> {
    fetch(ledger.token_owner, token_key(id))
}

/// Who is approved to receive an asset, if anyone.
pub open spec fn approved_for(ledger: Ledger, id: u128) -> Option<Seq<char>> {
    fetch(ledger.token_approvals, token_key(id))
}

/// A list of assets without one of them, the others in their order.
pub open spec fn without(list: Seq<u128>, id: u128) -> Seq<u128>
    decreases list.len(),
{
    if list.len() == 0 {
        list
    } else if list.last() == id {
        without(list.drop_last(), id)
    } else {
        without(list.drop_last(), id).push(list.last())
    }
}

/// The ledger with an asset taken off an owner's list, or put at its end.
pub open spec fn with_holding(ledger: Ledger, id: u128, owner: Seq<char>, received: bool) -> Ledger {
    Ledger {
        owner_tokens: ledger.owner_tokens.insert(
            owner,
            if received {
                holdings(ledger, owner).push(id)
            } else {
                without(holdings(ledger, owner), id)
            },
        ),
        ..ledger
    }
}

/// Minting: the new asset gets the number after the newest, or zero where
/// none was minted, and goes to `owner`. It is refused where the numbers have
/// run out.
pub open spec fn mint_rule(ledger: Ledger, owner: Seq<char>, name: Seq<char>, uri: Seq<char>) -> Verdict {
    if newest(ledger) == Some(u128::MAX) {
        refuse(ledger, ContractError::Std(generic_error("token id out of range"@)))
    } else {
        let id: u128 = match newest(ledger) {
            Some(last) => (last + 1) as u128,
            None => 0,
        };
        let list = holdings(ledger, owner).push(id);
        Verdict {
            ledger: Ledger {
                tokens: ledger.tokens.insert(token_key(id), TokenView { token_id: id, name, uri }),
                token_owner: ledger.token_owner.insert(token_key(id), owner),
                minted: ledger.minted.insert(MINTER@, list),
                owner_tokens: ledger.owner_tokens.insert(owner, list),
                ..ledger
            },
            result: Ok(tags(seq![tag("action"@, "mint"@), tag("token_id"@, decimal(id as nat))])),
        }
    }
}

/// Moving an asset from `from` to `to`. It is refused for an asset that was
/// not minted, and for one that `from` does not own. Else the asset leaves the
/// list of `from`, joins the end of the list of `to`, and `to` owns it.
pub open spec fn transfer_rule(ledger: Ledger, from: Seq<char>, to: Seq<char>, id: u128) -> Verdict {
    if !minted(ledger, id) {
        refuse(ledger, ContractError::NotExistToken {  })
    } else if owner_of(ledger, id) != Some(from) {
        refuse(ledger, ContractError::InvalidTokenOwner {  })
    } else {
        let moved = with_holding(with_holding(ledger, id, from, false), id, to, true);
        Verdict {
            ledger: Ledger { token_owner: moved.token_owner.insert(token_key(id), to), ..moved },
            result: Ok(
                tags(
                    seq![
                        tag("action"@, "transfer_from"@),
                        tag("sender"@, from),
                        tag("recipient"@, to),
                        tag("token_id"@, decimal(id as nat)),
                    ],
                ),
            ),
        }
    }
}

/// Moving an asset to one who holds its approval. It is refused unless the
/// asset is approved for `recipient`; else it goes by [`transfer_rule`].
pub open spec fn transfer_from_rule(ledger: Ledger, sender: Seq<char>, recipient: Seq<char>, id: u128) -> Verdict {
    if approved_for(ledger, id) != Some(recipient) {
        refuse(ledger, ContractError::NotExistTokenAllowance {  })
    } else {
        transfer_rule(ledger, sender, recipient, id)
    }
}

/// Whether `sender` may approve a receiver of an asset: it owns the asset, or
/// the owner has named it as an operator.
pub open spec fn may_approve(ledger: Ledger, id: u128, sender: Seq<char>) -> bool {
    match owner_of(ledger, id) {
        None => false,
        Some(owner) => owner == sender || fetch(ledger.operators, operator_key(owner, sender))
            == Some(true),
    }
}

/// Approving `recipient` to receive an asset. It is refused unless `sender`
/// may approve; else the approval replaces the one before.
pub open spec fn approve_rule(ledger: Ledger, sender: Seq<char>, recipient: Seq<char>, id: u128) -> Verdict {
    if !may_approve(ledger, id, sender) {
        refuse(ledger, ContractError::CanNotApprove {  })
    } else {
        Verdict {
            ledger: Ledger {
                token_approvals: ledger.token_approvals.insert(token_key(id), recipient),
                ..ledger
            },
            result: Ok(
                tags(
                    seq![
                        tag("action"@, "approve"@),
                        tag("sender"@, sender),
                        tag("recipient"@, recipient),
                        tag("token_id"@, decimal(id as nat)),
                    ],
                ),
            ),
        }
    }
}

/// Naming or dismissing an operator. An owner that names itself is refused.
pub open spec fn approve_for_all_rule(ledger: Ledger, sender: Seq<char>, operator: Seq<char>, approved: bool) -> Verdict {
    if sender == operator {
        refuse(ledger, ContractError::InvalidAddress {  })
    } else {
        Verdict {
            ledger: Ledger {
                operators: ledger.operators.insert(operator_key(sender, operator), approved),
                ..ledger
            },
            result: Ok(
                tags(
                    seq![
                        tag("action"@, "approve_for_all"@),
                        tag("sender"@, sender),
                        tag("operator"@, operator),
                    ],
                ),
            ),
        }
    }
}

/// The rule that a change falls under, for the caller `sender`.
pub open spec fn execute_rule(ledger: Ledger, sender: Seq<char>, msg: ExecuteMsgView) -> Verdict {
    match msg {
        ExecuteMsgView::Transfer { recipient, token_id } => transfer_rule(
            ledger,
            sender,
            recipient,
            token_id,
        ),
        ExecuteMsgView::TransferFrom { sender: from, recipient, token_id } => transfer_from_rule(
            ledger,
            from,
            recipient,
            token_id,
        ),
        ExecuteMsgView::Approve { recipient, token_id } => approve_rule(
            ledger,
            sender,
            recipient,
            token_id,
        ),
        ExecuteMsgView::ApproveForAll { opeartor, approved } => approve_for_all_rule(
            ledger,
            sender,
            opeartor,
            approved,
        ),
        ExecuteMsgView::Mint { name, uri } => mint_rule(ledger, sender, name, uri),
    }
}

} // verus!
