//! Why the asset ledger turns a call down.
use cosmwasm_std::StdError;
use vstd::prelude::*;

verus! {

/// Why a call was turned down.
#[derive(Debug, PartialEq)]
pub enum ContractError {
    /// The storage turned the call down, or a number ran out of range.
    Std(StdError),
    /// The ledger's name has fewer than three or more than thirty characters.
    InvalidNameFormat {},
    /// The ledger's symbol has fewer than three or more than thirty characters.
    InvalidSymbolFormat {},
    /// The asset is not owned by the one it is to be taken from.
    InvalidTokenOwner {},
    /// No asset with this number has been minted.
    NotExistToken {},
    NotExistTokenOwner {},
    /// The asset is not approved for the one it is to go to.
    NotExistTokenAllowance {},
    InvalidTokenAllowance {},
    /// The caller is neither the asset's owner nor an operator of its owner.
    CanNotApprove {},
    /// An owner named itself as its operator.
    InvalidAddress {},
}

} // verus!
