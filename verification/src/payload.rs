//! The messages of the accounting contract's protocol, and their encoded
//! payloads.
//!
//! The encoding itself is the work of the protocol's own message types and
//! of the environment's JSON encoder. Nothing here is proved of it: the two
//! functions at the end of this file are believed to return what their
//! contracts say.

use cosmwasm_std::{to_json_binary, StdError, Uint128};
use cw20_base::msg::{ExecuteMsg, QueryMsg};
use vstd::prelude::*;

verus! {

/// `cosmwasm_std::StdError`, the environment's error. It is carried through
/// and never read.
#[verifier::external_type_specification]
#[verifier::external_body]
pub struct ExStdError(StdError);

/// A state-changing call of the accounting contract, as its protocol names
/// it.
#[derive(Clone, Debug, PartialEq, Eq)]
pub enum Cw20Call {
    /// Moves `amount` from the caller to `recipient`.
    Transfer { recipient: String, amount: u128 },
    /// Moves `amount` from `owner` to `recipient`, out of an allowance that
    /// `owner` has approved for the caller.
    TransferFrom { owner: String, recipient: String, amount: u128 },
    /// Destroys `amount` of the caller's balance.
    Burn { amount: u128 },
}

/// The view of a [`Cw20Call`].
pub enum Cw20CallView {
    Transfer { recipient: Seq<char>, amount: u128 },
    TransferFrom { owner: Seq<char>, recipient: Seq<char>, amount: u128 },
    Burn { amount: u128 },
}

impl View for Cw20Call {
    type V = Cw20CallView;

    open spec fn view(&self) -> Cw20CallView {
        match *self {
            Cw20Call::Transfer { recipient, amount } => Cw20CallView::Transfer {
                recipient: recipient@,
                amount,
            },
            Cw20Call::TransferFrom { owner, recipient, amount } => Cw20CallView::TransferFrom {
                owner: owner@,
                recipient: recipient@,
                amount,
            },
            Cw20Call::Burn { amount } => Cw20CallView::Burn { amount },
        }
    }
}

/// The bytes that `to_json_binary` gives for the protocol's execute message
/// that `call` stands for; `None` where it fails.
pub uninterp spec fn call_json(call: Cw20CallView) -> Option<Seq<u8>>;

/// The bytes that `to_json_binary` gives for the protocol's `balance` query
/// about `address`; `None` where it fails.
pub uninterp spec fn balance_json(address: Seq<char>) -> Option<Seq<u8>>;

/// Whether `r` holds exactly the bytes `named`, or an error where there are
/// none.
pub open spec fn is_encoding(r: Result<Vec<u8>, StdError>, named: Option<Seq<u8>>) -> bool {
    match r {
        Ok(bytes) => named == Some(bytes@),
        Err(_) => named is None,
    }
}

/// Calls `cosmwasm_std::to_json_binary` on the variant of
/// `cw20_base::msg::ExecuteMsg` that has the name and the fields of `call`.
/// Believed: whether it succeeds, and the bytes it then gives, depend on the
/// call alone.
#[verifier::external_body]
pub(crate) fn encode_call(call: &Cw20Call) -> (r: Result<Vec<u8>, StdError>)
    ensures
        is_encoding(r, call_json(call@)),
{
    let msg = match call.clone() {
        Cw20Call::Transfer { recipient, amount } => ExecuteMsg::Transfer { recipient, amount: Uint128::new(amount) },
        Cw20Call::TransferFrom { owner, recipient, amount } => ExecuteMsg::TransferFrom { owner, recipient, amount: Uint128::new(amount) },
        Cw20Call::Burn { amount } => ExecuteMsg::Burn { amount: Uint128::new(amount) },
    };
    to_json_binary(&msg).map(|binary| binary.0)
}

/// Calls `cosmwasm_std::to_json_binary` on `cw20_base::msg::QueryMsg::Balance`
/// with the given address. Believed: whether it succeeds, and the bytes it
/// then gives, depend on the address alone.
#[verifier::external_body]
pub(crate) fn encode_balance(address: &str) -> (r: Result<Vec<u8>, StdError>)
    ensures
        is_encoding(r, balance_json(address@)),
{
    let msg = QueryMsg::Balance { address: address.to_string() };
    to_json_binary(&msg).map(|binary| binary.0)
}

} // verus!
