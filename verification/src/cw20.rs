//! The accounted token kind, identified by the address of the contract that
//! keeps its balances.

use crate::message::{
    attribute_views, coin_views, is_message, Attribute, CoinView, Message, MessageView, Query,
    QueryView, TokenError,
};
use crate::payload::{
    balance_json, call_json, encode_balance, encode_call, Cw20Call, Cw20CallView,
};
use crate::GenericToken;
use cosmwasm_std::StdError;
use vstd::prelude::*;
use vstd::std_specs::cmp::PartialEqSpecImpl;

verus! {

/// A token whose balances an accounting contract tracks.
#[derive(Clone, Debug)]
pub struct Cw20Token {
    pub address: String,
}

impl View for Cw20Token {
    type V = Seq<char>;

    /// An accounted token is the address of its contract.
    open spec fn view(&self) -> Seq<char> {
        self.address@
    }
}

impl PartialEq for Cw20Token {
    fn eq(&self, other: &Cw20Token) -> (r: bool) {
        self.address == other.address
    }
}

impl PartialEqSpecImpl for Cw20Token {
    open spec fn obeys_eq_spec() -> bool {
        true
    }

    open spec fn eq_spec(&self, other: &Cw20Token) -> bool {
        self@ == other@
    }
}

/// The wire form of the accounted token at the given address.
pub open spec fn cw20_wire(address: Seq<char>) -> Seq<char> {
    address
}

/// The address of the accounted token with the given wire form.
pub open spec fn cw20_from_wire(text: Seq<char>) -> Seq<char> {
    text
}

/// The call of the contract at `contract` with the encoded payload, where
/// there is one. No funds go with it.
pub open spec fn execute_message(contract: Seq<char>, payload: Option<Seq<u8>>) -> Option<
    MessageView,
> {
    match payload {
        Some(msg) => Some(
            MessageView::WasmExecute { contract_addr: contract, msg, funds: Seq::empty() },
        ),
        None => None,
    }
}

/// The smart query of the contract at `contract` with the encoded payload,
/// where there is one.
pub open spec fn smart_query(contract: Seq<char>, payload: Option<Seq<u8>>) -> Option<QueryView> {
    match payload {
        Some(msg) => Some(QueryView::WasmSmart { contract_addr: contract, msg }),
        None => None,
    }
}

impl Cw20Token {
    /// Builds the accounted token whose contract is at the given address.
    pub fn new(address: String) -> (r: Cw20Token)
        ensures
            r@ == address@,
    {
        Cw20Token { address }
    }

    /// The bare string that stands for this token on the wire: the address
    /// of its contract.
    pub fn to_wire(&self) -> (r: String)
        ensures
            r@ == cw20_wire(self@),
    {
        self.address.clone()
    }

    /// Reads an accounted token from the bare string that stands for it.
    /// The address is taken as it is; nothing checks that a contract is
    /// there.
    pub fn from_wire(text: String) -> (r: Cw20Token)
        ensures
            r@ == cw20_from_wire(text@),
    {
        Cw20Token::new(text)
    }

    /// Wraps an encoded payload into the call of this token's contract. A
    /// payload that could not be encoded gives its error back unchanged.
    pub fn execute(&self, payload: Result<Vec<u8>, StdError>) -> (r: Result<Message, TokenError>)
        ensures
            match payload {
                Ok(msg) => r is Ok && r->Ok_0@ == (MessageView::WasmExecute {
                    contract_addr: self@,
                    msg: msg@,
                    funds: Seq::empty(),
                }),
                Err(cause) => r is Err && r->Err_0 == TokenError::Encode(cause),
            },
    {
        match payload {
            Ok(msg) => {
                let funds = Vec::new();
                assert(coin_views(funds@) =~= Seq::<CoinView>::empty());
                Ok(Message::WasmExecute { contract_addr: self.address.clone(), msg, funds })
            },
            Err(cause) => Err(TokenError::Encode(cause)),
        }
    }

    /// Wraps an encoded payload into the smart query of this token's
    /// contract. A payload that could not be encoded gives its error back
    /// unchanged.
    pub fn query(&self, payload: Result<Vec<u8>, StdError>) -> (r: Result<Query, TokenError>)
        ensures
            match payload {
                Ok(msg) => r is Ok && r->Ok_0@ == (QueryView::WasmSmart {
                    contract_addr: self@,
                    msg: msg@,
                }),
                Err(cause) => r is Err && r->Err_0 == TokenError::Encode(cause),
            },
    {
        match payload {
            Ok(msg) => Ok(Query::WasmSmart { contract_addr: self.address.clone(), msg }),
            Err(cause) => Err(TokenError::Encode(cause)),
        }
    }

    /// Builds the message that has this token's contract execute `call`.
    pub fn call(&self, call: &Cw20Call) -> (r: Result<Message, TokenError>)
        ensures
            is_message(r, execute_message(self@, call_json(call@))),
    {
        self.execute(encode_call(call))
    }

    /// Builds the call that moves `amount` from `owner` to `recipient` out of
    /// an allowance that `owner` has approved for the caller.
    pub fn transfer_from(&self, owner: &str, recipient: &str, amount: u128) -> (r: Result<
        Message,
        TokenError,
    >)
        ensures
            is_message(r, self.allowance_message(owner@, recipient@, amount)),
    {
        self.call(
            &Cw20Call::TransferFrom {
                owner: owner.to_owned(),
                recipient: recipient.to_owned(),
                amount,
            },
        )
    }

    /// The contract's `transfer_from` call; it addresses this token's
    /// contract.
    pub open spec fn allowance_message(
        &self,
        owner: Seq<char>,
        recipient: Seq<char>,
        amount: u128,
    ) -> Option<MessageView> {
        execute_message(
            self@,
            call_json(Cw20CallView::TransferFrom { owner, recipient, amount }),
        )
    }
}

impl GenericToken for Cw20Token {
    /// The contract's `transfer` call; it addresses this token's contract.
    open spec fn transfer_message(&self, target: Seq<char>, amount: u128) -> Option<MessageView> {
        execute_message(self@, call_json(Cw20CallView::Transfer { recipient: target, amount }))
    }

    /// The contract's `burn` call; it addresses this token's contract.
    open spec fn burn_message(&self, amount: u128) -> Option<MessageView> {
        execute_message(self@, call_json(Cw20CallView::Burn { amount }))
    }

    /// The contract's `balance` query; it addresses this token's contract.
    open spec fn balance_request(&self, address: Seq<char>) -> Option<QueryView> {
        smart_query(self@, balance_json(address))
    }

    /// The kind, under the name of the accounting standard, then the
    /// address of the contract.
    open spec fn log_attributes(&self) -> Seq<(Seq<char>, Seq<char>)> {
        seq![("type"@, "cw20"@), ("address"@, self@)]
    }

    fn send(&self, target: &str, amount: u128) -> (r: Result<Message, TokenError>) {
        self.call(&Cw20Call::Transfer { recipient: target.to_owned(), amount })
    }

    fn burn(&self, amount: u128) -> (r: Result<Message, TokenError>) {
        self.call(&Cw20Call::Burn { amount })
    }

    fn balance_query(&self, address: &str) -> (r: Result<Query, TokenError>) {
        self.query(encode_balance(address))
    }

    fn attributes(&self) -> (r: Vec<Attribute>) {
        let mut attributes = Vec::new();
        attributes.push(Attribute::new("type", "cw20"));
        attributes.push(Attribute::new("address", self.address.as_str()));
        attributes
    }
}

} // verus!
