//! The ledger-native token kind, identified by its denomination.

use crate::message::{
    attribute_views, coin_views, Attribute, Coin, CoinView, Message, MessageView, Query, QueryView,
    TokenError,
};
use crate::GenericToken;
use vstd::prelude::*;
use vstd::std_specs::cmp::PartialEqSpecImpl;

verus! {

/// A token whose balances the host ledger tracks under a denomination.
#[derive(Clone, Debug)]
pub struct NativeToken {
    pub denom: String,
}

impl View for NativeToken {
    type V = Seq<char>;

    /// A native token is its denomination.
    open spec fn view(&self) -> Seq<char> {
        self.denom@
    }
}

impl PartialEq for NativeToken {
    fn eq(&self, other: &NativeToken) -> (r: bool) {
        self.denom == other.denom
    }
}

impl PartialEqSpecImpl for NativeToken {
    open spec fn obeys_eq_spec() -> bool {
        true
    }

    open spec fn eq_spec(&self, other: &NativeToken) -> bool {
        self@ == other@
    }
}

/// The wire form of the native token of the given denomination.
pub open spec fn native_wire(denom: Seq<char>) -> Seq<char> {
    denom
}

/// The denomination of the native token with the given wire form.
pub open spec fn native_from_wire(text: Seq<char>) -> Seq<char> {
    text
}

/// The single coin of `amount` in `denom`.
pub open spec fn one_coin(denom: Seq<char>, amount: u128) -> Seq<CoinView> {
    seq![CoinView { denom, amount }]
}

impl NativeToken {
    /// Builds the native token with the given denomination.
    pub fn new(denom: String) -> (r: NativeToken)
        ensures
            r@ == denom@,
    {
        NativeToken { denom }
    }

    /// The bare string that stands for this token on the wire: its
    /// denomination.
    pub fn to_wire(&self) -> (r: String)
        ensures
            r@ == native_wire(self@),
    {
        self.denom.clone()
    }

    /// Reads a native token from the bare string that stands for it. Every
    /// string is the denomination of one.
    pub fn from_wire(text: String) -> (r: NativeToken)
        ensures
            r@ == native_from_wire(text@),
    {
        NativeToken::new(text)
    }

    /// The one coin of `amount` in this token's denomination.
    fn coins(&self, amount: u128) -> (r: Vec<Coin>)
        ensures
            coin_views(r@) == one_coin(self@, amount),
    {
        let mut coins = Vec::new();
        coins.push(Coin { denom: self.denom.clone(), amount });
        coins
    }
}

impl GenericToken for NativeToken {
    /// A ledger transfer of one coin of this denomination; it names no
    /// contract.
    open spec fn transfer_message(&self, target: Seq<char>, amount: u128) -> Option<MessageView> {
        Some(MessageView::BankSend { to_address: target, amount: one_coin(self@, amount) })
    }

    /// A ledger burn of one coin of this denomination; it names no contract.
    open spec fn burn_message(&self, amount: u128) -> Option<MessageView> {
        Some(MessageView::BankBurn { amount: one_coin(self@, amount) })
    }

    /// A direct read of the ledger's balance for the address and this
    /// denomination.
    open spec fn balance_request(&self, address: Seq<char>) -> Option<QueryView> {
        Some(QueryView::BankBalance { address, denom: self@ })
    }

    /// The kind, then the denomination.
    open spec fn log_attributes(&self) -> Seq<(Seq<char>, Seq<char>)> {
        seq![("type"@, "native"@), ("denom"@, self@)]
    }

    fn send(&self, target: &str, amount: u128) -> (r: Result<Message, TokenError>)
        ensures
            r is Ok,
    {
        Ok(Message::BankSend { to_address: target.to_owned(), amount: self.coins(amount) })
    }

    fn burn(&self, amount: u128) -> (r: Result<Message, TokenError>)
        ensures
            r is Ok,
    {
        Ok(Message::BankBurn { amount: self.coins(amount) })
    }

    fn balance_query(&self, address: &str) -> (r: Result<Query, TokenError>)
        ensures
            r is Ok,
    {
        Ok(Query::BankBalance { address: address.to_owned(), denom: self.denom.clone() })
    }

    fn attributes(&self) -> (r: Vec<Attribute>) {
        let mut attributes = Vec::new();
        attributes.push(Attribute::new("type", "native"));
        attributes.push(Attribute::new("denom", self.denom.as_str()));
        attributes
    }
}

} // verus!
