//! What a token hands to the hosting environment: outbound messages, balance
//! queries and log attributes, each with its mathematical view.

use cosmwasm_std::StdError;
use vstd::prelude::*;

verus! {

/// An amount of one ledger-native denomination.
#[derive(Clone, Debug, PartialEq, Eq)]
pub struct Coin {
    pub denom: String,
    pub amount: u128,
}

/// The view of a [`Coin`].
pub struct CoinView {
    pub denom: Seq<char>,
    pub amount: u128,
}

impl View for Coin {
    type V = CoinView;

    open spec fn view(&self) -> CoinView {
        CoinView { denom: self.denom@, amount: self.amount }
    }
}

/// The views of a sequence of coins, in order.
pub open spec fn coin_views(coins: Seq<Coin>) -> Seq<CoinView> {
    Seq::new(coins.len(), |i: int| coins[i]@)
}

/// One outbound instruction for the hosting environment.
#[derive(Clone, Debug, PartialEq, Eq)]
pub enum Message {
    /// The ledger moves `amount` from the caller to `to_address`.
    BankSend { to_address: String, amount: Vec<Coin> },
    /// The ledger destroys `amount` of the caller's funds.
    BankBurn { amount: Vec<Coin> },
    /// The contract at `contract_addr` executes the encoded call `msg`, with
    /// `funds` attached.
    WasmExecute { contract_addr: String, msg: Vec<u8>, funds: Vec<Coin> },
}

/// The view of a [`Message`].
pub enum MessageView {
    BankSend { to_address: Seq<char>, amount: Seq<CoinView> },
    BankBurn { amount: Seq<CoinView> },
    WasmExecute { contract_addr: Seq<char>, msg: Seq<u8>, funds: Seq<CoinView> },
}

impl View for Message {
    type V = MessageView;

    open spec fn view(&self) -> MessageView {
        match *self {
            Message::BankSend { to_address, amount } => MessageView::BankSend {
                to_address: to_address@,
                amount: coin_views(amount@),
            },
            Message::BankBurn { amount } => MessageView::BankBurn { amount: coin_views(amount@) },
            Message::WasmExecute { contract_addr, msg, funds } => MessageView::WasmExecute {
                contract_addr: contract_addr@,
                msg: msg@,
                funds: coin_views(funds@),
            },
        }
    }
}

impl MessageView {
    /// The contract that the message addresses, if it addresses one.
    pub open spec fn contract(self) -> Option<Seq<char>> {
        match self {
            MessageView::WasmExecute { contract_addr, .. } => Some(contract_addr),
            _ => None,
        }
    }
}

/// One synchronous balance read for the hosting environment to perform.
#[derive(Clone, Debug, PartialEq, Eq)]
pub enum Query {
    /// The ledger's own balance of `address` in `denom`.
    BankBalance { address: String, denom: String },
    /// The answer of the contract at `contract_addr` to the encoded query `msg`.
    WasmSmart { contract_addr: String, msg: Vec<u8> },
}

/// The view of a [`Query`].
pub enum QueryView {
    BankBalance { address: Seq<char>, denom: Seq<char> },
    WasmSmart { contract_addr: Seq<char>, msg: Seq<u8> },
}

impl View for Query {
    type V = QueryView;

    open spec fn view(&self) -> QueryView {
        match *self {
            Query::BankBalance { address, denom } => QueryView::BankBalance {
                address: address@,
                denom: denom@,
            },
            Query::WasmSmart { contract_addr, msg } => QueryView::WasmSmart {
                contract_addr: contract_addr@,
                msg: msg@,
            },
        }
    }
}

/// A key and a value that describe a token in a log.
#[derive(Clone, Debug, PartialEq, Eq)]
pub struct Attribute {
    pub key: String,
    pub value: String,
}

impl View for Attribute {
    type V = (Seq<char>, Seq<char>);

    open spec fn view(&self) -> (Seq<char>, Seq<char>) {
        (self.key@, self.value@)
    }
}

/// The views of a sequence of attributes, in order.
pub open spec fn attribute_views(attributes: Seq<Attribute>) -> Seq<(Seq<char>, Seq<char>)> {
    Seq::new(attributes.len(), |i: int| attributes[i]@)
}

impl Attribute {
    /// Builds the attribute with the given key and value.
    pub fn new(key: &str, value: &str) -> (r: Attribute)
        ensures
            r@ == (key@, value@),
    {
        Attribute { key: key.to_owned(), value: value.to_owned() }
    }
}

/// Why a token could not build what was asked of it.
#[derive(Debug)]
pub enum TokenError {
    /// The payload of a contract call could not be encoded; the cause is
    /// handed on as it came.
    Encode(StdError),
}

/// Whether `r` is the message `expected`, or a failure where none is expected.
pub open spec fn is_message(r: Result<Message, TokenError>, expected: Option<MessageView>) -> bool {
    match r {
        Ok(m) => expected == Some(m@),
        Err(_) => expected is None,
    }
}

/// Whether `r` is the query `expected`, or a failure where none is expected.
pub open spec fn is_query(r: Result<Query, TokenError>, expected: Option<QueryView>) -> bool {
    match r {
        Ok(q) => expected == Some(q@),
        Err(_) => expected is None,
    }
}

} // verus!
