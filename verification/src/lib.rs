//! A uniform abstraction over two kinds of transferable value on a ledger:
//! balances kept by the ledger itself under a denomination, and balances kept
//! by an accounting contract at an address.

use vstd::prelude::*;

pub mod cw20;
pub mod decimal;
pub mod info;
pub mod laws;
pub mod message;
pub mod native;
pub mod payload;
pub mod token;
pub mod wire;

pub use crate::cw20::Cw20Token;
pub use crate::info::{TokenInfo, TokenKey};
pub use crate::message::{Attribute, Coin, Message, Query, TokenError};
pub use crate::native::NativeToken;
pub use crate::payload::Cw20Call;
pub use crate::token::{Token, TokenWire};
pub use crate::wire::WireError;

use crate::message::{attribute_views, is_message, is_query, MessageView, QueryView};

verus! {

/// What every kind of token can do: build the message that moves it, build
/// the message that destroys it, say how its balance is read, and describe
/// itself for a log.
pub trait GenericToken {
    /// The message that moves `amount` of this token to `target`; `None`
    /// where it cannot be built.
    spec fn transfer_message(&self, target: Seq<char>, amount: u128) -> Option<MessageView>;

    /// The message that destroys `amount` of this token; `None` where it
    /// cannot be built.
    spec fn burn_message(&self, amount: u128) -> Option<MessageView>;

    /// The query that reads the balance of `address` in this token; `None`
    /// where it cannot be built.
    spec fn balance_request(&self, address: Seq<char>) -> Option<QueryView>;

    /// The attributes that describe this token, in order.
    spec fn log_attributes(&self) -> Seq<(Seq<char>, Seq<char>)>;

    /// Builds the one message that moves `amount` of this token to `target`.
    fn send(&self, target: &str, amount: u128) -> (r: Result<Message, TokenError>)
        ensures
            is_message(r, self.transfer_message(target@, amount)),
    ;

    /// Builds the one message that destroys `amount` of this token.
    fn burn(&self, amount: u128) -> (r: Result<Message, TokenError>)
        ensures
            is_message(r, self.burn_message(amount)),
    ;

    /// Builds the query whose answer is the balance of `address` in this
    /// token. The environment performs it.
    fn balance_query(&self, address: &str) -> (r: Result<Query, TokenError>)
        ensures
            is_query(r, self.balance_request(address@)),
    ;

    /// Describes this token for a log.
    fn attributes(&self) -> (r: Vec<Attribute>)
        ensures
            attribute_views(r@) == self.log_attributes(),
    ;
}

} // verus!
