//! A token identity with an amount: the unit of value that callers hand
//! around.

use crate::decimal::{decimal_string, decimal_text, decimal_value, parse_decimal};
use crate::info::{TokenInfo, TokenInfoView, TokenKey};
use crate::message::{attribute_views, is_message, Attribute, Coin, Message, TokenError};
use crate::native::NativeToken;
use crate::wire::{entry_views, read_view, WireError};
use crate::GenericToken;
use vstd::prelude::*;
use vstd::std_specs::cmp::PartialEqSpecImpl;
use vstd::std_specs::convert::FromSpecImpl;

verus! {

/// An amount of one token.
#[derive(Clone, Debug)]
pub struct Token {
    pub info: TokenInfo,
    pub amount: u128,
}

/// The view of a [`Token`].
pub struct TokenView {
    pub info: TokenInfoView,
    pub amount: u128,
}

impl View for Token {
    type V = TokenView;

    open spec fn view(&self) -> TokenView {
        TokenView { info: self.info@, amount: self.amount }
    }
}

impl PartialEq for Token {
    fn eq(&self, other: &Token) -> (r: bool) {
        self.info.eq(&other.info) && self.amount == other.amount
    }
}

impl PartialEqSpecImpl for Token {
    open spec fn obeys_eq_spec() -> bool {
        true
    }

    open spec fn eq_spec(&self, other: &Token) -> bool {
        self@ == other@
    }
}

/// The wire form of a valued token: the tagged object of its identity, and
/// its amount in decimal text.
#[derive(Clone, Debug, PartialEq, Eq)]
pub struct TokenWire {
    pub info: Vec<(String, String)>,
    pub amount: String,
}

impl TokenView {
    /// The amount of this token as it is logged and sent: decimal text.
    pub open spec fn amount_text(self) -> Seq<char> {
        decimal_text(self.amount as nat)
    }

    /// The valued token that a tagged object and an amount text stand for.
    /// The object is read first: where both are wrong, the error is the
    /// object's.
    pub open spec fn from_wire(info: Seq<(Seq<char>, Seq<char>)>, amount: Seq<char>) -> Result<
        TokenView,
        WireError,
    > {
        match TokenInfoView::from_wire(info) {
            Err(e) => Err(e),
            Ok(info) => match decimal_value(amount) {
                None => Err(WireError::Amount),
                Some(amount) => Ok(TokenView { info, amount }),
            },
        }
    }
}

impl From<Coin> for Token {
    /// A balance that the ledger reports is always of the native kind.
    fn from(value: Coin) -> (r: Token) {
        Token { info: TokenInfo::Native(NativeToken { denom: value.denom }), amount: value.amount }
    }
}

impl FromSpecImpl<Coin> for Token {
    open spec fn obeys_from_spec() -> bool {
        true
    }

    open spec fn from_spec(value: Coin) -> Token {
        Token { info: TokenInfo::Native(NativeToken { denom: value.denom }), amount: value.amount }
    }
}

impl Token {
    /// Pairs an identity with an amount.
    pub fn new(info: TokenInfo, amount: u128) -> (r: Token)
        ensures
            r == (Token { info, amount }),
    {
        Token { info, amount }
    }

    /// Builds the one message that moves the whole amount to `target`.
    pub fn send(&self, target: &str) -> (r: Result<Message, TokenError>)
        ensures
            is_message(r, self.info.transfer_message(target@, self.amount)),
    {
        self.info.send(target, self.amount)
    }

    /// Builds the one message that destroys the whole amount.
    pub fn burn(&self) -> (r: Result<Message, TokenError>)
        ensures
            is_message(r, self.info.burn_message(self.amount)),
    {
        self.info.burn(self.amount)
    }

    /// Describes this token for a log: the attributes of its identity, then
    /// `amount` with the amount in decimal text.
    pub fn attributes(&self) -> (r: Vec<Attribute>)
        ensures
            attribute_views(r@) == self.info.log_attributes().push(
                ("amount"@, self@.amount_text()),
            ),
    {
        let mut attributes = self.info.attributes();
        let ghost before = attributes@;
        let amount = decimal_string(self.amount);
        attributes.push(Attribute::new("amount", amount.as_str()));
        assert(attribute_views(attributes@) =~= attribute_views(before).push(
            ("amount"@, self@.amount_text()),
        ));
        attributes
    }

    /// The key under which the identity of this token is stored.
    pub fn key(&self) -> (r: TokenKey)
        ensures
            r@ == self@.info.key(),
    {
        self.info.key()
    }

    /// Rebuilds a valued token from the key of its identity and an amount.
    pub fn from_key(key: TokenKey, amount: u128) -> (r: Token)
        ensures
            r@ == (TokenView { info: TokenInfoView::from_key(key@), amount }),
    {
        Token { info: TokenInfo::from_key(key), amount }
    }

    /// An amount of the native token of the given denomination.
    pub fn native(denom: String, amount: u128) -> (r: Token)
        ensures
            r@ == (TokenView { info: TokenInfoView::Native(denom@), amount }),
    {
        Token { info: TokenInfo::native(denom), amount }
    }

    /// An amount of the accounted token at the given address.
    pub fn cw20(address: String, amount: u128) -> (r: Token)
        ensures
            r@ == (TokenView { info: TokenInfoView::Cw20(address@), amount }),
    {
        Token { info: TokenInfo::cw20(address), amount }
    }

    /// The wire form of this token.
    pub fn to_wire(&self) -> (r: TokenWire)
        ensures
            entry_views(r.info@) == self@.info.wire(),
            r.amount@ == self@.amount_text(),
    {
        TokenWire { info: self.info.to_wire(), amount: decimal_string(self.amount) }
    }

    /// Reads a valued token from its wire form. The identity must be a
    /// tagged object and the amount must spell an unsigned 128-bit integer.
    pub fn from_wire(wire: &TokenWire) -> (r: Result<Token, WireError>)
        ensures
            read_view(r) == TokenView::from_wire(entry_views(wire.info@), wire.amount@),
    {
        match TokenInfo::from_wire(&wire.info) {
            Err(e) => Err(e),
            Ok(info) => match parse_decimal(wire.amount.as_str()) {
                None => Err(WireError::Amount),
                Some(amount) => Ok(Token { info, amount }),
            },
        }
    }
}

} // verus!
