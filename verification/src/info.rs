//! The closed set of token kinds, with the key under which an identity is
//! stored and the tagged object that stands for it on the wire.

use crate::cw20::Cw20Token;
use crate::message::{Attribute, Message, MessageView, Query, QueryView, TokenError};
use crate::native::NativeToken;
use crate::wire::{cw20_tag, entry_views, native_tag, read_view, spells, WireError};
use crate::GenericToken;
use vstd::prelude::*;
use vstd::std_specs::cmp::PartialEqSpecImpl;

verus! {

/// The identity of a token: exactly one of the two kinds.
#[derive(Clone, Debug)]
pub enum TokenInfo {
    Cw20(Cw20Token),
    Native(NativeToken),
}

/// The key under which a token identity is stored: the discriminant of its
/// kind, then the address or the denomination.
pub type TokenKey = (u8, String);

/// The view of a [`TokenInfo`]: the kind, with the address of the contract
/// or the denomination.
pub enum TokenInfoView {
    Cw20(Seq<char>),
    Native(Seq<char>),
}

impl View for TokenInfo {
    type V = TokenInfoView;

    open spec fn view(&self) -> TokenInfoView {
        match *self {
            TokenInfo::Cw20(token) => TokenInfoView::Cw20(token@),
            TokenInfo::Native(token) => TokenInfoView::Native(token@),
        }
    }
}

impl PartialEq for TokenInfo {
    fn eq(&self, other: &TokenInfo) -> (r: bool) {
        match (self, other) {
            (TokenInfo::Cw20(a), TokenInfo::Cw20(b)) => a.eq(b),
            (TokenInfo::Native(a), TokenInfo::Native(b)) => a.eq(b),
            _ => false,
        }
    }
}

impl PartialEqSpecImpl for TokenInfo {
    open spec fn obeys_eq_spec() -> bool {
        true
    }

    open spec fn eq_spec(&self, other: &TokenInfo) -> bool {
        self@ == other@
    }
}

impl TokenInfoView {
    /// The key of this identity: discriminant 0 with the address for the
    /// accounted kind, discriminant 1 with the denomination for the native
    /// kind.
    pub open spec fn key(self) -> (u8, Seq<char>) {
        match self {
            TokenInfoView::Cw20(address) => (0u8, address),
            TokenInfoView::Native(denom) => (1u8, denom),
        }
    }

    /// The identity that a key stands for. Discriminant 0 is the accounted
    /// kind. Every other discriminant is read as the native kind: a
    /// discriminant that no identity has is not rejected.
    pub open spec fn from_key(key: (u8, Seq<char>)) -> TokenInfoView {
        if key.0 == 0 {
            TokenInfoView::Cw20(key.1)
        } else {
            TokenInfoView::Native(key.1)
        }
    }

    /// The tagged object that stands for this identity: one key, `cw20` or
    /// `native`, whose value is the bare string of the token.
    pub open spec fn wire(self) -> Seq<(Seq<char>, Seq<char>)> {
        match self {
            TokenInfoView::Cw20(address) => seq![(cw20_tag(), address)],
            TokenInfoView::Native(denom) => seq![(native_tag(), denom)],
        }
    }

    /// The identity that an object stands for, if it is a tagged object:
    /// it holds exactly one key, and that key is `cw20` or `native`.
    pub open spec fn from_wire(entries: Seq<(Seq<char>, Seq<char>)>) -> Result<
        TokenInfoView,
        WireError,
    > {
        if entries.len() != 1 {
            Err(WireError::KeyCount)
        } else if entries[0].0 == cw20_tag() {
            Ok(TokenInfoView::Cw20(entries[0].1))
        } else if entries[0].0 == native_tag() {
            Ok(TokenInfoView::Native(entries[0].1))
        } else {
            Err(WireError::UnknownTag)
        }
    }
}

impl TokenInfo {
    /// The identity of the accounted token at the given address.
    pub fn cw20(address: String) -> (r: TokenInfo)
        ensures
            r@ == TokenInfoView::Cw20(address@),
    {
        TokenInfo::Cw20(Cw20Token::new(address))
    }

    /// The identity of the native token of the given denomination.
    pub fn native(denom: String) -> (r: TokenInfo)
        ensures
            r@ == TokenInfoView::Native(denom@),
    {
        TokenInfo::Native(NativeToken::new(denom))
    }

    /// The key under which this identity is stored.
    pub fn key(&self) -> (r: TokenKey)
        ensures
            r@ == self@.key(),
    {
        match self {
            TokenInfo::Cw20(token) => (0, token.address.clone()),
            TokenInfo::Native(token) => (1, token.denom.clone()),
        }
    }

    /// Rebuilds the identity that a key stands for. Only discriminant 0 is
    /// read as the accounted kind; every other one, the discriminants that
    /// no identity has among them, gives the native kind.
    pub fn from_key(key: TokenKey) -> (r: TokenInfo)
        ensures
            r@ == TokenInfoView::from_key(key@),
    {
        let (id, data): (u8, String) = key;
        match id {
            0 => TokenInfo::cw20(data),
            _ => TokenInfo::native(data),
        }
    }

    /// The tagged object that stands for this identity on the wire.
    pub fn to_wire(&self) -> (r: Vec<(String, String)>)
        ensures
            entry_views(r@) == self@.wire(),
    {
        let entry = match self {
            TokenInfo::Cw20(token) => ("cw20".to_owned(), token.to_wire()),
            TokenInfo::Native(token) => ("native".to_owned(), token.to_wire()),
        };
        let mut entries = Vec::new();
        entries.push(entry);
        entries
    }

    /// Reads an identity from an object. An object with no key, with more
    /// than one key, or whose key is no tag is refused: no kind is ever
    /// guessed.
    pub fn from_wire(entries: &Vec<(String, String)>) -> (r: Result<TokenInfo, WireError>)
        ensures
            read_view(r) == TokenInfoView::from_wire(entry_views(entries@)),
    {
        if entries.len() != 1 {
            return Err(WireError::KeyCount);
        }
        let entry = &entries[0];
        if spells(&entry.0, "cw20") {
            Ok(TokenInfo::Cw20(Cw20Token::from_wire(entry.1.clone())))
        } else if spells(&entry.0, "native") {
            Ok(TokenInfo::Native(NativeToken::from_wire(entry.1.clone())))
        } else {
            Err(WireError::UnknownTag)
        }
    }
}

impl GenericToken for TokenInfo {
    open spec fn transfer_message(&self, target: Seq<char>, amount: u128) -> Option<MessageView> {
        match *self {
            TokenInfo::Cw20(token) => token.transfer_message(target, amount),
            TokenInfo::Native(token) => token.transfer_message(target, amount),
        }
    }

    open spec fn burn_message(&self, amount: u128) -> Option<MessageView> {
        match *self {
            TokenInfo::Cw20(token) => token.burn_message(amount),
            TokenInfo::Native(token) => token.burn_message(amount),
        }
    }

    open spec fn balance_request(&self, address: Seq<char>) -> Option<QueryView> {
        match *self {
            TokenInfo::Cw20(token) => token.balance_request(address),
            TokenInfo::Native(token) => token.balance_request(address),
        }
    }

    open spec fn log_attributes(&self) -> Seq<(Seq<char>, Seq<char>)> {
        match *self {
            TokenInfo::Cw20(token) => token.log_attributes(),
            TokenInfo::Native(token) => token.log_attributes(),
        }
    }

    fn send(&self, target: &str, amount: u128) -> (r: Result<Message, TokenError>) {
        match self {
            TokenInfo::Cw20(token) => token.send(target, amount),
            TokenInfo::Native(token) => token.send(target, amount),
        }
    }

    fn burn(&self, amount: u128) -> (r: Result<Message, TokenError>) {
        match self {
            TokenInfo::Cw20(token) => token.burn(amount),
            TokenInfo::Native(token) => token.burn(amount),
        }
    }

    fn balance_query(&self, address: &str) -> (r: Result<Query, TokenError>) {
        match self {
            TokenInfo::Cw20(token) => token.balance_query(address),
            TokenInfo::Native(token) => token.balance_query(address),
        }
    }

    fn attributes(&self) -> (r: Vec<Attribute>) {
        match self {
            TokenInfo::Cw20(token) => token.attributes(),
            TokenInfo::Native(token) => token.attributes(),
        }
    }
}

} // verus!
