//! What holds of the library as a whole, beyond the contract of any one
//! function.

use crate::cw20::{cw20_from_wire, cw20_wire, Cw20Token};
use crate::decimal::lemma_decimal_round_trip;
use crate::info::{TokenInfo, TokenInfoView};
use crate::message::Coin;
use crate::native::{native_from_wire, native_wire, NativeToken};
use crate::token::{Token, TokenView};
use crate::wire::{cw20_tag, lemma_tags_differ, native_tag, WireError};
use crate::GenericToken;
use vstd::prelude::*;
use vstd::std_specs::convert::FromSpec;

verus! {

/// A native token written to the wire and read back is the token that was
/// written, whatever its denomination.
pub proof fn native_wire_round_trip(denom: Seq<char>)
    ensures
        native_from_wire(native_wire(denom)) == denom,
{
}

/// An accounted token written to the wire and read back is the token that
/// was written, whatever its address.
pub proof fn cw20_wire_round_trip(address: Seq<char>)
    ensures
        cw20_from_wire(cw20_wire(address)) == address,
{
}

/// The identity that the key of an identity stands for is that identity, for
/// both kinds.
pub proof fn key_round_trip(info: TokenInfoView)
    ensures
        TokenInfoView::from_key(info.key()) == info,
{
}

/// A key is the key of the identity that it stands for exactly when its
/// discriminant is 0 or 1.
pub proof fn key_of_read_key(key: (u8, Seq<char>))
    ensures
        TokenInfoView::from_key(key).key() == key <==> key.0 <= 1,
{
}

/// A valued token rebuilt from the key of its identity and its amount is
/// the token itself.
pub proof fn valued_key_round_trip(token: TokenView)
    ensures
        (TokenView { info: TokenInfoView::from_key(token.info.key()), amount: token.amount })
            == token,
{
}

/// An identity written to the wire and read back is the identity that was
/// written, for both kinds.
pub proof fn identity_wire_round_trip(info: TokenInfoView)
    ensures
        TokenInfoView::from_wire(info.wire()) == Ok::<TokenInfoView, WireError>(info),
{
    lemma_tags_differ();
}

/// An object is read as an identity exactly when it holds one key and that
/// key is one of the two tags. An object with no key, with two keys or more,
/// or with another key is refused.
pub proof fn identity_wire_accepts(entries: Seq<(Seq<char>, Seq<char>)>)
    ensures
        TokenInfoView::from_wire(entries) is Ok <==> entries.len() == 1 && (entries[0].0
            == cw20_tag() || entries[0].0 == native_tag()),
        entries.len() != 1 ==> TokenInfoView::from_wire(entries) == Err::<TokenInfoView, WireError>(
            WireError::KeyCount,
        ),
{
}

/// A valued token written to the wire and read back is the token that was
/// written, whatever its identity and its amount.
pub proof fn token_wire_round_trip(token: TokenView)
    ensures
        TokenView::from_wire(token.info.wire(), token.amount_text()) == Ok::<TokenView, WireError>(
            token,
        ),
{
    identity_wire_round_trip(token.info);
    lemma_decimal_round_trip(token.amount);
}

/// A balance that the ledger reports becomes a valued token of the native
/// kind, with the denomination and the amount of the report.
pub proof fn coin_is_native(coin: Coin)
    ensures
        Token::from_spec(coin)@ == (TokenView {
            info: TokenInfoView::Native(coin.denom@),
            amount: coin.amount,
        }),
{
}

/// The messages that move and destroy a native token are always built, and
/// neither addresses a contract.
pub proof fn native_messages_name_no_contract(token: NativeToken, target: Seq<char>, amount: u128)
    ensures
        token.transfer_message(target, amount) is Some,
        token.transfer_message(target, amount)->0.contract() is None,
        token.burn_message(amount) is Some,
        token.burn_message(amount)->0.contract() is None,
{
}

/// Every message built for an accounted token, to move it, to destroy it or
/// to move it out of an allowance, addresses the contract of that token.
pub proof fn cw20_messages_address_own_contract(
    token: Cw20Token,
    owner: Seq<char>,
    target: Seq<char>,
    amount: u128,
)
    ensures
        token.transfer_message(target, amount) matches Some(m) ==> m.contract() == Some(token@),
        token.burn_message(amount) matches Some(m) ==> m.contract() == Some(token@),
        token.allowance_message(owner, target, amount) matches Some(m) ==> m.contract() == Some(
            token@,
        ),
{
}

/// An identity hands every request on to the kind that it holds: its
/// messages address a contract exactly when it is of the accounted kind, and
/// then the contract of that token.
pub proof fn identity_messages_follow_kind(info: TokenInfo, target: Seq<char>, amount: u128)
    ensures
        info.transfer_message(target, amount) matches Some(m) ==> m.contract() == (match info {
            TokenInfo::Cw20(token) => Some(token@),
            TokenInfo::Native(_) => None,
        }),
        info.burn_message(amount) matches Some(m) ==> m.contract() == (match info {
            TokenInfo::Cw20(token) => Some(token@),
            TokenInfo::Native(_) => None,
        }),
{
}

} // verus!
