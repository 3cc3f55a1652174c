//! The shapes that tokens take on the wire.
//!
//! A single kind of token travels as a bare string. A token identity
//! travels as an object with exactly one key, the tag of its kind, whose
//! value is that string. A valued token travels as that object beside its
//! amount in decimal text. An object is held here as the list of its keys
//! and values, in the order in which they were read.

use vstd::prelude::*;

verus! {

/// Why a value read from the wire is no token.
#[derive(Clone, Copy, Debug, PartialEq, Eq, Structural)]
pub enum WireError {
    /// The tagged object does not hold exactly one key.
    KeyCount,
    /// The one key of the tagged object names no kind of token.
    UnknownTag,
    /// The amount is not the decimal text of an unsigned 128-bit integer.
    Amount,
}

impl WireError {
    /// What is wrong, in words.
    pub open spec fn text(self) -> Seq<char> {
        match self {
            WireError::KeyCount => "a token identity is an object with exactly one key"@,
            WireError::UnknownTag => "unknown kind of token, expected `cw20` or `native`"@,
            WireError::Amount => "the amount is not a string-encoded unsigned 128-bit integer"@,
        }
    }

    /// Says what is wrong, for whoever reports the error.
    pub fn describe(&self) -> (r: &'static str)
        ensures
            r@ == self.text(),
    {
        match self {
            WireError::KeyCount => "a token identity is an object with exactly one key",
            WireError::UnknownTag => "unknown kind of token, expected `cw20` or `native`",
            WireError::Amount => "the amount is not a string-encoded unsigned 128-bit integer",
        }
    }
}

/// The tag of the accounted kind.
pub open spec fn cw20_tag() -> Seq<char> {
    "cw20"@
}

/// The tag of the ledger-native kind.
pub open spec fn native_tag() -> Seq<char> {
    "native"@
}

/// The two tags differ.
pub proof fn lemma_tags_differ()
    ensures
        cw20_tag() != native_tag(),
{
    reveal_strlit("cw20");
    reveal_strlit("native");
    assert(cw20_tag().len() < native_tag().len());
}

/// The keys and values of an object, in order.
pub open spec fn entry_views(entries: Seq<(String, String)>) -> Seq<(Seq<char>, Seq<char>)> {
    Seq::new(entries.len(), |i: int| (entries[i].0@, entries[i].1@))
}

/// What was read, by its view.
pub open spec fn read_view<T: View>(r: Result<T, WireError>) -> Result<T::V, WireError> {
    match r {
        Ok(value) => Ok(value@),
        Err(e) => Err(e),
    }
}

/// Whether `text` spells exactly `word`.
pub(crate) fn spells(text: &String, word: &str) -> (r: bool)
    ensures
        r == (text@ == word@),
{
    let other = word.to_owned();
    *text == other
}

} // verus!
