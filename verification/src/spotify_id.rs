//! The 128-bit identifier of a track, an album or an artist, and its textual
//! form: 22 digits in radix 62.

use crate::base62::{
    all_digits, is_digit, lemma_capacity_22, lemma_number_of_numeral, lemma_numeral_of_number,
    lemma_numeral_shape, number, numeral, numeral_value, read_numeral, write_numeral,
};
use vstd::prelude::*;
use vstd::string::*;

verus! {

/// Number of characters in the textual form of an identifier.
pub const ID_TEXT_LEN: usize = 22;

/// The textual form of an identifier.
pub open spec fn encode(id: u128) -> Seq<char> {
    numeral(id as nat, ID_TEXT_LEN as nat)
}

/// The identifier that a text stands for. A text stands for one exactly when
/// it has 22 characters, all of the alphabet, and denotes a number that fits in
/// 128 bits.
pub open spec fn decode(text: Seq<char>) -> Option<u128> {
    if text.len() == ID_TEXT_LEN {
        numeral_value(text)
    } else {
        None
    }
}

/// An opaque 128-bit identifier.
#[derive(Clone, Copy, Debug, PartialEq, Eq, Hash, Structural)]
pub struct SpotifyId {
    pub id: u128,
}

/// The text handed to [`SpotifyId::from_base62`] is not the textual form of any
/// identifier.
#[derive(Clone, Copy, Debug, PartialEq, Eq, Hash, Structural)]
pub struct SpotifyIdError;

impl SpotifyId {
    /// The identifier with the given value.
    pub fn new(id: u128) -> (r: SpotifyId)
        ensures
            r.id == id,
    {
        SpotifyId { id }
    }

    /// Writes the identifier as 22 digits in radix 62, most significant first.
    pub fn to_base62(&self) -> (text: String)
        ensures
            text@ == encode(self.id),
    {
        let mut text = String::new();
        write_numeral(&mut text, self.id, ID_TEXT_LEN);
        text
    }

    /// Reads an identifier from its textual form.
    ///
    /// Fails on every text that is not the textual form of an identifier: one
    /// that is not 22 characters long, holds a character outside the alphabet,
    /// or denotes a number beyond 128 bits.
    pub fn from_base62(src: &str) -> (r: Result<SpotifyId, SpotifyIdError>)
        ensures
            match r {
                Ok(id) => decode(src@) == Some(id.id),
                Err(_) => decode(src@) is None,
            },
    {
        match read_numeral(src) {
            Some(id) => {
                proof {
                    // Digits are ASCII characters: the text has one byte for each.
                    assert(is_ascii(src));
                    is_ascii_spec_bytes(src);
                }
                if src.as_bytes().len() == ID_TEXT_LEN {
                    Ok(SpotifyId { id })
                } else {
                    Err(SpotifyIdError)
                }
            },
            None => Err(SpotifyIdError),
        }
    }
}

/// Reading the textual form of an identifier gives that identifier back.
pub proof fn lemma_decode_encode(id: u128)
    ensures
        decode(encode(id)) == Some(id),
{
    lemma_capacity_22();
    lemma_numeral_shape(id as nat, 22);
    lemma_number_of_numeral(id as nat, 22);
}

/// A text that stands for an identifier is that identifier's textual form: no
/// identifier has two textual forms.
pub proof fn lemma_encode_decode(text: Seq<char>)
    requires
        decode(text) is Some,
    ensures
        encode(decode(text)->Some_0) == text,
{
    lemma_numeral_of_number(text);
}

/// A text with a character outside the alphabet stands for no identifier.
pub proof fn lemma_foreign_character_rejected(text: Seq<char>, i: int)
    requires
        0 <= i < text.len(),
        !is_digit(text[i]),
    ensures
        decode(text) is None,
{
}

/// A text that denotes a number beyond 128 bits stands for no identifier.
pub proof fn lemma_overflow_rejected(text: Seq<char>)
    requires
        number(text) > u128::MAX,
    ensures
        decode(text) is None,
{
}

/// A text of any other length than 22 stands for no identifier.
pub proof fn lemma_wrong_length_rejected(text: Seq<char>)
    requires
        text.len() != 22,
    ensures
        decode(text) is None,
{
}

/// A text is accepted exactly when it has 22 characters, all of the alphabet,
/// and denotes a number within 128 bits; it then stands for that number.
pub proof fn lemma_decode_accepts(text: Seq<char>)
    ensures
        decode(text) is Some <==> text.len() == 22 && all_digits(text) && number(text) <= u128::MAX,
        decode(text) is Some ==> decode(text)->Some_0 == number(text),
{
}

/// Distinct identifiers have distinct textual forms.
pub proof fn lemma_encode_injective(a: u128, b: u128)
    requires
        encode(a) == encode(b),
    ensures
        a == b,
{
    lemma_decode_encode(a);
    lemma_decode_encode(b);
}

} // verus!
