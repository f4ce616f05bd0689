//! Hex text of byte strings, through the `hex` crate.
use vstd::prelude::*;

use crate::difficulty::{leading_zero_digits, lemma_score_reads_hex_digits, nibble};
use vstd::string::StringSliceAdditionalSpecFns;

verus! {

/// The lowercase hex digit for a value below 16.
pub open spec fn hex_digit(v: nat) -> char {
    seq!['0', '1', '2', '3', '4', '5', '6', '7', '8', '9', 'a', 'b', 'c', 'd', 'e', 'f'][v as int]
}

/// Lowercase hex text of `data`: two digits per byte, high nibble first.
pub open spec fn hex_text(data: Seq<u8>) -> Seq<char> {
    Seq::new(2 * data.len(), |i: int| hex_digit(nibble(data, i)))
}

/// The value of an ASCII hex digit, upper or lower case.
pub open spec fn hex_value(c: u8) -> Option<nat> {
    if 48 <= c <= 57 {
        Some((c - 48) as nat)
    } else if 65 <= c <= 70 {
        Some((c - 55) as nat)
    } else if 97 <= c <= 102 {
        Some((c - 87) as nat)
    } else {
        None
    }
}

/// `s` is an even number of hex digits.
pub open spec fn valid_hex(s: Seq<u8>) -> bool {
    s.len() % 2 == 0 && forall|i: int| 0 <= i < s.len() ==> (#[trigger] hex_value(s[i])) is Some
}

/// The bytes spelled by a valid hex text, two digits per byte, high nibble first.
pub open spec fn hex_bytes(s: Seq<u8>) -> Seq<u8> {
    Seq::new(
        s.len() / 2,
        |i: int| (16 * hex_value(s[2 * i]).unwrap() + hex_value(s[2 * i + 1]).unwrap()) as u8,
    )
}

/// `index` is the first position of `s` that holds no hex digit.
pub open spec fn first_non_hex(s: Seq<u8>, index: int) -> bool {
    &&& 0 <= index < s.len()
    &&& hex_value(s[index]) is None
    &&& forall|j: int| 0 <= j < index ==> (#[trigger] hex_value(s[j])) is Some
}

/// `e` is the error that decoding the text `s` reports: an odd length first, else the first
/// byte that is no hex digit.
pub open spec fn hex_error_of(s: Seq<u8>, e: HexError) -> bool {
    match e {
        HexError::OddLength => s.len() % 2 == 1,
        HexError::InvalidHexCharacter { c, index } => {
            &&& s.len() % 2 == 0
            &&& first_non_hex(s, index as int)
            &&& c == s[index as int] as char
        },
        HexError::InvalidStringLength => false,
    }
}

/// Why a text is not hex.
#[derive(Debug, Clone, Copy, PartialEq, Eq, Structural)]
pub enum HexError {
    /// The character at `index` is not a hex digit.
    InvalidHexCharacter { c: char, index: usize },
    /// The text has an odd number of bytes.
    OddLength,
    /// The text does not fit the fixed size it was decoded into.
    InvalidStringLength,
}

/// `hex::encode`: the lowercase hex text of `data`, two digits per byte, high nibble first.
#[verifier::external_body]
pub(crate) fn hex_encode(data: &[u8]) -> (r: String)
    ensures
        r@ == hex_text(data@),
{
    hex::encode(data)
}

/// `hex::decode`: the bytes spelled by the text `s`, read byte by byte. It succeeds exactly
/// when `s` is an even number of hex digits (either case); it reports an odd length first,
/// else the first byte that is no hex digit.
#[verifier::external_body]
pub(crate) fn hex_decode(s: &str) -> (r: Result<Vec<u8>, HexError>)
    ensures
        match r {
            Ok(v) => valid_hex(s.spec_bytes()) && v@ == hex_bytes(s.spec_bytes()),
            Err(e) => hex_error_of(s.spec_bytes(), e),
        },
{
    match hex::decode(s) {
        Ok(v) => Ok(v),
        Err(hex::FromHexError::OddLength) => Err(HexError::OddLength),
        Err(hex::FromHexError::InvalidHexCharacter { c, index }) => Err(
            HexError::InvalidHexCharacter { c, index },
        ),
        Err(hex::FromHexError::InvalidStringLength) => Err(HexError::InvalidStringLength),
    }
}

/// The score counts characters of the hash's hex text: its first `leading_zero_digits`
/// characters are `'0'`, and the next one, if any, is not.
pub proof fn lemma_zero_digits_are_zero_characters(h: Seq<u8>)
    ensures
        leading_zero_digits(h) <= hex_text(h).len(),
        forall|i: int| 0 <= i < leading_zero_digits(h) ==> #[trigger] hex_text(h)[i] == '0',
        leading_zero_digits(h) < hex_text(h).len() ==> hex_text(h)[leading_zero_digits(h) as int]
            != '0',
{
    lemma_score_reads_hex_digits(h);
    let z = leading_zero_digits(h) as int;
    let digits = seq!['0', '1', '2', '3', '4', '5', '6', '7', '8', '9', 'a', 'b', 'c', 'd', 'e', 'f'];
    assert forall|i: int| 0 <= i < z implies #[trigger] hex_text(h)[i] == '0' by {
        assert(nibble(h, i) == 0);
    }
    if z < 2 * h.len() {
        let v = nibble(h, z);
        assert(v < 16);
        assert(v != 0);
        assert(hex_text(h)[z] == digits[v as int]);
        assert(digits[v as int] != '0');
    }
}

} // verus!
