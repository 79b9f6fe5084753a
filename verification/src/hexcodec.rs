//! Hexadecimal text, through the `hex` crate.

use vstd::prelude::*;
use crate::text::{decimal, push_decimal, push_str, string_from_chars};
use vstd::utf8::{encode_utf8, is_ascii_chars, is_ascii_chars_encode_utf8};

verus! {

/// The lower-case hexadecimal digit for a value below sixteen.
pub open spec fn nibble_char(n: int) -> char {
    if n < 10 {
        (n + 48) as char
    } else {
        (n + 87) as char
    }
}

/// Lower-case hexadecimal text of a byte sequence, two digits per byte.
pub open spec fn hex_lower(bytes: Seq<u8>) -> Seq<char>
    decreases bytes.len(),
{
    if bytes.len() == 0 {
        seq![]
    } else {
        hex_lower(bytes.drop_last()) + seq![
            nibble_char((bytes.last() / 16) as int),
            nibble_char((bytes.last() % 16) as int),
        ]
    }
}

/// The value of one hexadecimal digit byte, upper or lower case.
pub open spec fn hex_digit_value(b: u8) -> Option<u8> {
    if 48 <= b <= 57 {
        Some((b - 48) as u8)
    } else if 65 <= b <= 70 {
        Some((b - 55) as u8)
    } else if 97 <= b <= 102 {
        Some((b - 87) as u8)
    } else {
        None
    }
}

pub open spec fn is_hex_digit(b: u8) -> bool {
    hex_digit_value(b) is Some
}

/// Every byte of `text` is a hexadecimal digit.
pub open spec fn all_hex_digits(text: Seq<u8>) -> bool {
    forall|i: int| 0 <= i < text.len() ==> is_hex_digit(#[trigger] text[i])
}

/// The bytes that an even-length text of hexadecimal digits stands for.
pub open spec fn hex_pairs(text: Seq<u8>) -> Seq<u8> {
    Seq::new(
        text.len() / 2,
        |k: int|
            (hex_digit_value(text[2 * k]).unwrap() * 16 + hex_digit_value(
                text[2 * k + 1],
            ).unwrap()) as u8,
    )
}

/// Why a hexadecimal text could not be decoded.
#[derive(Clone, Copy, Debug, PartialEq, Eq)]
pub enum HexError {
    /// The byte at `index`, read as a character, is not a hexadecimal digit.
    InvalidHexCharacter { c: char, index: usize },
    /// The text has an odd number of digits.
    OddLength,
    /// The text does not fit the requested length.
    InvalidStringLength,
}

/// The position of the first byte of `text` that is no hexadecimal digit.
pub open spec fn first_non_hex(text: Seq<u8>) -> int {
    choose|i: int| 0 <= i < text.len() && !is_hex_digit(text[i]) && all_hex_digits(text.take(i))
}

/// What decoding `text` gives: `OddLength` for an odd length; else the
/// first byte (in order) that is no digit, as a character, with its position;
/// else one byte per pair of digits, high digit first.
pub open spec fn hex_decode_spec(text: Seq<u8>) -> Result<Seq<u8>, HexError> {
    if text.len() % 2 != 0 {
        Err(HexError::OddLength)
    } else if all_hex_digits(text) {
        Ok(hex_pairs(text))
    } else {
        let i = first_non_hex(text);
        Err(HexError::InvalidHexCharacter { c: text[i] as char, index: i as usize })
    }
}

/// `hex::encode`: the lower-case hexadecimal text of `data`, two digits per byte.
#[verifier::external_body]
pub(crate) fn hex_encode(data: &[u8]) -> (res: String)
    ensures
        res@ == hex_lower(data@),
{
    hex::encode(data)
}

/// `hex::decode`: an odd length fails with `OddLength`; otherwise the first
/// byte (in order) that is no hexadecimal digit fails with that byte as a
/// character and its position; otherwise each pair of digits gives one byte,
/// high digit first. The outside error is told apart by variant, one arm each.
#[verifier::external_body]
pub(crate) fn hex_decode(text: &[u8]) -> (res: Result<Vec<u8>, HexError>)
    ensures
        res is Ok ==> hex_decode_spec(text@) == Ok::<Seq<u8>, HexError>(res.unwrap()@),
        res is Err ==> hex_decode_spec(text@) == Err::<Seq<u8>, HexError>(res.unwrap_err()),
{
    match hex::decode(text) {
        Ok(v) => Ok(v),
        Err(hex::FromHexError::InvalidHexCharacter { c, index }) => Err(
            HexError::InvalidHexCharacter { c, index },
        ),
        Err(hex::FromHexError::OddLength) => Err(HexError::OddLength),
        Err(hex::FromHexError::InvalidStringLength) => Err(HexError::InvalidStringLength),
    }
}

/// What `{:?}` prints for a character: std's `Debug` for `char`.
pub uninterp spec fn char_debug_text(c: char) -> Seq<char>;

/// std's `Debug` formatting of a `char`, quoted and escaped.
#[verifier::external_body]
fn char_debug(c: char) -> (res: String)
    ensures
        res@ == char_debug_text(c),
{
    format!("{:?}", c)
}

/// The message that `hex`'s errors display.
pub open spec fn hex_error_text(e: HexError) -> Seq<char> {
    match e {
        HexError::InvalidHexCharacter { c, index } => "Invalid character "@ + char_debug_text(c)
            + " at position "@ + decimal(index as nat),
        HexError::OddLength => "Odd number of digits"@,
        HexError::InvalidStringLength => "Invalid string length"@,
    }
}

/// The message of a hex decoding error, as `hex` displays it.
pub fn hex_error_message(e: &HexError) -> (res: String)
    ensures
        res@ == hex_error_text(*e),
{
    match e {
        HexError::InvalidHexCharacter { c, index } => {
            let mut out: Vec<char> = Vec::new();
            push_str(&mut out, "Invalid character ");
            let d = char_debug(*c);
            push_str(&mut out, d.as_str());
            push_str(&mut out, " at position ");
            push_decimal(&mut out, *index as u64);
            proof {
                reveal_strlit("Invalid character ");
                reveal_strlit(" at position ");
            }
            assert(out@ =~= hex_error_text(*e));
            string_from_chars(&out)
        },
        HexError::OddLength => {
            proof {
                reveal_strlit("Odd number of digits");
            }
            String::from_str("Odd number of digits")
        },
        HexError::InvalidStringLength => {
            proof {
                reveal_strlit("Invalid string length");
            }
            String::from_str("Invalid string length")
        },
    }
}

/// A hex digit is an ASCII character other than `x`, and reads back as its value.
pub proof fn lemma_nibble_char(n: int)
    requires
        0 <= n < 16,
    ensures
        '\0' <= nibble_char(n) <= '\u{7f}',
        nibble_char(n) != 'x',
        hex_digit_value(nibble_char(n) as u8) == Some(n as u8),
{
}

/// Lower-case hex text has two digits per byte: the high nibble's, then the low one's.
pub proof fn lemma_hex_lower_shape(b: Seq<u8>)
    ensures
        hex_lower(b).len() == 2 * b.len(),
        forall|k: int|
            0 <= k < b.len() ==> hex_lower(b)[2 * k] == nibble_char((b[k] / 16) as int)
                && hex_lower(b)[2 * k + 1] == nibble_char((b[k] % 16) as int),
    decreases b.len(),
{
    if b.len() > 0 {
        let init = b.drop_last();
        lemma_hex_lower_shape(init);
        assert forall|k: int| 0 <= k < b.len() implies hex_lower(b)[2 * k] == nibble_char(
            (b[k] / 16) as int,
        ) && hex_lower(b)[2 * k + 1] == nibble_char((b[k] % 16) as int) by {
            if k < b.len() - 1 {
                assert(init[k] == b[k]);
            }
        }
    }
}

/// The value of the hex digit at position `i` of the hex text of `b`.
pub open spec fn digit_at(b: Seq<u8>, i: int) -> u8 {
    if i % 2 == 0 {
        (b[i / 2] / 16) as u8
    } else {
        (b[i / 2] % 16) as u8
    }
}

proof fn lemma_hex_text_digits(b: Seq<u8>)
    ensures
        hex_lower(b).len() == 2 * b.len(),
        forall|i: int|
            0 <= i < hex_lower(b).len() ==> '\0' <= #[trigger] hex_lower(b)[i] <= '\u{7f}'
                && hex_digit_value(hex_lower(b)[i] as u8) == Some(digit_at(b, i)),
{
    lemma_hex_lower_shape(b);
    let t = hex_lower(b);
    assert forall|i: int| 0 <= i < t.len() implies '\0' <= #[trigger] t[i] <= '\u{7f}'
        && hex_digit_value(t[i] as u8) == Some(digit_at(b, i)) by {
        let k = i / 2;
        if i % 2 == 0 {
            assert(i == 2 * k);
            lemma_nibble_char((b[k] / 16) as int);
        } else {
            assert(i == 2 * k + 1);
            lemma_nibble_char((b[k] % 16) as int);
        }
    }
}

/// Decoding the (UTF-8 bytes of the) lower-case hex text of `b` gives `b` back.
pub proof fn lemma_hex_round_trip(b: Seq<u8>)
    ensures
        hex_decode_spec(encode_utf8(hex_lower(b))) == Ok::<Seq<u8>, HexError>(b),
{
    lemma_hex_text_digits(b);
    let t = hex_lower(b);
    assert(is_ascii_chars(t));
    is_ascii_chars_encode_utf8(t);
    let bytes = encode_utf8(t);
    assert forall|i: int| 0 <= i < bytes.len() implies is_hex_digit(#[trigger] bytes[i]) by {
        assert(bytes[i] == t[i] as u8);
    }
    assert forall|k: int| 0 <= k < b.len() implies #[trigger] hex_pairs(bytes)[k] == b[k] by {
        assert(bytes[2 * k] == t[2 * k] as u8);
        assert(bytes[2 * k + 1] == t[2 * k + 1] as u8);
        assert(digit_at(b, 2 * k) == (b[k] / 16) as u8);
        assert(digit_at(b, 2 * k + 1) == (b[k] % 16) as u8);
    }
    assert(hex_pairs(bytes) =~= b);
}

} // verus!
