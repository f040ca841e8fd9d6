//! Hexadecimal payloads: text such as `"DE AD be ef"` read as bytes.

use vstd::prelude::*;
use vstd::utf8::{
    char_is_scalar, char_u32_cast, encode_scalar, encode_utf8, is_ascii_chars,
    is_ascii_chars_encode_utf8,
};

verus! {

/// Why a hexadecimal payload was rejected.
#[derive(Clone, Copy, Debug, PartialEq, Eq, Structural)]
pub enum HexError {
    /// Without its whitespace the text takes an odd number of bytes.
    OddLength,
    /// Some character that is not whitespace is no hexadecimal digit.
    InvalidDigit,
}

/// The characters with Unicode's `White_Space` property.
pub open spec fn is_whitespace(c: char) -> bool {
    let code = c as u32;
    ||| 0x09 <= code <= 0x0D
    ||| code == 0x20
    ||| code == 0x85
    ||| code == 0xA0
    ||| code == 0x1680
    ||| 0x2000 <= code <= 0x200A
    ||| code == 0x2028
    ||| code == 0x2029
    ||| code == 0x202F
    ||| code == 0x205F
    ||| code == 0x3000
}

/// `text` without its whitespace.
pub open spec fn strip_whitespace(text: Seq<char>) -> Seq<char> {
    text.filter(|c: char| !is_whitespace(c))
}

/// The value of a hexadecimal digit, in either case; 16 for any other
/// character.
pub open spec fn hex_digit_value(c: char) -> int {
    let code = c as u32;
    if 0x30 <= code <= 0x39 {
        code - 0x30
    } else if 0x41 <= code <= 0x46 {
        code - 0x41 + 10
    } else if 0x61 <= code <= 0x66 {
        code - 0x61 + 10
    } else {
        16
    }
}

pub open spec fn is_hex_digit(c: char) -> bool {
    hex_digit_value(c) < 16
}

pub open spec fn all_hex_digits(text: Seq<char>) -> bool {
    forall|i: int| 0 <= i < text.len() ==> is_hex_digit(#[trigger] text[i])
}

/// The byte that two hexadecimal digits spell, the high one first.
pub open spec fn hex_pair_value(high: char, low: char) -> u8 {
    (hex_digit_value(high) * 16 + hex_digit_value(low)) as u8
}

/// The bytes that a run of hexadecimal digits spells, two digits to a byte.
pub open spec fn hex_pairs(digits: Seq<char>) -> Seq<u8> {
    Seq::new(digits.len() / 2, |i: int| hex_pair_value(digits[2 * i], digits[2 * i + 1]))
}

/// What a hexadecimal payload decodes to. Whitespace anywhere in the text
/// is passed over. The rest must take an even number of bytes, counted as
/// UTF-8, and hold hexadecimal digits only; a sign or a `0x` is no digit.
/// The length is looked at first.
pub open spec fn hex_decode(text: Seq<char>) -> Result<Seq<u8>, HexError> {
    let digits = strip_whitespace(text);
    if encode_utf8(digits).len() % 2 != 0 {
        Err(HexError::OddLength)
    } else if !all_hex_digits(digits) {
        Err(HexError::InvalidDigit)
    } else {
        Ok(hex_pairs(digits))
    }
}

/// A run of hexadecimal digits takes one byte for each digit.
pub proof fn lemma_hex_digits_are_single_bytes(digits: Seq<char>)
    requires
        all_hex_digits(digits),
    ensures
        encode_utf8(digits).len() == digits.len(),
{
    assert(is_ascii_chars(digits)) by {
        assert forall|i: int| 0 <= i < digits.len() implies '\0' <= #[trigger] digits[i]
            <= '\u{7f}' by {
            char_u32_cast(digits[i], digits[i] as u32);
        }
    }
    is_ascii_chars_encode_utf8(digits);
}

/// The UTF-8 form of a text with one more character is the form of the
/// text, then that of the character.
proof fn lemma_encode_utf8_push(text: Seq<char>, c: char)
    ensures
        encode_utf8(text.push(c)) == encode_utf8(text) + encode_scalar(c as u32),
    decreases text.len(),
{
    let longer = text.push(c);
    if text.len() == 0 {
        assert(longer.drop_first() =~= Seq::<char>::empty());
        assert(encode_utf8(longer) =~= encode_scalar(c as u32) + encode_utf8(
            Seq::<char>::empty(),
        ));
    } else {
        assert(longer.drop_first() =~= text.drop_first().push(c));
        lemma_encode_utf8_push(text.drop_first(), c);
    }
}

fn char_is_whitespace(c: char) -> (white: bool)
    ensures
        white == is_whitespace(c),
{
    let code: u32 = c as u32;
    (0x09 <= code && code <= 0x0D) || code == 0x20 || code == 0x85 || code == 0xA0
        || code == 0x1680 || (0x2000 <= code && code <= 0x200A) || code == 0x2028
        || code == 0x2029 || code == 0x202F || code == 0x205F || code == 0x3000
}

/// The value of `c` as a hexadecimal digit, or 16 where it is none.
fn char_hex_value(c: char) -> (value: u8)
    ensures
        value == hex_digit_value(c),
{
    let code: u32 = c as u32;
    if 0x30 <= code && code <= 0x39 {
        (code - 0x30) as u8
    } else if 0x41 <= code && code <= 0x46 {
        (code - 0x41 + 10) as u8
    } else if 0x61 <= code && code <= 0x66 {
        (code - 0x61 + 10) as u8
    } else {
        16
    }
}

/// Whether the UTF-8 form of `c` takes one byte or three.
fn char_has_odd_width(c: char) -> (odd: bool)
    ensures
        odd == (encode_scalar(c as u32).len() % 2 == 1),
{
    proof {
        char_is_scalar(c);
    }
    let code: u32 = c as u32;
    code < 0x80 || (0x800 <= code && code < 0x1_0000)
}

/// Decodes a hexadecimal payload.
pub fn hex_string_to_bytes(hex: &str) -> (decoded: Result<Vec<u8>, HexError>)
    ensures
        match decoded {
            Ok(bytes) => hex_decode(hex@) == Ok::<Seq<u8>, HexError>(bytes@),
            Err(error) => hex_decode(hex@) == Err::<Seq<u8>, HexError>(error),
        },
{
    let mut values: Vec<u8> = Vec::new();
    let mut odd: bool = false;
    let mut all_hex: bool = true;
    let ghost mut digits: Seq<char> = Seq::empty();
    proof {
        reveal(Seq::filter);
    }
    let chars = hex.chars();
    for c in iter: chars
        invariant
            iter.seq() == hex@,
            digits == strip_whitespace(hex@.take(iter.index() as int)),
            odd == (encode_utf8(digits).len() % 2 == 1),
            all_hex == all_hex_digits(digits),
            all_hex ==> values@.len() == digits.len(),
            all_hex ==> forall|i: int|
                0 <= i < digits.len() ==> #[trigger] values@[i] == hex_digit_value(digits[i]),
    {
        proof {
            let k = iter.index() as int;
            reveal(Seq::filter);
            assert(hex@.take(k + 1).drop_last() =~= hex@.take(k));
        }
        if !char_is_whitespace(c) {
            let value = char_hex_value(c);
            proof {
                let longer = digits.push(c);
                lemma_encode_utf8_push(digits, c);
                if value >= 16 {
                    assert(!is_hex_digit(longer[digits.len() as int]));
                } else if !all_hex_digits(digits) {
                    let bad = choose|i: int| 0 <= i < digits.len() && !is_hex_digit(digits[i]);
                    assert(!is_hex_digit(longer[bad]));
                }
                digits = longer;
            }
            if char_has_odd_width(c) {
                odd = !odd;
            }
            if value >= 16 {
                all_hex = false;
            } else if all_hex {
                values.push(value);
            }
        }
    }
    proof {
        assert(hex@.take(hex@.len() as int) =~= hex@);
    }
    if odd {
        return Err(HexError::OddLength);
    }
    if !all_hex {
        return Err(HexError::InvalidDigit);
    }
    proof {
        lemma_hex_digits_are_single_bytes(digits);
    }
    let mut bytes: Vec<u8> = Vec::new();
    let mut at: usize = 0;
    while at < values.len()
        invariant
            at % 2 == 0,
            at <= values@.len(),
            values@.len() % 2 == 0,
            values@.len() == digits.len(),
            forall|i: int|
                0 <= i < digits.len() ==> #[trigger] values@[i] == hex_digit_value(digits[i]),
            all_hex_digits(digits),
            bytes@.len() == at / 2,
            forall|i: int|
                0 <= i < bytes@.len() ==> #[trigger] bytes@[i] == hex_pair_value(
                    digits[2 * i],
                    digits[2 * i + 1],
                ),
        decreases values@.len() - at,
    {
        let high: u8 = values[at];
        let low: u8 = values[at + 1];
        bytes.push(high * 16 + low);
        at = at + 2;
    }
    proof {
        assert(bytes@ =~= hex_pairs(digits));
    }
    Ok(bytes)
}

} // verus!
