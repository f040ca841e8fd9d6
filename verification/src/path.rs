//! Device paths. Windows reaches `COM1` to `COM9` under their plain names;
//! a port from `COM10` up must be opened as `\\.\COM10`.

use vstd::prelude::*;
use crate::text::{all_decimal_digits, decimal_digit_value, decimal_value, starts_with};

verus! {

/// `text` without the plus sign that may stand in front of a number.
pub open spec fn without_sign(text: Seq<char>) -> Seq<char> {
    if text.len() > 0 && text[0] == '+' {
        text.skip(1)
    } else {
        text
    }
}

/// The number that `text` writes: an optional plus sign, then one or more
/// decimal digits and nothing else. Leading zeros are allowed, and the
/// number may be of any size.
pub open spec fn port_number(text: Seq<char>) -> Option<nat> {
    let digits = without_sign(text);
    if digits.len() > 0 && all_decimal_digits(digits) {
        Some(decimal_value(digits))
    } else {
        None
    }
}

/// Whether Windows needs the long form for `port_name`: the name is `COM`
/// and a number from 10 up.
pub open spec fn needs_device_path(port_name: Seq<char>) -> bool {
    &&& "COM"@.is_prefix_of(port_name)
    &&& port_number(port_name.skip(3)) matches Some(number)
    &&& number >= 10
}

/// The path under which `port_name` is opened.
pub open spec fn device_path(port_name: Seq<char>, windows: bool) -> Seq<char> {
    if windows && needs_device_path(port_name) {
        "\\\\.\\"@ + port_name
    } else {
        port_name
    }
}

fn char_decimal_value(c: char) -> (value: u64)
    ensures
        value == decimal_digit_value(c),
{
    let code: u32 = c as u32;
    if 0x30 <= code && code <= 0x39 {
        (code - 0x30) as u64
    } else {
        10
    }
}

/// Whether Windows needs the long form for `port_name`.
fn wants_device_path(port_name: &str) -> (wanted: bool)
    ensures
        wanted == needs_device_path(port_name@),
{
    if !starts_with(port_name, "COM") {
        return false;
    }
    proof {
        reveal_strlit("COM");
    }
    let ghost name = port_name@;
    let ghost digits = without_sign(name.skip(3));
    // How many characters have gone by, counted up to four.
    let mut passed: u8 = 0;
    let mut empty: bool = true;
    let mut valid: bool = true;
    // The number read so far, held at ten once it has reached ten.
    let mut number: u64 = 0;
    let ghost mut read: int = 0;
    let chars = port_name.chars();
    for c in iter: chars
        invariant
            iter.seq() == name,
            name.len() >= 3,
            digits == without_sign(name.skip(3)),
            passed == if iter.index() < 4 { iter.index() as int } else { 4 },
            iter.index() <= 3 ==> empty && valid && number == 0 && read == 0,
            iter.index() > 3 ==> read == iter.index() - (name.len() - digits.len()),
            0 <= read <= digits.len(),
            empty == (read == 0),
            valid == all_decimal_digits(digits.take(read)),
            valid ==> number == if decimal_value(digits.take(read)) < 10 {
                decimal_value(digits.take(read))
            } else {
                10
            },
            number <= 10,
    {
        if passed < 3 {
            passed = passed + 1;
        } else if passed == 3 && c == '+' {
            passed = 4;
        } else {
            passed = 4;
            let value = char_decimal_value(c);
            proof {
                let before = digits.take(read);
                let after = digits.take(read + 1);
                assert(after.drop_last() =~= before);
                if value >= 10 {
                    assert(decimal_digit_value(after[read]) >= 10);
                }
                read = read + 1;
            }
            empty = false;
            if value >= 10 {
                valid = false;
            } else if valid {
                number = number * 10 + value;
                if number > 10 {
                    number = 10;
                }
            }
        }
    }
    proof {
        assert(digits.take(read) =~= digits);
    }
    valid && !empty && number >= 10
}

/// The path under which `port_name` is opened. Only on Windows, and only
/// from `COM10` up, it differs from the name.
pub fn normalize_port_path(port_name: &str, windows: bool) -> (path: String)
    ensures
        path@ == device_path(port_name@, windows),
{
    if windows && wants_device_path(port_name) {
        String::from_str("\\\\.\\").concat(port_name)
    } else {
        String::from_str(port_name)
    }
}

} // verus!
