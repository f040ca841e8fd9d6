//! Payloads. What a user writes to a port is text; it stands for bytes
//! either as it is or, announced as hexadecimal, by the digits it holds.

use vstd::prelude::*;
use vstd::slice::slice_to_vec;
use vstd::utf8::encode_utf8;
use crate::hex::{hex_decode, hex_string_to_bytes, HexError};

verus! {

/// The bytes that a payload stands for: those that its hexadecimal digits
/// spell, or the text itself as UTF-8.
pub open spec fn payload_bytes(data: Seq<char>, is_hex: bool) -> Result<Seq<u8>, HexError> {
    if is_hex {
        hex_decode(data)
    } else {
        Ok(encode_utf8(data))
    }
}

/// The bytes that a payload stands for.
pub fn encode_payload(data: &str, is_hex: bool) -> (payload: Result<Vec<u8>, HexError>)
    ensures
        match payload {
            Ok(bytes) => payload_bytes(data@, is_hex) == Ok::<Seq<u8>, HexError>(bytes@),
            Err(reason) => payload_bytes(data@, is_hex) == Err::<Seq<u8>, HexError>(reason),
        },
{
    if is_hex {
        hex_string_to_bytes(data)
    } else {
        Ok(slice_to_vec(data.as_bytes()))
    }
}

} // verus!
