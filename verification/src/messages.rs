//! The texts that confirm an operation.

use vstd::prelude::*;
use crate::names::{is_virtual_port, names_virtual_port};
use crate::text::{decimal_digits, push_decimal};

verus! {

/// How a message speaks of the port `port_name`: `Virtual port NAME` in
/// the simulator's namespace, `Port NAME` elsewhere.
pub open spec fn port_phrase(port_name: Seq<char>) -> Seq<char> {
    if names_virtual_port(port_name) {
        "Virtual port "@ + port_name
    } else {
        "Port "@ + port_name
    }
}

pub open spec fn opened_text(port_name: Seq<char>) -> Seq<char> {
    port_phrase(port_name) + " opened successfully"@
}

pub open spec fn closed_text(port_name: Seq<char>) -> Seq<char> {
    port_phrase(port_name) + " closed successfully"@
}

pub open spec fn sent_text(count: nat) -> Seq<char> {
    "Sent "@ + decimal_digits(count) + " bytes"@
}

/// Begins a message about the port `port_name`.
pub fn port_phrase_string(port_name: &str) -> (phrase: String)
    ensures
        phrase@ == port_phrase(port_name@),
{
    let opening = if is_virtual_port(port_name) {
        "Virtual port "
    } else {
        "Port "
    };
    String::from_str(opening).concat(port_name)
}

/// Confirms that `port_name` was opened.
pub fn opened_message(port_name: &str) -> (message: String)
    ensures
        message@ == opened_text(port_name@),
{
    port_phrase_string(port_name).concat(" opened successfully")
}

/// Confirms that `port_name` was closed.
pub fn closed_message(port_name: &str) -> (message: String)
    ensures
        message@ == closed_text(port_name@),
{
    port_phrase_string(port_name).concat(" closed successfully")
}

/// Confirms that a write of `count` bytes was accepted.
pub fn sent_message(count: usize) -> (message: String)
    ensures
        message@ == sent_text(count as nat),
{
    let mut message = String::from_str("Sent ");
    push_decimal(&mut message, count as u64);
    message.concat(" bytes")
}

} // verus!
