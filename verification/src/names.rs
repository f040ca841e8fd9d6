//! Port identifiers. A name that begins with `VIRTUAL-` belongs to the
//! simulator; every other name is a port of the operating system.

use vstd::prelude::*;
use crate::text::{starts_with, str_equals};

verus! {

/// The three devices that the simulator knows.
#[derive(Clone, Copy, Debug, PartialEq, Eq, Structural)]
pub enum VirtualDevice {
    /// Hands back the bytes written to it.
    Echo,
    /// Acknowledges the text written to it.
    Reply,
    /// Answers every write with a number taken from the clock.
    Random,
}

/// The prefix that marks a name as virtual.
pub open spec fn virtual_prefix() -> Seq<char> {
    "VIRTUAL-"@
}

pub open spec fn echo_port_name() -> Seq<char> {
    "VIRTUAL-COM1"@
}

pub open spec fn reply_port_name() -> Seq<char> {
    "VIRTUAL-COM2"@
}

pub open spec fn random_port_name() -> Seq<char> {
    "VIRTUAL-COM3"@
}

/// Whether `port_name` is in the simulator's namespace.
pub open spec fn names_virtual_port(port_name: Seq<char>) -> bool {
    virtual_prefix().is_prefix_of(port_name)
}

/// The device behind `port_name`. Names are case-sensitive, and a virtual
/// name other than the three fixed ones has no device behind it.
pub open spec fn device_of(port_name: Seq<char>) -> Option<VirtualDevice> {
    if port_name == echo_port_name() {
        Some(VirtualDevice::Echo)
    } else if port_name == reply_port_name() {
        Some(VirtualDevice::Reply)
    } else if port_name == random_port_name() {
        Some(VirtualDevice::Random)
    } else {
        None
    }
}

/// Whether `port_name` is in the simulator's namespace.
pub fn is_virtual_port(port_name: &str) -> (is_virtual: bool)
    ensures
        is_virtual == names_virtual_port(port_name@),
{
    starts_with(port_name, "VIRTUAL-")
}

/// The device behind `port_name`, if it is one of the three fixed names.
pub fn virtual_device(port_name: &str) -> (device: Option<VirtualDevice>)
    ensures
        device == device_of(port_name@),
{
    if str_equals(port_name, "VIRTUAL-COM1") {
        Some(VirtualDevice::Echo)
    } else if str_equals(port_name, "VIRTUAL-COM2") {
        Some(VirtualDevice::Reply)
    } else if str_equals(port_name, "VIRTUAL-COM3") {
        Some(VirtualDevice::Random)
    } else {
        None
    }
}

/// The three fixed names are virtual names, and no two of them are equal.
pub proof fn lemma_fixed_names()
    ensures
        names_virtual_port(echo_port_name()),
        names_virtual_port(reply_port_name()),
        names_virtual_port(random_port_name()),
        device_of(echo_port_name()) == Some(VirtualDevice::Echo),
        device_of(reply_port_name()) == Some(VirtualDevice::Reply),
        device_of(random_port_name()) == Some(VirtualDevice::Random),
{
    reveal_strlit("VIRTUAL-");
    reveal_strlit("VIRTUAL-COM1");
    reveal_strlit("VIRTUAL-COM2");
    reveal_strlit("VIRTUAL-COM3");
    // The names differ in their last character.
    assert(echo_port_name()[11] != reply_port_name()[11]);
    assert(echo_port_name()[11] != random_port_name()[11]);
    assert(reply_port_name()[11] != random_port_name()[11]);
}

} // verus!
