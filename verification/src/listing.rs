//! The list of ports that can be opened: those that the operating system
//! reports, each with a word on how it is attached, and after them the
//! three virtual ports, which are always there.

use vstd::prelude::*;
use crate::names::{echo_port_name, random_port_name, reply_port_name};

verus! {

/// How a port is attached to the machine.
#[derive(Clone, Debug)]
pub enum PortKind {
    /// Over USB, with what the device says of itself.
    Usb { product: Option<String>, manufacturer: Option<String> },
    Pci,
    Bluetooth,
    Unknown,
}

/// A port as the operating system reports it.
#[derive(Clone, Debug)]
pub struct DetectedPort {
    pub port_name: String,
    pub kind: PortKind,
}

/// An entry of the list: a port's name and a label for the user.
#[derive(Clone, Debug)]
pub struct SerialPortInfo {
    pub port_name: String,
    pub port_type: String,
}

/// A `SerialPortInfo` with its strings taken as sequences of characters.
pub struct PortInfoView {
    pub port_name: Seq<char>,
    pub port_type: Seq<char>,
}

impl View for SerialPortInfo {
    type V = PortInfoView;

    open spec fn view(&self) -> PortInfoView {
        PortInfoView { port_name: self.port_name@, port_type: self.port_type@ }
    }
}

/// The label of a port of this kind. A USB port is called by its product
/// name, or else by its manufacturer, where the device gives one.
pub open spec fn kind_label(kind: PortKind) -> Seq<char> {
    match kind {
        PortKind::Usb { product: Some(product), manufacturer: _ } => "USB: "@ + product@,
        PortKind::Usb { product: None, manufacturer: Some(manufacturer) } => "USB: "@
            + manufacturer@,
        PortKind::Usb { product: None, manufacturer: None } => "USB Device"@,
        PortKind::Pci => "PCI Port"@,
        PortKind::Bluetooth => "Bluetooth"@,
        PortKind::Unknown => "Unknown"@,
    }
}

/// The entry of a reported port.
pub open spec fn detected_entry(port: DetectedPort) -> PortInfoView {
    PortInfoView { port_name: port.port_name@, port_type: kind_label(port.kind) }
}

/// The entries of the three virtual ports.
pub open spec fn virtual_entries() -> Seq<PortInfoView> {
    seq![
        PortInfoView { port_name: echo_port_name(), port_type: "Virtual Port (Echo)"@ },
        PortInfoView { port_name: reply_port_name(), port_type: "Virtual Port (Reply)"@ },
        PortInfoView { port_name: random_port_name(), port_type: "Virtual Port (Random)"@ },
    ]
}

/// The list for what the operating system reported, in its order; `None`
/// stands for a query that failed, and gives the virtual ports alone.
pub open spec fn port_list(detected: Option<Vec<DetectedPort>>) -> Seq<PortInfoView> {
    let reported = match detected {
        Some(ports) => Seq::new(ports@.len(), |i: int| detected_entry(ports@[i])),
        None => Seq::empty(),
    };
    reported + virtual_entries()
}

/// The entries of a list, each by its view.
pub open spec fn entry_views(list: Seq<SerialPortInfo>) -> Seq<PortInfoView> {
    Seq::new(list.len(), |i: int| list[i]@)
}

/// The label of a port of this kind.
pub fn port_type_label(kind: &PortKind) -> (label: String)
    ensures
        label@ == kind_label(*kind),
{
    match kind {
        PortKind::Usb { product: Some(product), manufacturer: _ } => String::from_str(
            "USB: ",
        ).concat(product.as_str()),
        PortKind::Usb { product: None, manufacturer: Some(manufacturer) } => String::from_str(
            "USB: ",
        ).concat(manufacturer.as_str()),
        PortKind::Usb { product: None, manufacturer: None } => String::from_str("USB Device"),
        PortKind::Pci => String::from_str("PCI Port"),
        PortKind::Bluetooth => String::from_str("Bluetooth"),
        PortKind::Unknown => String::from_str("Unknown"),
    }
}

fn entry(port_name: &str, port_type: &str) -> (entry: SerialPortInfo)
    ensures
        entry@ == (PortInfoView { port_name: port_name@, port_type: port_type@ }),
{
    SerialPortInfo {
        port_name: String::from_str(port_name),
        port_type: String::from_str(port_type),
    }
}

/// Lists the ports that can be opened. Never fails: where the operating
/// system could not be asked, `detected` is `None` and the list holds the
/// virtual ports.
pub fn list_serial_ports(detected: &Option<Vec<DetectedPort>>) -> (list: Vec<SerialPortInfo>)
    ensures
        entry_views(list@) == port_list(*detected),
{
    let mut list: Vec<SerialPortInfo> = Vec::new();
    if let Some(ports) = detected {
        let mut at: usize = 0;
        while at < ports.len()
            invariant
                at <= ports@.len(),
                list@.len() == at,
                forall|i: int| 0 <= i < at ==> (#[trigger] list@[i])@ == detected_entry(ports@[i]),
            decreases ports@.len() - at,
        {
            let port = &ports[at];
            list.push(
                SerialPortInfo {
                    port_name: port.port_name.clone(),
                    port_type: port_type_label(&port.kind),
                },
            );
            at = at + 1;
        }
    }
    list.push(entry("VIRTUAL-COM1", "Virtual Port (Echo)"));
    list.push(entry("VIRTUAL-COM2", "Virtual Port (Reply)"));
    list.push(entry("VIRTUAL-COM3", "Virtual Port (Random)"));
    list
}

/// Whatever the operating system reported, and whether or not it could be
/// asked, the list ends with the same three entries: the virtual ports.
pub proof fn lemma_virtual_ports_always_listed(detected: Option<Vec<DetectedPort>>)
    ensures
        virtual_entries().len() == 3,
        port_list(detected).len() >= 3,
        port_list(detected).skip(port_list(detected).len() - 3) == virtual_entries(),
        port_list(None) == virtual_entries(),
        detected matches Some(ports) ==> port_list(detected).len() == ports@.len() + 3,
{
}

} // verus!
