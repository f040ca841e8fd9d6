use serial_hub::listing::{list_serial_ports, port_type_label, DetectedPort, PortKind};

fn pairs(list: &[serial_hub::listing::SerialPortInfo]) -> Vec<(String, String)> {
    list.iter().map(|entry| (entry.port_name.clone(), entry.port_type.clone())).collect()
}

fn pair(name: &str, label: &str) -> (String, String) {
    (name.to_string(), label.to_string())
}

#[test]
fn virtual_ports_are_listed_when_the_query_failed() {
    let list = list_serial_ports(&None);
    assert_eq!(
        pairs(&list),
        vec![
            pair("VIRTUAL-COM1", "Virtual Port (Echo)"),
            pair("VIRTUAL-COM2", "Virtual Port (Reply)"),
            pair("VIRTUAL-COM3", "Virtual Port (Random)"),
        ]
    );
}

#[test]
fn virtual_ports_are_listed_when_no_port_was_found() {
    let list = list_serial_ports(&Some(vec![]));
    assert_eq!(pairs(&list), pairs(&list_serial_ports(&None)));
}

#[test]
fn reported_ports_come_first_in_their_order() {
    let detected = vec![
        DetectedPort {
            port_name: "/dev/ttyUSB0".to_string(),
            kind: PortKind::Usb {
                product: Some("FT232R".to_string()),
                manufacturer: Some("FTDI".to_string()),
            },
        },
        DetectedPort {
            port_name: "/dev/ttyACM0".to_string(),
            kind: PortKind::Usb { product: None, manufacturer: Some("Arduino".to_string()) },
        },
        DetectedPort {
            port_name: "/dev/ttyUSB1".to_string(),
            kind: PortKind::Usb { product: None, manufacturer: None },
        },
        DetectedPort { port_name: "/dev/ttyS0".to_string(), kind: PortKind::Pci },
        DetectedPort { port_name: "/dev/rfcomm0".to_string(), kind: PortKind::Bluetooth },
        DetectedPort { port_name: "/dev/ttyX".to_string(), kind: PortKind::Unknown },
    ];
    let list = list_serial_ports(&Some(detected));
    assert_eq!(
        pairs(&list),
        vec![
            pair("/dev/ttyUSB0", "USB: FT232R"),
            pair("/dev/ttyACM0", "USB: Arduino"),
            pair("/dev/ttyUSB1", "USB Device"),
            pair("/dev/ttyS0", "PCI Port"),
            pair("/dev/rfcomm0", "Bluetooth"),
            pair("/dev/ttyX", "Unknown"),
            pair("VIRTUAL-COM1", "Virtual Port (Echo)"),
            pair("VIRTUAL-COM2", "Virtual Port (Reply)"),
            pair("VIRTUAL-COM3", "Virtual Port (Random)"),
        ]
    );
}

#[test]
fn a_reported_port_with_a_virtual_name_is_listed_too() {
    let detected =
        vec![DetectedPort { port_name: "VIRTUAL-COM1".to_string(), kind: PortKind::Unknown }];
    let list = list_serial_ports(&Some(detected));
    assert_eq!(list.len(), 4);
    assert_eq!(pairs(&list)[0], pair("VIRTUAL-COM1", "Unknown"));
    assert_eq!(pairs(&list)[1..], pairs(&list_serial_ports(&None))[..]);
}

#[test]
fn usb_label_prefers_the_product() {
    let both = PortKind::Usb {
        product: Some("CP2102".to_string()),
        manufacturer: Some("Silicon Labs".to_string()),
    };
    assert_eq!(port_type_label(&both), "USB: CP2102");
    let product_only = PortKind::Usb { product: Some("".to_string()), manufacturer: None };
    assert_eq!(port_type_label(&product_only), "USB: ");
    let maker_only = PortKind::Usb { product: None, manufacturer: Some("WCH".to_string()) };
    assert_eq!(port_type_label(&maker_only), "USB: WCH");
}
