use serial_hub::path::normalize_port_path;

#[test]
fn high_com_ports_get_the_long_form_on_windows() {
    assert_eq!(normalize_port_path("COM10", true), "\\\\.\\COM10");
    assert_eq!(normalize_port_path("COM11", true), "\\\\.\\COM11");
    assert_eq!(normalize_port_path("COM256", true), "\\\\.\\COM256");
}

#[test]
fn low_com_ports_keep_their_name() {
    assert_eq!(normalize_port_path("COM1", true), "COM1");
    assert_eq!(normalize_port_path("COM9", true), "COM9");
    assert_eq!(normalize_port_path("COM0", true), "COM0");
}

#[test]
fn nothing_is_rewritten_off_windows() {
    assert_eq!(normalize_port_path("COM10", false), "COM10");
    assert_eq!(normalize_port_path("COM1", false), "COM1");
    assert_eq!(normalize_port_path("/dev/ttyUSB0", false), "/dev/ttyUSB0");
    assert_eq!(normalize_port_path("", false), "");
}

#[test]
fn other_names_keep_their_name_on_windows() {
    assert_eq!(normalize_port_path("/dev/ttyUSB10", true), "/dev/ttyUSB10");
    assert_eq!(normalize_port_path("", true), "");
    assert_eq!(normalize_port_path("CO", true), "CO");
    assert_eq!(normalize_port_path("COM", true), "COM");
    assert_eq!(normalize_port_path("com10", true), "com10");
    assert_eq!(normalize_port_path("Com10", true), "Com10");
    assert_eq!(normalize_port_path("XCOM10", true), "XCOM10");
    assert_eq!(normalize_port_path("\\\\.\\COM10", true), "\\\\.\\COM10");
    assert_eq!(normalize_port_path("VIRTUAL-COM10", true), "VIRTUAL-COM10");
}

#[test]
fn the_number_may_have_a_sign_and_leading_zeros() {
    assert_eq!(normalize_port_path("COM010", true), "\\\\.\\COM010");
    assert_eq!(normalize_port_path("COM009", true), "COM009");
    assert_eq!(normalize_port_path("COM000", true), "COM000");
    assert_eq!(normalize_port_path("COM+12", true), "\\\\.\\COM+12");
    assert_eq!(normalize_port_path("COM+9", true), "COM+9");
    assert_eq!(normalize_port_path("COM+010", true), "\\\\.\\COM+010");
    assert_eq!(
        normalize_port_path("COM0000000000000000000000010", true),
        "\\\\.\\COM0000000000000000000000010"
    );
    assert_eq!(
        normalize_port_path("COM0000000000000000000000009", true),
        "COM0000000000000000000000009"
    );
}

#[test]
fn the_number_may_be_of_any_size() {
    assert_eq!(normalize_port_path("COM4294967295", true), "\\\\.\\COM4294967295");
    assert_eq!(normalize_port_path("COM4294967296", true), "\\\\.\\COM4294967296");
    assert_eq!(normalize_port_path("COM+4294967296", true), "\\\\.\\COM+4294967296");
    assert_eq!(
        normalize_port_path("COM18446744073709551616", true),
        "\\\\.\\COM18446744073709551616"
    );
    assert_eq!(
        normalize_port_path("COM99999999999999999999999", true),
        "\\\\.\\COM99999999999999999999999"
    );
    assert_eq!(
        normalize_port_path("COM340282366920938463463374607431768211456", true),
        "\\\\.\\COM340282366920938463463374607431768211456"
    );
    assert_eq!(normalize_port_path("COM4294967296", false), "COM4294967296");
}

#[test]
fn what_is_no_number_is_left_alone() {
    assert_eq!(normalize_port_path("COM1a", true), "COM1a");
    assert_eq!(normalize_port_path("COM10a", true), "COM10a");
    assert_eq!(normalize_port_path("COM 10", true), "COM 10");
    assert_eq!(normalize_port_path("COM10 ", true), "COM10 ");
    assert_eq!(normalize_port_path("COM-10", true), "COM-10");
    assert_eq!(normalize_port_path("COM+", true), "COM+");
    assert_eq!(normalize_port_path("COM++10", true), "COM++10");
    assert_eq!(normalize_port_path("COM1+0", true), "COM1+0");
    assert_eq!(normalize_port_path("COM10+", true), "COM10+");
    assert_eq!(normalize_port_path("COM1.0", true), "COM1.0");
    assert_eq!(normalize_port_path("COM\u{0661}\u{0660}", true), "COM\u{0661}\u{0660}");
}
