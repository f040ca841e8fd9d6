use serial_hub::config::{
    DataBits, Parity, PortSettings, SerialConfig, StopBits, OPEN_TIMEOUT_MS,
};

fn config(data_bits: u8, stop_bits: u8, parity: &str) -> SerialConfig {
    SerialConfig {
        port_name: "COM12".to_string(),
        baud_rate: 115200,
        data_bits,
        stop_bits,
        parity: parity.to_string(),
    }
}

#[test]
fn known_settings_are_taken_as_they_are() {
    assert_eq!(
        config(5, 1, "None").settings(),
        PortSettings {
            baud_rate: 115200,
            data_bits: DataBits::Five,
            stop_bits: StopBits::One,
            parity: Parity::NoParity,
        }
    );
    assert_eq!(config(6, 2, "Odd").settings().data_bits, DataBits::Six);
    assert_eq!(config(6, 2, "Odd").settings().stop_bits, StopBits::Two);
    assert_eq!(config(6, 2, "Odd").settings().parity, Parity::Odd);
    assert_eq!(config(7, 1, "Even").settings().data_bits, DataBits::Seven);
    assert_eq!(config(7, 1, "Even").settings().parity, Parity::Even);
    assert_eq!(config(8, 1, "None").settings().data_bits, DataBits::Eight);
}

#[test]
fn unknown_settings_fall_back() {
    let settings = config(9, 3, "Mark").settings();
    assert_eq!(settings.data_bits, DataBits::Eight);
    assert_eq!(settings.stop_bits, StopBits::One);
    assert_eq!(settings.parity, Parity::NoParity);
    assert_eq!(settings.baud_rate, 115200);
}

#[test]
fn unknown_data_bits_fall_back_to_eight() {
    for count in [0u8, 1, 4, 9, 16, 255] {
        assert_eq!(config(count, 1, "None").settings().data_bits, DataBits::Eight);
    }
}

#[test]
fn unknown_stop_bits_fall_back_to_one() {
    for count in [0u8, 3, 15, 255] {
        assert_eq!(config(8, count, "None").settings().stop_bits, StopBits::One);
    }
}

#[test]
fn parity_words_are_case_sensitive() {
    for word in ["odd", "ODD", "even", "EVEN", "none", "", " Odd", "Odd ", "Space"] {
        assert_eq!(config(8, 1, word).settings().parity, Parity::NoParity);
    }
}

#[test]
fn zero_baud_is_not_refused() {
    let mut zero = config(8, 1, "None");
    zero.baud_rate = 0;
    assert_eq!(zero.settings().baud_rate, 0);
}

#[test]
fn open_request_carries_path_settings_and_timeout() {
    let request = config(7, 2, "Even").open_request(true);
    assert_eq!(request.path, "\\\\.\\COM12");
    assert_eq!(request.settings, config(7, 2, "Even").settings());
    assert_eq!(request.timeout_ms, 100);
    assert_eq!(OPEN_TIMEOUT_MS, 100);
    let request = config(7, 2, "Even").open_request(false);
    assert_eq!(request.path, "COM12");
}
