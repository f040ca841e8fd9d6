use serial_hub::hex::{hex_string_to_bytes, HexError};
use serial_hub::messages::sent_message;
use serial_hub::path::normalize_port_path;

#[test]
fn whitespace_is_what_char_calls_whitespace() {
    for code in 0..=0x10FFFFu32 {
        if let Some(c) = char::from_u32(code) {
            let alone = hex_string_to_bytes(&c.to_string());
            assert_eq!(alone == Ok(vec![]), c.is_whitespace(), "U+{:04X}", code);
        }
    }
}

#[test]
fn a_pair_of_digits_is_read_as_base_sixteen() {
    for high in 0u8..128 {
        for low in 0u8..128 {
            let (high, low) = (high as char, low as char);
            if high.is_whitespace() || low.is_whitespace() || high == '+' {
                continue;
            }
            let pair: String = [high, low].iter().collect();
            match u8::from_str_radix(&pair, 16) {
                Ok(byte) => assert_eq!(hex_string_to_bytes(&pair), Ok(vec![byte]), "{:?}", pair),
                Err(_) => {
                    let decoded = hex_string_to_bytes(&pair);
                    assert_eq!(decoded, Err(HexError::InvalidDigit), "{:?}", pair)
                }
            }
        }
    }
}

#[test]
fn every_byte_can_be_written_in_hex() {
    for byte in 0..=255u8 {
        assert_eq!(hex_string_to_bytes(&format!("{:02x}", byte)), Ok(vec![byte]));
        assert_eq!(hex_string_to_bytes(&format!("{:02X}", byte)), Ok(vec![byte]));
    }
    let all: String = (0..=255u8).map(|byte| format!("{:02x} ", byte)).collect();
    assert_eq!(hex_string_to_bytes(&all), Ok((0..=255u8).collect::<Vec<u8>>()));
}

#[test]
fn the_length_is_that_of_the_string() {
    let texts =
        ["\u{00E9}", "a\u{00E9}", "\u{20AC}1", "\u{1F600}", "\u{00E9}\u{20AC}", "ab\u{00E9}"];
    for text in texts {
        let decoded = hex_string_to_bytes(text);
        if text.len() % 2 == 1 {
            assert_eq!(decoded, Err(HexError::OddLength), "{:?}", text);
        } else {
            assert_eq!(decoded, Err(HexError::InvalidDigit), "{:?}", text);
        }
    }
}

fn suffixes() -> Vec<String> {
    let alphabet = ['+', '-', '0', '1', '9', ' ', 'a', 'x'];
    let mut all = vec![String::new()];
    let mut last = vec![String::new()];
    for _ in 0..4 {
        let mut next = Vec::new();
        for text in &last {
            for c in alphabet {
                let mut longer = text.clone();
                longer.push(c);
                next.push(longer);
            }
        }
        all.extend(next.iter().cloned());
        last = next;
    }
    for number in [
        "4294967294",
        "4294967295",
        "4294967296",
        "4294967305",
        "42949672950",
        "+4294967295",
        "+4294967296",
        "004294967295",
        "18446744073709551616",
        "340282366920938463463374607431768211456",
    ] {
        all.push(number.to_string());
    }
    all
}

/// Whether `suffix` writes a number from 10 up: an optional plus sign, then
/// digits alone, of which two or more are left without the leading zeros.
fn writes_ten_or_more(suffix: &str) -> bool {
    let digits = suffix.strip_prefix('+').unwrap_or(suffix);
    let is_number = !digits.is_empty() && digits.bytes().all(|byte| byte.is_ascii_digit());
    is_number && digits.trim_start_matches('0').len() >= 2
}

#[test]
fn a_port_number_from_ten_up_takes_the_long_form() {
    for suffix in suffixes() {
        let name = format!("COM{}", suffix);
        let long_form = writes_ten_or_more(&suffix);
        let expected = if long_form { format!("\\\\.\\{}", name) } else { name.clone() };
        assert_eq!(normalize_port_path(&name, true), expected, "{:?}", name);
        assert_eq!(normalize_port_path(&name, false), name, "{:?}", name);
    }
}

#[test]
fn a_port_number_that_parse_reads_is_read_alike() {
    let mut read = 0;
    for suffix in suffixes() {
        if let Ok(number) = suffix.parse::<u64>() {
            let name = format!("COM{}", suffix);
            let long_form = normalize_port_path(&name, true) != name;
            assert_eq!(long_form, number >= 10, "{:?}", name);
            read += 1;
        }
    }
    assert!(read > 100);
}

#[test]
fn counts_are_written_as_format_writes_them() {
    let mut count: usize = 0;
    for _ in 0..200 {
        assert_eq!(sent_message(count), format!("Sent {} bytes", count));
        count = count.wrapping_mul(7).wrapping_add(3);
    }
    for power in 0..19u32 {
        let count = 10usize.pow(power);
        assert_eq!(sent_message(count), format!("Sent {} bytes", count));
        assert_eq!(sent_message(count - 1), format!("Sent {} bytes", count - 1));
    }
}
