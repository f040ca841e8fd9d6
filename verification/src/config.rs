//! Port configuration. What a user asks for is taken as it comes: a value
//! that names no setting is replaced by the usual one, never refused.

use vstd::prelude::*;
use crate::path::{device_path, normalize_port_path};
use crate::text::str_equals;

verus! {

/// The timeout, in milliseconds, that a port is opened with.
pub const OPEN_TIMEOUT_MS: u64 = 100;

#[derive(Clone, Copy, Debug, PartialEq, Eq, Structural)]
pub enum DataBits {
    Five,
    Six,
    Seven,
    Eight,
}

#[derive(Clone, Copy, Debug, PartialEq, Eq, Structural)]
pub enum StopBits {
    One,
    Two,
}

#[derive(Clone, Copy, Debug, PartialEq, Eq, Structural)]
pub enum Parity {
    NoParity,
    Odd,
    Even,
}

/// A configuration as the user sends it.
#[derive(Clone, Debug)]
pub struct SerialConfig {
    pub port_name: String,
    pub baud_rate: u32,
    pub data_bits: u8,
    pub stop_bits: u8,
    pub parity: String,
}

/// The settings that a port is opened with.
#[derive(Clone, Copy, Debug, PartialEq, Eq, Structural)]
pub struct PortSettings {
    pub baud_rate: u32,
    pub data_bits: DataBits,
    pub stop_bits: StopBits,
    pub parity: Parity,
}

/// All that the operating system is asked when a port is opened.
#[derive(Debug)]
pub struct OpenRequest {
    /// The path of the device.
    pub path: String,
    pub settings: PortSettings,
    /// The read timeout that the port starts with.
    pub timeout_ms: u64,
}

/// The data bits that `count` asks for: 5 to 8 as they are, eight for
/// any other number.
pub open spec fn data_bits_of(count: u8) -> DataBits {
    if count == 5 {
        DataBits::Five
    } else if count == 6 {
        DataBits::Six
    } else if count == 7 {
        DataBits::Seven
    } else {
        DataBits::Eight
    }
}

/// The stop bits that `count` asks for: two for 2, one for any other
/// number.
pub open spec fn stop_bits_of(count: u8) -> StopBits {
    if count == 2 {
        StopBits::Two
    } else {
        StopBits::One
    }
}

/// The parity that `word` asks for: `Odd` and `Even` as they are written
/// here, none for any other word.
pub open spec fn parity_of(word: Seq<char>) -> Parity {
    if word == "Odd"@ {
        Parity::Odd
    } else if word == "Even"@ {
        Parity::Even
    } else {
        Parity::NoParity
    }
}

impl SerialConfig {
    /// The settings that this configuration asks for.
    pub open spec fn spec_settings(&self) -> PortSettings {
        PortSettings {
            baud_rate: self.baud_rate,
            data_bits: data_bits_of(self.data_bits),
            stop_bits: stop_bits_of(self.stop_bits),
            parity: parity_of(self.parity@),
        }
    }

    /// The settings that this configuration asks for, each unknown value
    /// replaced by the usual one.
    pub fn settings(&self) -> (settings: PortSettings)
        ensures
            settings == self.spec_settings(),
    {
        let data_bits = if self.data_bits == 5 {
            DataBits::Five
        } else if self.data_bits == 6 {
            DataBits::Six
        } else if self.data_bits == 7 {
            DataBits::Seven
        } else {
            DataBits::Eight
        };
        let stop_bits = if self.stop_bits == 2 {
            StopBits::Two
        } else {
            StopBits::One
        };
        let parity = if str_equals(self.parity.as_str(), "Odd") {
            Parity::Odd
        } else if str_equals(self.parity.as_str(), "Even") {
            Parity::Even
        } else {
            Parity::NoParity
        };
        PortSettings { baud_rate: self.baud_rate, data_bits, stop_bits, parity }
    }

    /// What to ask of the operating system to open the port of this
    /// configuration, on Windows or elsewhere.
    pub fn open_request(&self, windows: bool) -> (request: OpenRequest)
        ensures
            request.path@ == device_path(self.port_name@, windows),
            request.settings == self.spec_settings(),
            request.timeout_ms == OPEN_TIMEOUT_MS,
    {
        OpenRequest {
            path: normalize_port_path(self.port_name.as_str(), windows),
            settings: self.settings(),
            timeout_ms: OPEN_TIMEOUT_MS,
        }
    }
}

/// A value that names no setting gives the usual one: eight data bits, one
/// stop bit, no parity.
pub proof fn lemma_unknown_values_fall_back(config: SerialConfig)
    ensures
        !(5 <= config.data_bits <= 8) ==> config.spec_settings().data_bits == DataBits::Eight,
        !(1 <= config.stop_bits <= 2) ==> config.spec_settings().stop_bits == StopBits::One,
        config.parity@ != "None"@ && config.parity@ != "Odd"@ && config.parity@ != "Even"@
            ==> config.spec_settings().parity == Parity::NoParity,
        config.spec_settings().baud_rate == config.baud_rate,
{
}

} // verus!
