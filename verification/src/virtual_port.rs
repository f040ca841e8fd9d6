//! The simulator: three virtual ports that need no hardware. Each open
//! virtual port has a buffer of bytes that wait to be read. A write puts at
//! its end what the device answers; a read takes all of it.

use vstd::hash_map::StringHashMap;
use vstd::prelude::*;
use vstd::utf8::{encode_utf8, is_ascii_chars_encode_utf8};
use crate::clock::unix_time_millis;
use crate::error::{PortError, PortErrorView};
use crate::hex::HexError;
use crate::payload::{encode_payload, payload_bytes};
use crate::names::{
    device_of, echo_port_name, lemma_fixed_names, random_port_name, reply_port_name, virtual_device,
    VirtualDevice,
};
use crate::text::{
    all_decimal_digits, decimal_digits, decimal_value, lemma_decimal_digits_read_back, push_decimal,
};

verus! {

/// The open virtual ports, each with the bytes that wait in its buffer.
pub type Buffers = Map<Seq<char>, Seq<u8>>;

/// The number that the random device answers with at `now_millis`
/// milliseconds after the Unix epoch.
pub open spec fn random_number(now_millis: nat) -> nat {
    now_millis % 10000
}

/// What the device behind `port_name` puts into its buffer when `payload`,
/// written by the user as `data`, arrives at `now_millis`.
pub open spec fn device_answer(
    port_name: Seq<char>,
    payload: Seq<u8>,
    data: Seq<char>,
    now_millis: nat,
) -> Seq<u8> {
    match device_of(port_name) {
        Some(VirtualDevice::Echo) => payload,
        Some(VirtualDevice::Reply) => encode_utf8("Received: "@ + data),
        Some(VirtualDevice::Random) => encode_utf8(
            "Random-"@ + decimal_digits(random_number(now_millis)),
        ),
        None => Seq::empty(),
    }
}

/// The ports after `port_name` was opened: its buffer is there and empty,
/// whatever it held before.
pub open spec fn after_open(ports: Buffers, port_name: Seq<char>) -> Buffers {
    ports.insert(port_name, Seq::empty())
}

/// The ports after `port_name` was closed.
pub open spec fn after_close(ports: Buffers, port_name: Seq<char>) -> Buffers {
    ports.remove(port_name)
}

/// What a write returns: the number of bytes in the payload, not the number
/// put into the buffer. The payload is decoded before the port is looked up.
pub open spec fn write_outcome(
    ports: Buffers,
    port_name: Seq<char>,
    data: Seq<char>,
    is_hex: bool,
) -> Result<nat, PortErrorView> {
    match payload_bytes(data, is_hex) {
        Err(reason) => Err(PortErrorView::InvalidInput { reason }),
        Ok(payload) => if ports.contains_key(port_name) {
            Ok(payload.len())
        } else {
            Err(PortErrorView::NotFound { port_name })
        },
    }
}

/// The ports after a write at `now_millis`. A write that fails changes
/// nothing.
pub open spec fn after_write(
    ports: Buffers,
    port_name: Seq<char>,
    data: Seq<char>,
    is_hex: bool,
    now_millis: nat,
) -> Buffers {
    match payload_bytes(data, is_hex) {
        Ok(payload) if ports.contains_key(port_name) => ports.insert(
            port_name,
            ports[port_name] + device_answer(port_name, payload, data, now_millis),
        ),
        _ => ports,
    }
}

/// What a read returns: all that waits in the buffer.
pub open spec fn read_outcome(ports: Buffers, port_name: Seq<char>) -> Result<
    Seq<u8>,
    PortErrorView,
> {
    if ports.contains_key(port_name) {
        Ok(ports[port_name])
    } else {
        Err(PortErrorView::NotFound { port_name })
    }
}

/// The ports after a read: the buffer that was read is empty.
pub open spec fn after_read(ports: Buffers, port_name: Seq<char>) -> Buffers {
    if ports.contains_key(port_name) {
        ports.insert(port_name, Seq::empty())
    } else {
        ports
    }
}

/// The simulator's state.
pub struct VirtualPorts {
    buffers: StringHashMap<Vec<u8>>,
}

impl View for VirtualPorts {
    type V = Buffers;

    closed spec fn view(&self) -> Buffers {
        self.buffers@.map_values(|bytes: Vec<u8>| bytes@)
    }
}

impl VirtualPorts {
    /// A simulator with no port open.
    pub fn new() -> (ports: Self)
        ensures
            ports@ == Map::<Seq<char>, Seq<u8>>::empty(),
    {
        VirtualPorts { buffers: StringHashMap::new() }
    }

    /// Whether `port_name` is open.
    pub fn is_open(&self, port_name: &str) -> (open: bool)
        ensures
            open == self@.contains_key(port_name@),
    {
        self.buffers.contains_key(port_name)
    }

    /// Opens `port_name` with an empty buffer. No name is refused, and a
    /// port that is open already starts over.
    pub fn open_serial_port(&mut self, port_name: &str)
        ensures
            final(self)@ == after_open(old(self)@, port_name@),
    {
        self.buffers.insert(String::from_str(port_name), Vec::new());
    }

    /// Closes `port_name` and drops what waited in its buffer. Closing a
    /// port that is not open is no error.
    pub fn close_serial_port(&mut self, port_name: &str)
        ensures
            final(self)@ == after_close(old(self)@, port_name@),
    {
        self.buffers.remove(port_name);
    }

    /// Writes `data` to `port_name` as if the clock stood at `now_millis`.
    pub fn write_serial_data_at(
        &mut self,
        port_name: &str,
        data: &str,
        is_hex: bool,
        now_millis: u128,
    ) -> (accepted: Result<usize, PortError>)
        ensures
            final(self)@ == after_write(old(self)@, port_name@, data@, is_hex, now_millis as nat),
            match accepted {
                Ok(count) => write_outcome(old(self)@, port_name@, data@, is_hex) == Ok::<
                    nat,
                    PortErrorView,
                >(count as nat),
                Err(error) => write_outcome(old(self)@, port_name@, data@, is_hex) == Err::<
                    nat,
                    PortErrorView,
                >(error@),
            },
    {
        let payload = match encode_payload(data, is_hex) {
            Ok(bytes) => bytes,
            Err(reason) => {
                return Err(PortError::InvalidInput { reason });
            },
        };
        let mut buffer = match self.buffers.get(port_name) {
            Some(waiting) => waiting.clone(),
            None => {
                return Err(PortError::NotFound { port_name: String::from_str(port_name) });
            },
        };
        let ghost before = buffer@;
        match virtual_device(port_name) {
            Some(VirtualDevice::Echo) => {
                buffer.extend_from_slice(payload.as_slice());
            },
            Some(VirtualDevice::Reply) => {
                let answer = String::from_str("Received: ").concat(data);
                buffer.extend_from_slice(answer.as_str().as_bytes());
            },
            Some(VirtualDevice::Random) => {
                let mut answer = String::from_str("Random-");
                push_decimal(&mut answer, (now_millis % 10000) as u64);
                buffer.extend_from_slice(answer.as_str().as_bytes());
            },
            None => {},
        }
        proof {
            assert(buffer@ =~= before + device_answer(
                port_name@,
                payload@,
                data@,
                now_millis as nat,
            ));
        }
        self.buffers.insert(String::from_str(port_name), buffer);
        Ok(payload.len())
    }

    /// Writes `data` to `port_name`. The random device takes its number
    /// from the system clock, so of the buffer only this is known: it holds
    /// what a write at some moment leaves.
    pub fn write_serial_data(&mut self, port_name: &str, data: &str, is_hex: bool) -> (accepted:
        Result<usize, PortError>)
        ensures
            exists|now_millis: nat|
                final(self)@ == #[trigger] after_write(
                    old(self)@,
                    port_name@,
                    data@,
                    is_hex,
                    now_millis,
                ),
            match accepted {
                Ok(count) => write_outcome(old(self)@, port_name@, data@, is_hex) == Ok::<
                    nat,
                    PortErrorView,
                >(count as nat),
                Err(error) => write_outcome(old(self)@, port_name@, data@, is_hex) == Err::<
                    nat,
                    PortErrorView,
                >(error@),
            },
    {
        let now_millis = match virtual_device(port_name) {
            Some(VirtualDevice::Random) => unix_time_millis(),
            _ => 0,
        };
        self.write_serial_data_at(port_name, data, is_hex, now_millis)
    }

    /// Takes all that waits in the buffer of `port_name`.
    pub fn read_serial_data(&mut self, port_name: &str) -> (received: Result<Vec<u8>, PortError>)
        ensures
            final(self)@ == after_read(old(self)@, port_name@),
            match received {
                Ok(bytes) => read_outcome(old(self)@, port_name@) == Ok::<Seq<u8>, PortErrorView>(
                    bytes@,
                ),
                Err(error) => read_outcome(old(self)@, port_name@) == Err::<
                    Seq<u8>,
                    PortErrorView,
                >(error@),
            },
    {
        let bytes = match self.buffers.get(port_name) {
            Some(waiting) => waiting.clone(),
            None => {
                return Err(PortError::NotFound { port_name: String::from_str(port_name) });
            },
        };
        self.buffers.insert(String::from_str(port_name), Vec::new());
        Ok(bytes)
    }
}

/// A port that was just opened has nothing to read: the read succeeds,
/// returns no byte, and changes nothing.
pub proof fn lemma_read_after_open_is_empty(ports: Buffers, port_name: Seq<char>)
    ensures
        read_outcome(after_open(ports, port_name), port_name) == Ok::<Seq<u8>, PortErrorView>(
            Seq::empty(),
        ),
        after_read(after_open(ports, port_name), port_name) == after_open(ports, port_name),
{
}

/// After a read the buffer is empty: a second read returns no byte.
pub proof fn lemma_second_read_is_empty(ports: Buffers, port_name: Seq<char>)
    requires
        ports.contains_key(port_name),
    ensures
        read_outcome(after_read(ports, port_name), port_name) == Ok::<Seq<u8>, PortErrorView>(
            Seq::empty(),
        ),
{
}

/// The echo port hands back what was written. After a write, a read
/// returns what waited before, then the payload's bytes; with nothing
/// waiting, exactly those bytes. The read after that returns no byte.
pub proof fn lemma_echo_hands_back(
    ports: Buffers,
    data: Seq<char>,
    is_hex: bool,
    now_millis: nat,
    payload: Seq<u8>,
)
    requires
        ports.contains_key(echo_port_name()),
        payload_bytes(data, is_hex) == Ok::<Seq<u8>, HexError>(payload),
    ensures
        ({
            let written = after_write(ports, echo_port_name(), data, is_hex, now_millis);
            &&& read_outcome(written, echo_port_name()) == Ok::<Seq<u8>, PortErrorView>(
                ports[echo_port_name()] + payload,
            )
            &&& ports[echo_port_name()].len() == 0 ==> read_outcome(written, echo_port_name())
                == Ok::<Seq<u8>, PortErrorView>(payload)
            &&& read_outcome(after_read(written, echo_port_name()), echo_port_name()) == Ok::<
                Seq<u8>,
                PortErrorView,
            >(Seq::empty())
        }),
{
    lemma_fixed_names();
}

/// The reply port acknowledges the text as the user wrote it, whatever
/// bytes it stood for: after a write, a read returns what waited before,
/// then `Received: ` and the text.
pub proof fn lemma_reply_acknowledges(
    ports: Buffers,
    data: Seq<char>,
    is_hex: bool,
    now_millis: nat,
)
    requires
        ports.contains_key(reply_port_name()),
        payload_bytes(data, is_hex) is Ok,
    ensures
        ({
            let written = after_write(ports, reply_port_name(), data, is_hex, now_millis);
            let answer = encode_utf8("Received: "@ + data);
            &&& read_outcome(written, reply_port_name()) == Ok::<Seq<u8>, PortErrorView>(
                ports[reply_port_name()] + answer,
            )
            &&& ports[reply_port_name()].len() == 0 ==> read_outcome(written, reply_port_name())
                == Ok::<Seq<u8>, PortErrorView>(answer)
        }),
{
    lemma_fixed_names();
}

/// The random port answers every write, whatever was written and
/// whenever, with the ASCII text `Random-` and a number from 0 to 9999 in
/// decimal. Two answers need not differ.
pub proof fn lemma_random_answer_shape(payload: Seq<u8>, data: Seq<char>, now_millis: nat)
    ensures
        ({
            let answer = device_answer(random_port_name(), payload, data, now_millis);
            let digits = decimal_digits(random_number(now_millis));
            let text = "Random-"@ + digits;
            &&& random_number(now_millis) < 10000
            &&& all_decimal_digits(digits)
            &&& 1 <= digits.len() <= 4
            &&& decimal_value(digits) == random_number(now_millis)
            &&& answer.len() == text.len()
            &&& forall|i: int| 0 <= i < text.len() ==> answer[i] == text[i] as u8
        }),
{
    lemma_fixed_names();
    reveal_strlit("Random-");
    lemma_decimal_digits_read_back(random_number(now_millis));
    is_ascii_chars_encode_utf8("Random-"@ + decimal_digits(random_number(now_millis)));
}

/// The moment of a write matters to the random port alone.
pub proof fn lemma_clock_matters_to_random_alone(
    ports: Buffers,
    port_name: Seq<char>,
    data: Seq<char>,
    is_hex: bool,
    now_millis: nat,
    later_millis: nat,
)
    requires
        device_of(port_name) != Some(VirtualDevice::Random),
    ensures
        after_write(ports, port_name, data, is_hex, now_millis) == after_write(
            ports,
            port_name,
            data,
            is_hex,
            later_millis,
        ),
{
}

/// Closing a virtual port that is not open changes nothing.
pub proof fn lemma_close_unopened_changes_nothing(ports: Buffers, port_name: Seq<char>)
    requires
        !ports.contains_key(port_name),
    ensures
        after_close(ports, port_name) == ports,
{
}

/// A write to a virtual port that is not open fails with `NotFound` and
/// changes nothing, if the payload can be decoded at all. A payload that
/// cannot is rejected before the port is looked up.
pub proof fn lemma_write_unopened_is_not_found(
    ports: Buffers,
    port_name: Seq<char>,
    data: Seq<char>,
    is_hex: bool,
    now_millis: nat,
)
    requires
        !ports.contains_key(port_name),
    ensures
        after_write(ports, port_name, data, is_hex, now_millis) == ports,
        payload_bytes(data, is_hex) is Ok ==> write_outcome(ports, port_name, data, is_hex)
            == Err::<nat, PortErrorView>(PortErrorView::NotFound { port_name }),
        payload_bytes(data, is_hex) matches Err(reason) ==> write_outcome(
            ports,
            port_name,
            data,
            is_hex,
        ) == Err::<nat, PortErrorView>(PortErrorView::InvalidInput { reason }),
        !is_hex ==> payload_bytes(data, is_hex) is Ok,
{
}

} // verus!
