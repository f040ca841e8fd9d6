//! The registry of open hardware ports. It owns the handle of every port
//! that is open, under the port's name, and holds no two under one name.
//!
//! The registry never talks to a device. Its user opens, writes and reads
//! with the handle, and tells the registry how that went: the registry
//! keeps the books and says what the operation returns.

use vstd::prelude::*;
use crate::error::{PortError, PortErrorView, TransportStage};
use crate::hex::HexError;
use crate::text::str_equals;
use crate::payload::{encode_payload, payload_bytes};

verus! {

/// How many bytes one read takes at most.
pub const READ_CAPACITY: usize = 1024;

/// The open ports of the operating system, each with its handle of type
/// `H`. As a map from names to handles it is `self@`.
pub struct PortRegistry<H> {
    names: Vec<String>,
    handles: Vec<H>,
}

/// What came of one read on a handle.
#[derive(Debug)]
pub enum ReadEvent {
    /// The handle did not take the timeout; nothing was read.
    TimeoutRefused { detail: String },
    /// The first `count` bytes of the scratch buffer were filled.
    Received { count: usize },
    /// Nothing arrived in time.
    TimedOut,
    /// The read failed for another reason.
    Failed { detail: String },
}

spec fn names_distinct(names: Seq<String>) -> bool {
    forall|i: int, j: int|
        0 <= i < j < names.len() ==> (#[trigger] names[i])@ != (#[trigger] names[j])@
}

spec fn holds(names: Seq<String>, name: Seq<char>) -> bool {
    exists|i: int| 0 <= i < names.len() && (#[trigger] names[i])@ == name
}

spec fn position(names: Seq<String>, name: Seq<char>) -> int {
    choose|i: int| 0 <= i < names.len() && (#[trigger] names[i])@ == name
}

spec fn table<H>(names: Seq<String>, handles: Seq<H>) -> Map<Seq<char>, H> {
    Map::new(
        |name: Seq<char>| holds(names, name),
        |name: Seq<char>| handles[position(names, name)],
    )
}

proof fn lemma_append<H>(names: Seq<String>, handles: Seq<H>, name: String, handle: H)
    requires
        names.len() == handles.len(),
        names_distinct(names),
        !holds(names, name@),
    ensures
        names_distinct(names.push(name)),
        table(names.push(name), handles.push(handle)) == table(names, handles).insert(
            name@,
            handle,
        ),
{
    let longer = names.push(name);
    assert(longer[names.len() as int]@ == name@);
    assert forall|other: Seq<char>| holds(longer, other) <==> (other == name@ || holds(
        names,
        other,
    )) by {
        if holds(names, other) {
            let i = choose|i: int| 0 <= i < names.len() && (#[trigger] names[i])@ == other;
            assert(longer[i]@ == other);
        }
    }
}

proof fn lemma_remove<H>(names: Seq<String>, handles: Seq<H>, at: int)
    requires
        names.len() == handles.len(),
        names_distinct(names),
        0 <= at < names.len(),
    ensures
        names_distinct(names.remove(at)),
        table(names.remove(at), handles.remove(at)) == table(names, handles).remove(names[at]@),
{
    let shorter = names.remove(at);
    let gone = names[at]@;
    assert forall|other: Seq<char>| holds(shorter, other) <==> (other != gone && holds(
        names,
        other,
    )) by {
        if other != gone && holds(names, other) {
            let i = choose|i: int| 0 <= i < names.len() && (#[trigger] names[i])@ == other;
            let after = if i < at { i } else { i - 1 };
            assert(shorter[after]@ == other);
        }
    }
}

impl<H> View for PortRegistry<H> {
    type V = Map<Seq<char>, H>;

    closed spec fn view(&self) -> Map<Seq<char>, H> {
        table(self.names@, self.handles@)
    }
}

impl<H> PortRegistry<H> {
    #[verifier::type_invariant]
    spec fn well_formed(self) -> bool {
        &&& self.names@.len() == self.handles@.len()
        &&& names_distinct(self.names@)
    }

    /// A registry with no port open.
    pub fn new() -> (registry: Self)
        ensures
            registry@ == Map::<Seq<char>, H>::empty(),
    {
        PortRegistry { names: Vec::new(), handles: Vec::new() }
    }

    /// Takes the names and the handles out and leaves the registry empty.
    fn take_all(&mut self) -> (all: (Vec<String>, Vec<H>))
        ensures
            all.0@ == old(self).names@,
            all.1@ == old(self).handles@,
            all.0@.len() == all.1@.len(),
            names_distinct(all.0@),
    {
        proof {
            use_type_invariant(&*self);
        }
        let mut taken = PortRegistry { names: Vec::new(), handles: Vec::new() };
        core::mem::swap(self, &mut taken);
        (taken.names, taken.handles)
    }

    fn find(&self, port_name: &str) -> (found: Option<usize>)
        ensures
            match found {
                Some(at) => at < self.names@.len() && self.names@[at as int]@ == port_name@,
                None => !holds(self.names@, port_name@),
            },
    {
        let mut at: usize = 0;
        while at < self.names.len()
            invariant
                at <= self.names@.len(),
                forall|i: int| 0 <= i < at ==> (#[trigger] self.names@[i])@ != port_name@,
            decreases self.names@.len() - at,
        {
            if str_equals(self.names[at].as_str(), port_name) {
                return Some(at);
            }
            at = at + 1;
        }
        None
    }

    /// Whether `port_name` is open.
    pub fn is_open(&self, port_name: &str) -> (open: bool)
        ensures
            open == self@.contains_key(port_name@),
    {
        self.find(port_name).is_some()
    }

    /// Books what came of opening `port_name`. A handle is kept under the
    /// name, in place of the one that was there, if any; a refusal leaves
    /// the registry as it was and is handed on.
    pub fn open_serial_port(&mut self, port_name: &str, opened: Result<H, String>) -> (booked:
        Result<(), PortError>)
        ensures
            match opened {
                Ok(handle) => booked is Ok && final(self)@ == old(self)@.insert(
                    port_name@,
                    handle,
                ),
                Err(detail) => {
                    &&& final(self)@ == old(self)@
                    &&& booked matches Err(error)
                    &&& error@ == (PortErrorView::TransportFailure {
                        stage: TransportStage::Open,
                        detail: detail@,
                    })
                },
            },
    {
        proof {
            use_type_invariant(&*self);
        }
        let handle = match opened {
            Ok(handle) => handle,
            Err(detail) => {
                return Err(PortError::TransportFailure { stage: TransportStage::Open, detail });
            },
        };
        match self.find(port_name) {
            Some(at) => {
                self.handles[at] = handle;
            },
            None => {
                let name = String::from_str(port_name);
                let (mut names, mut handles) = self.take_all();
                proof {
                    lemma_append(names@, handles@, name, handle);
                }
                names.push(name);
                handles.push(handle);
                *self = PortRegistry { names, handles };
            },
        }
        Ok(())
    }

    /// Closes `port_name`: its handle leaves the registry and is dropped.
    pub fn close_serial_port(&mut self, port_name: &str) -> (closed: Result<(), PortError>)
        ensures
            final(self)@ == old(self)@.remove(port_name@),
            match closed {
                Ok(_) => old(self)@.contains_key(port_name@),
                Err(error) => !old(self)@.contains_key(port_name@) && error@ == (
                PortErrorView::NotFound { port_name: port_name@ }),
            },
    {
        proof {
            use_type_invariant(&*self);
        }
        match self.find(port_name) {
            Some(at) => {
                let (mut names, mut handles) = self.take_all();
                proof {
                    lemma_remove(names@, handles@, at as int);
                }
                names.remove(at);
                handles.remove(at);
                *self = PortRegistry { names, handles };
                Ok(())
            },
            None => Err(PortError::NotFound { port_name: String::from_str(port_name) }),
        }
    }

    /// The handle of `port_name`, to write or read with. What the caller
    /// leaves in it is what the registry holds afterwards.
    pub fn handle_mut(&mut self, port_name: &str) -> (handle: Result<&mut H, PortError>)
        ensures
            match handle {
                Ok(port) => old(self)@.contains_key(port_name@) && *port == old(self)@[port_name@]
                    && final(self)@ == old(self)@.insert(port_name@, *final(port)),
                Err(error) => !old(self)@.contains_key(port_name@) && final(self)@ == old(self)@
                    && error@ == (PortErrorView::NotFound { port_name: port_name@ }),
            },
    {
        proof {
            use_type_invariant(&*self);
        }
        match self.find(port_name) {
            Some(at) => Ok(&mut self.handles[at]),
            None => Err(PortError::NotFound { port_name: String::from_str(port_name) }),
        }
    }

    /// The first half of a write: decodes the payload, then looks the port
    /// up, and hands out the handle with the bytes to send through it.
    pub fn begin_write(&mut self, port_name: &str, data: &str, is_hex: bool) -> (begun: Result<
        (&mut H, Vec<u8>),
        PortError,
    >)
        ensures
            match begun {
                Ok((port, payload)) => payload_bytes(data@, is_hex) == Ok::<Seq<u8>, HexError>(
                    payload@,
                ) && old(self)@.contains_key(port_name@) && *port == old(self)@[port_name@]
                    && final(self)@ == old(self)@.insert(port_name@, *final(port)),
                Err(error) => final(self)@ == old(self)@ && match payload_bytes(data@, is_hex) {
                    Err(reason) => error@ == (PortErrorView::InvalidInput { reason }),
                    Ok(_) => !old(self)@.contains_key(port_name@) && error@ == (
                    PortErrorView::NotFound { port_name: port_name@ }),
                },
            },
    {
        let payload = match encode_payload(data, is_hex) {
            Ok(bytes) => bytes,
            Err(reason) => {
                return Err(PortError::InvalidInput { reason });
            },
        };
        match self.handle_mut(port_name) {
            Ok(port) => Ok((port, payload)),
            Err(error) => Err(error),
        }
    }

    /// The first half of a read: looks the port up and hands out the
    /// handle with the buffer to read into, `READ_CAPACITY` zero bytes.
    pub fn begin_read(&mut self, port_name: &str) -> (begun: Result<(&mut H, Vec<u8>), PortError>)
        ensures
            match begun {
                Ok((port, scratch)) => scratch@ == Seq::new(READ_CAPACITY as nat, |i: int| 0u8)
                    && old(self)@.contains_key(port_name@) && *port == old(self)@[port_name@]
                    && final(self)@ == old(self)@.insert(port_name@, *final(port)),
                Err(error) => !old(self)@.contains_key(port_name@) && final(self)@ == old(self)@
                    && error@ == (PortErrorView::NotFound { port_name: port_name@ }),
            },
    {
        match self.handle_mut(port_name) {
            Ok(port) => Ok((port, read_scratch())),
            Err(error) => Err(error),
        }
    }
}

/// The second half of a write of `count` bytes: the count where the
/// device took them all, or the device's refusal.
pub fn finish_write(count: usize, sent: Result<(), String>) -> (accepted: Result<usize, PortError>)
    ensures
        match sent {
            Ok(_) => accepted matches Ok(n) && n == count,
            Err(detail) => {
                &&& accepted matches Err(error)
                &&& error@ == (PortErrorView::TransportFailure {
                    stage: TransportStage::Write,
                    detail: detail@,
                })
            },
        },
{
    match sent {
        Ok(_) => Ok(count),
        Err(detail) => Err(PortError::TransportFailure { stage: TransportStage::Write, detail }),
    }
}

/// The buffer that a read fills: `READ_CAPACITY` zero bytes.
fn read_scratch() -> (scratch: Vec<u8>)
    ensures
        scratch@ == Seq::new(READ_CAPACITY as nat, |i: int| 0u8),
{
    vec![0u8; READ_CAPACITY]
}

/// What a read returns, as a function of what came of it.
pub open spec fn read_result(scratch: Seq<u8>, event: ReadEvent) -> Result<Seq<u8>, PortErrorView> {
    match event {
        ReadEvent::TimeoutRefused { detail } => Err(
            PortErrorView::TransportFailure { stage: TransportStage::SetTimeout, detail: detail@ },
        ),
        ReadEvent::Received { count } => Ok(
            if count <= scratch.len() {
                scratch.take(count as int)
            } else {
                scratch
            },
        ),
        ReadEvent::TimedOut => Ok(Seq::empty()),
        ReadEvent::Failed { detail } => Err(
            PortErrorView::TransportFailure { stage: TransportStage::Read, detail: detail@ },
        ),
    }
}

/// The second half of a read. Bytes that arrived are returned, as many as
/// were received. That nothing arrived in time is no error: the result is
/// empty. Any other failure is handed on.
pub fn finish_read(scratch: Vec<u8>, event: ReadEvent) -> (received: Result<Vec<u8>, PortError>)
    ensures
        match received {
            Ok(bytes) => read_result(scratch@, event) == Ok::<Seq<u8>, PortErrorView>(bytes@),
            Err(error) => read_result(scratch@, event) == Err::<Seq<u8>, PortErrorView>(error@),
        },
        event is TimedOut ==> (received matches Ok(bytes) && bytes@.len() == 0),
{
    match event {
        ReadEvent::TimeoutRefused { detail } => Err(
            PortError::TransportFailure { stage: TransportStage::SetTimeout, detail },
        ),
        ReadEvent::Received { count } => {
            let mut bytes = scratch;
            bytes.truncate(count);
            Ok(bytes)
        },
        ReadEvent::TimedOut => Ok(Vec::new()),
        ReadEvent::Failed { detail } => Err(
            PortError::TransportFailure { stage: TransportStage::Read, detail },
        ),
    }
}

} // verus!
