//! Decisions of the transport: which port to take, how long to keep
//! reading, and what a collected response amounts to.
//!
//! Nothing here touches a serial handle. The caller enumerates, opens, writes
//! and reads; it reports what happened as plain values and is told what to do
//! next.

use vstd::prelude::*;
use vstd::string::StringExecFns;
use vstd::utf8::encode_utf8;
use crate::protocol::{parse_outcome, parse_response, ParseError, Status, SOF};

verus! {

/// Line speed of the link, in bits per second.
pub const BAUD_RATE: u32 = 115200;

/// How long one exchange may wait for its response, in milliseconds.
pub const READ_TIMEOUT_MS: u64 = 1000;

/// Why no connection could be established.
#[derive(Debug, PartialEq, Eq)]
pub enum ConnectError {
    /// No port looks like the wallet.
    DiscoveryFailed,
    /// The connection lock is poisoned.
    LockError,
    /// The platform refused to open the port; the text is the platform's.
    PortOpenError(String),
}

/// Why an exchange produced no payload.
#[derive(Debug, PartialEq, Eq)]
pub enum ExchangeError {
    /// The connection lock is poisoned.
    LockError,
    /// No handle is held.
    NotConnected,
    /// The request could not be written in full; the text is the platform's.
    WriteError(String),
    /// Reading failed; the text is the platform's.
    ReadError(String),
    /// Not a single byte arrived.
    NoResponse,
    /// What arrived is not a well-formed frame.
    ProtocolError(ParseError),
    /// The device answered with a status other than `Success`.
    DeviceError(Status),
}

impl ConnectError {
    /// The message that describes this error to the user.
    pub open spec fn message_text(&self) -> Seq<char> {
        match self {
            ConnectError::DiscoveryFailed => "Device not found"@,
            ConnectError::LockError => "Lock error"@,
            ConnectError::PortOpenError(text) => "Failed to open port: "@ + text@,
        }
    }

    /// Returns the message that describes this error to the user.
    pub fn message(&self) -> (message: String)
        ensures
            message@ == self.message_text(),
    {
        match self {
            ConnectError::DiscoveryFailed => String::from_str("Device not found"),
            ConnectError::LockError => String::from_str("Lock error"),
            ConnectError::PortOpenError(text) => String::from_str("Failed to open port: ").concat(
                text.as_str(),
            ),
        }
    }
}

impl ExchangeError {
    /// The message that describes this error to the user.
    pub open spec fn message_text(&self) -> Seq<char> {
        match self {
            ExchangeError::LockError => "Lock error"@,
            ExchangeError::NotConnected => "Not connected"@,
            ExchangeError::WriteError(text) => "Write error: "@ + text@,
            ExchangeError::ReadError(text) => "Read error: "@ + text@,
            ExchangeError::NoResponse => "No response"@,
            ExchangeError::ProtocolError(e) => e.message_text(),
            ExchangeError::DeviceError(status) => "Device returned status: "@
                + status.name_text(),
        }
    }

    /// Returns the message that describes this error to the user.
    pub fn message(&self) -> (message: String)
        ensures
            message@ == self.message_text(),
    {
        match self {
            ExchangeError::LockError => String::from_str("Lock error"),
            ExchangeError::NotConnected => String::from_str("Not connected"),
            ExchangeError::WriteError(text) => String::from_str("Write error: ").concat(
                text.as_str(),
            ),
            ExchangeError::ReadError(text) => String::from_str("Read error: ").concat(
                text.as_str(),
            ),
            ExchangeError::NoResponse => String::from_str("No response"),
            ExchangeError::ProtocolError(e) => String::from_str(e.message()),
            ExchangeError::DeviceError(status) => String::from_str(
                "Device returned status: ",
            ).concat(status.name()),
        }
    }
}

/// `res` is the outcome `model`, payloads compared by their contents.
pub open spec fn reply_is(
    res: Result<Vec<u8>, ExchangeError>,
    model: Result<Seq<u8>, ExchangeError>,
) -> bool {
    match (res, model) {
        (Ok(payload), Ok(p)) => payload@ == p,
        (Err(e), Err(f)) => e == f,
        _ => false,
    }
}

/// What the bytes collected for one exchange amount to: nothing at all is
/// `NoResponse`; a malformed frame is a `ProtocolError`; a frame with a
/// status other than `Success` is a `DeviceError` carrying it; otherwise the
/// payload.
pub open spec fn response_outcome(received: Seq<u8>) -> Result<Seq<u8>, ExchangeError> {
    if received.len() == 0 {
        Err(ExchangeError::NoResponse)
    } else {
        match parse_outcome(received) {
            Err(e) => Err(ExchangeError::ProtocolError(e)),
            Ok((status, payload)) => if status == Status::Success {
                Ok(payload)
            } else {
                Err(ExchangeError::DeviceError(status))
            },
        }
    }
}

/// Judges the bytes collected for one exchange.
pub fn interpret_response(received: &[u8]) -> (res: Result<Vec<u8>, ExchangeError>)
    ensures
        reply_is(res, response_outcome(received@)),
{
    if received.len() == 0 {
        return Err(ExchangeError::NoResponse);
    }
    match parse_response(received) {
        Err(e) => Err(ExchangeError::ProtocolError(e)),
        Ok((status, payload)) => {
            if status == Status::Success {
                Ok(payload)
            } else {
                Err(ExchangeError::DeviceError(status))
            }
        },
    }
}

/// The number of bytes at which the verdict on a buffer that starts like
/// `received` no longer depends on what follows: the declared end of the
/// frame once the sentinel and the length byte are in, and the five bytes of
/// the smallest frame otherwise.
pub open spec fn frame_target(received: Seq<u8>) -> nat {
    if received.len() >= 2 && received[0] == SOF && received[1] > 1 {
        (received[1] + 4) as nat
    } else {
        5
    }
}

/// Enough has been received to judge the frame.
pub open spec fn is_settled(received: Seq<u8>) -> bool {
    received.len() >= frame_target(received)
}

/// What a read attempt reported.
#[derive(Debug, PartialEq, Eq)]
pub enum ReadEvent {
    /// The read returned these bytes, possibly none.
    Bytes(Vec<u8>),
    /// The deadline of the exchange has passed.
    TimedOut,
    /// The read failed; the text is the platform's.
    Failed(String),
}

/// What the caller does next.
#[derive(Debug, PartialEq, Eq)]
pub enum ReadAction {
    /// Read again; at least this many bytes are still missing.
    ReadMore(usize),
    /// Stop reading; this is the result of the exchange.
    Finish(Result<Vec<u8>, ExchangeError>),
}

/// The bytes held after an event.
pub open spec fn received_after(before: Seq<u8>, event: ReadEvent) -> Seq<u8> {
    match event {
        ReadEvent::Bytes(chunk) => before + chunk@,
        _ => before,
    }
}

/// The event ends the reading: a failure, the deadline, a read that brought
/// nothing, or bytes that settle the frame.
pub open spec fn ends_reading(before: Seq<u8>, event: ReadEvent) -> bool {
    match event {
        ReadEvent::Bytes(chunk) => chunk@.len() == 0 || is_settled(before + chunk@),
        _ => true,
    }
}

/// Accumulates the response of one exchange across reads.
pub struct Receiver {
    buffer: Vec<u8>,
}

impl View for Receiver {
    type V = Seq<u8>;

    /// The bytes received so far.
    closed spec fn view(&self) -> Seq<u8> {
        self.buffer@
    }
}

impl Receiver {
    /// A receiver that holds nothing yet.
    pub fn new() -> (receiver: Receiver)
        ensures
            receiver@ == Seq::<u8>::empty(),
    {
        Receiver { buffer: Vec::new() }
    }

    /// Takes in what a read attempt reported and says what to do next.
    ///
    /// Bytes are appended to what is held. Reading goes on until the frame is
    /// settled, a read brings nothing, the deadline passes or a read fails.
    /// A failed read ends the exchange with `ReadError`; every other end
    /// judges the bytes held.
    pub fn step(&mut self, event: ReadEvent) -> (action: ReadAction)
        ensures
            final(self)@ == received_after(old(self)@, event),
            match action {
                ReadAction::ReadMore(missing) => {
                    &&& !ends_reading(old(self)@, event)
                    &&& missing == frame_target(final(self)@) - final(self)@.len()
                },
                ReadAction::Finish(res) => {
                    &&& ends_reading(old(self)@, event)
                    &&& match event {
                        ReadEvent::Failed(text) => res == Err::<Vec<u8>, ExchangeError>(
                            ExchangeError::ReadError(text),
                        ),
                        _ => reply_is(res, response_outcome(final(self)@)),
                    }
                },
            },
    {
        match event {
            ReadEvent::Failed(text) => ReadAction::Finish(Err(ExchangeError::ReadError(text))),
            ReadEvent::TimedOut => ReadAction::Finish(interpret_response(self.buffer.as_slice())),
            ReadEvent::Bytes(chunk) => {
                self.buffer.extend_from_slice(chunk.as_slice());
                assert(self.buffer@ =~= old(self).buffer@ + chunk@);
                let held: usize = self.buffer.len();
                let target: usize = if held >= 2 && self.buffer[0] == SOF && self.buffer[1] > 1 {
                    self.buffer[1] as usize + 4
                } else {
                    5
                };
                if chunk.len() == 0 || held >= target {
                    ReadAction::Finish(interpret_response(self.buffer.as_slice()))
                } else {
                    ReadAction::ReadMore(target - held)
                }
            },
        }
    }
}

/// `needle` occurs in `haystack` as a run of consecutive bytes.
pub open spec fn contains_bytes(haystack: Seq<u8>, needle: Seq<u8>) -> bool {
    exists|i: int|
        0 <= i && i + needle.len() <= haystack.len() && #[trigger] haystack.subrange(
            i,
            i + needle.len(),
        ) == needle
}

/// The port name belongs to the device class of the wallet: it contains
/// `COM` or `ttyACM`. The test is by name alone and identifies no device.
pub open spec fn is_wallet_port(name: Seq<char>) -> bool {
    contains_bytes(encode_utf8(name), encode_utf8("COM"@)) || contains_bytes(
        encode_utf8(name),
        encode_utf8("ttyACM"@),
    )
}

fn matches_at(haystack: &[u8], needle: &[u8], at: usize) -> (same: bool)
    requires
        at + needle@.len() <= haystack@.len(),
    ensures
        same == (haystack@.subrange(at as int, at + needle@.len()) == needle@),
{
    let total: usize = haystack.len();
    let mut k: usize = 0;
    while k < needle.len()
        invariant
            k <= needle@.len(),
            total == haystack@.len(),
            at + needle@.len() <= total,
            forall|j: int| 0 <= j < k ==> haystack@[at + j] == needle@[j],
        decreases needle@.len() - k,
    {
        if haystack[at + k] != needle[k] {
            assert(haystack@.subrange(at as int, at + needle@.len())[k as int] != needle@[k as int]);
            return false;
        }
        k = k + 1;
    }
    assert(haystack@.subrange(at as int, at + needle@.len()) =~= needle@);
    true
}

/// Searches `haystack` for `needle`.
pub fn contains_slice(haystack: &[u8], needle: &[u8]) -> (found: bool)
    ensures
        found == contains_bytes(haystack@, needle@),
{
    if needle.len() > haystack.len() {
        return false;
    }
    let last: usize = haystack.len() - needle.len();
    let mut at: usize = 0;
    loop
        invariant
            last == haystack@.len() - needle@.len(),
            at <= last,
            forall|i: int|
                0 <= i < at ==> #[trigger] haystack@.subrange(i, i + needle@.len()) != needle@,
        decreases last - at,
    {
        if matches_at(haystack, needle, at) {
            return true;
        }
        if at == last {
            return false;
        }
        at = at + 1;
    }
}

/// Tells whether a port name belongs to the device class of the wallet.
pub fn is_candidate_port(name: &str) -> (candidate: bool)
    ensures
        candidate == is_wallet_port(name@),
{
    let bytes = name.as_bytes();
    contains_slice(bytes, "COM".as_bytes()) || contains_slice(bytes, "ttyACM".as_bytes())
}

/// Picks the port to connect to: the first, in the order given, whose name
/// belongs to the device class of the wallet.
pub fn find_device(port_names: &Vec<String>) -> (found: Option<String>)
    ensures
        match found {
            Some(name) => exists|i: int|
                0 <= i < port_names@.len() && #[trigger] port_names@[i] == name && is_wallet_port(
                    name@,
                ) && forall|j: int| 0 <= j < i ==> !is_wallet_port(#[trigger] port_names@[j]@),
            None => forall|j: int|
                0 <= j < port_names@.len() ==> !is_wallet_port(#[trigger] port_names@[j]@),
        },
{
    let mut i: usize = 0;
    while i < port_names.len()
        invariant
            i <= port_names@.len(),
            forall|j: int| 0 <= j < i ==> !is_wallet_port(#[trigger] port_names@[j]@),
        decreases port_names@.len() - i,
    {
        if is_candidate_port(port_names[i].as_str()) {
            return Some(port_names[i].clone());
        }
        i = i + 1;
    }
    None
}

} // verus!
