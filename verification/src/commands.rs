//! The command layer: what each wallet operation sends, and what the answer
//! of the device means.
//!
//! An operation is a `Request` to be exchanged and a function that reads the
//! reply of that exchange. A reply is the payload of a `Success` response or
//! the reason why there is none.

use vstd::prelude::*;
use vstd::slice::{slice_subrange, slice_to_vec};
use vstd::string::StringExecFns;
use vstd::utf8::{decode_utf8, encode_utf8, valid_utf8};
use crate::encoding::{
    hex_encode, hex_lower, le_bytes, push_le_bytes, string_from_utf8, string_from_utf8_lossy,
    utf8_lossy,
};
use crate::protocol::{build_frame, frame_of, Command, VersionInfo, WalletStatus};
use crate::transport::{ConnectError, ExchangeError};
use crate::AppWalletStatus;

verus! {

/// Longest destination address, in bytes, that a signing request carries.
pub const MAX_ADDRESS_LEN: usize = 200;

/// Why an operation produced no result.
#[derive(Debug, PartialEq, Eq)]
pub enum CommandError {
    /// The exchange itself failed.
    Exchange(ExchangeError),
    /// The version payload has fewer than three bytes.
    InvalidVersionData,
    /// The status payload is empty.
    NoStatusData,
    /// The payload is not valid UTF-8 where text is expected.
    EncodingError,
    /// The destination address is longer than `MAX_ADDRESS_LEN` bytes.
    AddressTooLong,
}

impl CommandError {
    /// The message that describes this error to the user.
    pub open spec fn message_text(&self) -> Seq<char> {
        match self {
            CommandError::Exchange(e) => e.message_text(),
            CommandError::InvalidVersionData => "Invalid version data"@,
            CommandError::NoStatusData => "No status data"@,
            CommandError::EncodingError => "Invalid address encoding"@,
            CommandError::AddressTooLong => "Address too long"@,
        }
    }

    /// Returns the message that describes this error to the user.
    pub fn message(&self) -> (message: String)
        ensures
            message@ == self.message_text(),
    {
        match self {
            CommandError::Exchange(e) => e.message(),
            CommandError::InvalidVersionData => String::from_str("Invalid version data"),
            CommandError::NoStatusData => String::from_str("No status data"),
            CommandError::EncodingError => String::from_str("Invalid address encoding"),
            CommandError::AddressTooLong => String::from_str("Address too long"),
        }
    }
}

/// A command and its payload, ready to be framed.
#[derive(Debug, PartialEq, Eq)]
pub struct Request {
    pub command: Command,
    pub payload: Vec<u8>,
}

/// The payload of a signing request: account index (4 bytes), amount
/// (8 bytes) and fee (8 bytes), each least significant byte first, then the
/// length of the address in one byte and the address itself.
pub open spec fn sign_payload(account_index: u32, address: Seq<u8>, amount: u64, fee: u64) -> Seq<
    u8,
> {
    le_bytes(account_index as nat, 4) + le_bytes(amount as nat, 8) + le_bytes(fee as nat, 8)
        + seq![address.len() as u8] + address
}

impl Request {
    /// The request carries `command` and the bytes `payload`.
    pub open spec fn carries(&self, command: Command, payload: Seq<u8>) -> bool {
        self.command == command && self.payload@ == payload
    }

    /// Builds the wire frame of this request.
    pub fn frame(&self) -> (frame: Vec<u8>)
        ensures
            frame@ == frame_of(self.command.wire_code(), self.payload@),
    {
        build_frame(self.command, self.payload.as_slice())
    }

    /// Liveness probe; no payload.
    pub fn ping() -> (request: Request)
        ensures
            request.carries(Command::Ping, Seq::empty()),
    {
        Request { command: Command::Ping, payload: Vec::new() }
    }

    /// Asks for the firmware version; no payload.
    pub fn get_version() -> (request: Request)
        ensures
            request.carries(Command::GetVersion, Seq::empty()),
    {
        Request { command: Command::GetVersion, payload: Vec::new() }
    }

    /// Asks for the wallet state; no payload.
    pub fn get_status() -> (request: Request)
        ensures
            request.carries(Command::GetStatus, Seq::empty()),
    {
        Request { command: Command::GetStatus, payload: Vec::new() }
    }

    /// Creates a wallet protected by `pin`; the payload is the UTF-8 bytes of
    /// the PIN, of any length.
    pub fn create_wallet(pin: &str) -> (request: Request)
        ensures
            request.carries(Command::CreateWallet, encode_utf8(pin@)),
    {
        Request { command: Command::CreateWallet, payload: slice_to_vec(pin.as_bytes()) }
    }

    /// Unlocks the wallet with `pin`; the payload is the UTF-8 bytes of the
    /// PIN, of any length.
    pub fn unlock(pin: &str) -> (request: Request)
        ensures
            request.carries(Command::Unlock, encode_utf8(pin@)),
    {
        Request { command: Command::Unlock, payload: slice_to_vec(pin.as_bytes()) }
    }

    /// Locks the wallet; no payload.
    pub fn lock() -> (request: Request)
        ensures
            request.carries(Command::Lock, Seq::empty()),
    {
        Request { command: Command::Lock, payload: Vec::new() }
    }

    /// Asks for the address of an account; the payload is the account index
    /// in four bytes, least significant first.
    pub fn get_address(account_index: u32) -> (request: Request)
        ensures
            request.carries(Command::GetAddress, le_bytes(account_index as nat, 4)),
    {
        let mut payload: Vec<u8> = Vec::new();
        push_le_bytes(&mut payload, account_index as u64, 4);
        assert(payload@ =~= le_bytes(account_index as nat, 4));
        Request { command: Command::GetAddress, payload }
    }

    /// Asks for a signature over a transfer. An address of more than
    /// `MAX_ADDRESS_LEN` bytes is refused and no request comes into being;
    /// every other input gives the request with the payload `sign_payload`.
    pub fn sign_transaction(account_index: u32, to_address: &str, amount: u64, fee: u64) -> (res:
        Result<Request, CommandError>)
        ensures
            match res {
                Ok(request) => {
                    &&& encode_utf8(to_address@).len() <= MAX_ADDRESS_LEN
                    &&& request.carries(
                        Command::SignTransaction,
                        sign_payload(account_index, encode_utf8(to_address@), amount, fee),
                    )
                },
                Err(e) => {
                    &&& encode_utf8(to_address@).len() > MAX_ADDRESS_LEN
                    &&& e == CommandError::AddressTooLong
                },
            },
    {
        let address = to_address.as_bytes();
        if address.len() > MAX_ADDRESS_LEN {
            return Err(CommandError::AddressTooLong);
        }
        let mut payload: Vec<u8> = Vec::new();
        push_le_bytes(&mut payload, account_index as u64, 4);
        push_le_bytes(&mut payload, amount, 8);
        push_le_bytes(&mut payload, fee, 8);
        payload.push(address.len() as u8);
        payload.extend_from_slice(address);
        assert(payload@ =~= sign_payload(account_index, address@, amount, fee));
        Ok(Request { command: Command::SignTransaction, payload })
    }
}

/// The version text carried after the three version bytes: empty where
/// nothing follows them, the permissive decoding of the rest otherwise.
pub open spec fn version_text(rest: Seq<u8>) -> Seq<char> {
    if rest.len() == 0 {
        Seq::empty()
    } else {
        utf8_lossy(rest)
    }
}

/// Reads the reply to `get_version`: major, minor and patch in the first
/// three bytes, the version text in the rest. Fewer than three bytes are
/// `InvalidVersionData`; a failed exchange is passed on.
pub fn decode_version(reply: Result<Vec<u8>, ExchangeError>) -> (res: Result<
    VersionInfo,
    CommandError,
>)
    ensures
        match reply {
            Err(e) => res == Err::<VersionInfo, CommandError>(CommandError::Exchange(e)),
            Ok(data) => if data@.len() < 3 {
                res == Err::<VersionInfo, CommandError>(CommandError::InvalidVersionData)
            } else {
                match res {
                    Ok(info) => {
                        &&& info.major == data@[0]
                        &&& info.minor == data@[1]
                        &&& info.patch == data@[2]
                        &&& info.crypto_version@ == version_text(data@.skip(3))
                        &&& valid_utf8(data@.skip(3)) ==> info.crypto_version@ == decode_utf8(
                            data@.skip(3),
                        )
                    },
                    Err(_) => false,
                }
            },
        },
{
    match reply {
        Err(e) => Err(CommandError::Exchange(e)),
        Ok(data) => {
            if data.len() >= 3 {
                let text = if data.len() > 3 {
                    let rest = slice_subrange(data.as_slice(), 3, data.len());
                    assert(rest@ =~= data@.skip(3));
                    string_from_utf8_lossy(rest)
                } else {
                    proof {
                        assert(data@.skip(3) =~= Seq::<u8>::empty());
                        assert(decode_utf8(Seq::<u8>::empty()) =~= Seq::<char>::empty());
                    }
                    String::new()
                };
                Ok(VersionInfo::new(data[0], data[1], data[2], text))
            } else {
                Err(CommandError::InvalidVersionData)
            }
        },
    }
}

/// Reads the reply to `get_status`. The first byte of the payload names the
/// state; a byte that names none reads as `Disconnected`, and so does every
/// failed exchange, which is therefore no error here. Only an empty payload
/// is one: `NoStatusData`.
pub fn decode_status(reply: Result<Vec<u8>, ExchangeError>) -> (res: Result<
    AppWalletStatus,
    CommandError,
>)
    ensures
        match reply {
            Err(_) => res == Ok::<AppWalletStatus, CommandError>(AppWalletStatus::Disconnected),
            Ok(data) => if data@.len() == 0 {
                res == Err::<AppWalletStatus, CommandError>(CommandError::NoStatusData)
            } else {
                res == Ok::<AppWalletStatus, CommandError>(
                    AppWalletStatus::of_report(WalletStatus::of_byte(data@[0])),
                )
            },
        },
{
    match reply {
        Err(_) => Ok(AppWalletStatus::Disconnected),
        Ok(data) => {
            if data.len() == 0 {
                return Err(CommandError::NoStatusData);
            }
            Ok(AppWalletStatus::from_report(WalletStatus::from_byte(data[0])))
        },
    }
}

/// Reads the reply to `create_wallet` or `unlock`: a `Success` response means
/// `true`, whatever its payload; a failed exchange is passed on.
pub fn decode_ack(reply: Result<Vec<u8>, ExchangeError>) -> (res: Result<bool, CommandError>)
    ensures
        match reply {
            Err(e) => res == Err::<bool, CommandError>(CommandError::Exchange(e)),
            Ok(_) => res == Ok::<bool, CommandError>(true),
        },
{
    match reply {
        Err(e) => Err(CommandError::Exchange(e)),
        Ok(_) => Ok(true),
    }
}

/// Reads the reply to `lock`: success is the absence of an error.
pub fn decode_lock(reply: Result<Vec<u8>, ExchangeError>) -> (res: Result<(), CommandError>)
    ensures
        match reply {
            Err(e) => res == Err::<(), CommandError>(CommandError::Exchange(e)),
            Ok(_) => res == Ok::<(), CommandError>(()),
        },
{
    match reply {
        Err(e) => Err(CommandError::Exchange(e)),
        Ok(_) => Ok(()),
    }
}

/// Reads the reply to `get_address`: the payload is the address as UTF-8
/// text. A payload that is not valid UTF-8 is an `EncodingError`; a failed
/// exchange is passed on.
pub fn decode_address(reply: Result<Vec<u8>, ExchangeError>) -> (res: Result<String, CommandError>)
    ensures
        match reply {
            Err(e) => res == Err::<String, CommandError>(CommandError::Exchange(e)),
            Ok(data) => if valid_utf8(data@) {
                match res {
                    Ok(address) => address@ == decode_utf8(data@),
                    Err(_) => false,
                }
            } else {
                res == Err::<String, CommandError>(CommandError::EncodingError)
            },
        },
{
    match reply {
        Err(e) => Err(CommandError::Exchange(e)),
        Ok(data) => match string_from_utf8(data) {
            Some(address) => Ok(address),
            None => Err(CommandError::EncodingError),
        },
    }
}

/// Reads the reply to `sign_transaction`: the payload is the raw signature,
/// handed on as lower-case hexadecimal text. A failed exchange is passed on.
pub fn decode_signature(reply: Result<Vec<u8>, ExchangeError>) -> (res: Result<
    String,
    CommandError,
>)
    ensures
        match reply {
            Err(e) => res == Err::<String, CommandError>(CommandError::Exchange(e)),
            Ok(data) => match res {
                Ok(signature) => signature@ == hex_lower(data@),
                Err(_) => false,
            },
        },
{
    match reply {
        Err(e) => Err(CommandError::Exchange(e)),
        Ok(data) => Ok(hex_encode(data.as_slice())),
    }
}

/// What the connection check has learned so far.
#[derive(Debug, PartialEq, Eq)]
pub enum ProbeEvent {
    /// The check begins.
    Started,
    /// Discovery ended with this port, or with none.
    Discovered(Option<String>),
    /// Opening the port ended like this.
    Opened(Result<(), ConnectError>),
    /// The ping exchange ended like this.
    Pinged(Result<Vec<u8>, ExchangeError>),
}

/// What the connection check does next.
#[derive(Debug, PartialEq, Eq)]
pub enum ProbeAction {
    /// Look for a port.
    Discover,
    /// Open this port, replacing any handle held.
    Open(String),
    /// Exchange a ping.
    Ping,
    /// The check is over: the device is, or is not, connected.
    Report(bool),
}

/// The course of the connection check: discover, open, ping. A missing
/// device and a port that does not open end it with `false`, without an
/// error; the ping decides otherwise.
pub open spec fn next_probe_action(event: ProbeEvent) -> ProbeAction {
    match event {
        ProbeEvent::Started => ProbeAction::Discover,
        ProbeEvent::Discovered(None) => ProbeAction::Report(false),
        ProbeEvent::Discovered(Some(port)) => ProbeAction::Open(port),
        ProbeEvent::Opened(Err(_)) => ProbeAction::Report(false),
        ProbeEvent::Opened(Ok(_)) => ProbeAction::Ping,
        ProbeEvent::Pinged(reply) => ProbeAction::Report(reply is Ok),
    }
}

/// Decides the next step of the connection check.
pub fn probe_step(event: ProbeEvent) -> (action: ProbeAction)
    ensures
        action == next_probe_action(event),
{
    match event {
        ProbeEvent::Started => ProbeAction::Discover,
        ProbeEvent::Discovered(None) => ProbeAction::Report(false),
        ProbeEvent::Discovered(Some(port)) => ProbeAction::Open(port),
        ProbeEvent::Opened(Err(_)) => ProbeAction::Report(false),
        ProbeEvent::Opened(Ok(_)) => ProbeAction::Ping,
        ProbeEvent::Pinged(reply) => ProbeAction::Report(reply.is_ok()),
    }
}

} // verus!
