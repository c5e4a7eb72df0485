//! Wire format of the wallet link.
//!
//! A frame is `[SOF][LEN][CMD or STATUS][PAYLOAD ...][CRC_LO][CRC_HI]`, where
//! `LEN` counts the command or status byte and the payload, and the checksum
//! covers every byte from `LEN` to the end of the payload.

use vstd::prelude::*;
use vstd::slice::slice_subrange;
use vstd::slice::slice_to_vec;

verus! {

/// Start-of-frame sentinel.
pub const SOF: u8 = 0xAA;

/// Largest frame the device is specified to emit.
pub const MAX_FRAME_SIZE: usize = 256;

/// Outbound command identifiers.
///
/// `InitSession` and `CloseSession` are reserved codes: the frame codec
/// accepts them like any other, and no operation of this crate sends them.
#[derive(Debug, Clone, Copy, PartialEq, Eq, Structural)]
pub enum Command {
    Ping,
    GetVersion,
    GetStatus,
    CreateWallet,
    Unlock,
    Lock,
    GetAddress,
    SignTransaction,
    VerifySignature,
    InitSession,
    CloseSession,
}

impl Command {
    /// The byte that stands for this command on the wire.
    pub open spec fn wire_code(self) -> u8 {
        match self {
            Command::Ping => 0x01,
            Command::GetVersion => 0x02,
            Command::GetStatus => 0x03,
            Command::CreateWallet => 0x10,
            Command::Unlock => 0x11,
            Command::Lock => 0x12,
            Command::GetAddress => 0x20,
            Command::SignTransaction => 0x21,
            Command::VerifySignature => 0x22,
            Command::InitSession => 0x30,
            Command::CloseSession => 0x31,
        }
    }

    /// Returns the byte that stands for this command on the wire.
    pub fn code(self) -> (byte: u8)
        ensures
            byte == self.wire_code(),
    {
        match self {
            Command::Ping => 0x01,
            Command::GetVersion => 0x02,
            Command::GetStatus => 0x03,
            Command::CreateWallet => 0x10,
            Command::Unlock => 0x11,
            Command::Lock => 0x12,
            Command::GetAddress => 0x20,
            Command::SignTransaction => 0x21,
            Command::VerifySignature => 0x22,
            Command::InitSession => 0x30,
            Command::CloseSession => 0x31,
        }
    }
}

/// Outcome codes reported by the device.
#[derive(Debug, Clone, Copy, PartialEq, Eq, Structural)]
pub enum Status {
    Success,
    Error,
    InvalidCommand,
    Locked,
    NeedConfirm,
    InvalidPin,
    InvalidSignature,
    SessionExpired,
}

impl Status {
    /// The byte that stands for this status on the wire.
    pub open spec fn wire_code(self) -> u8 {
        match self {
            Status::Success => 0x00,
            Status::Error => 0x01,
            Status::InvalidCommand => 0x02,
            Status::Locked => 0x03,
            Status::NeedConfirm => 0x04,
            Status::InvalidPin => 0x05,
            Status::InvalidSignature => 0x06,
            Status::SessionExpired => 0x07,
        }
    }

    /// The status a received byte stands for. A byte outside the known codes
    /// degrades to `Error`; in particular only `0x00` reads as `Success`.
    pub open spec fn of_byte(byte: u8) -> Status {
        if byte == 0x00 {
            Status::Success
        } else if byte == 0x02 {
            Status::InvalidCommand
        } else if byte == 0x03 {
            Status::Locked
        } else if byte == 0x04 {
            Status::NeedConfirm
        } else if byte == 0x05 {
            Status::InvalidPin
        } else if byte == 0x06 {
            Status::InvalidSignature
        } else if byte == 0x07 {
            Status::SessionExpired
        } else {
            Status::Error
        }
    }

    /// Returns the byte that stands for this status on the wire.
    pub fn code(self) -> (byte: u8)
        ensures
            byte == self.wire_code(),
    {
        match self {
            Status::Success => 0x00,
            Status::Error => 0x01,
            Status::InvalidCommand => 0x02,
            Status::Locked => 0x03,
            Status::NeedConfirm => 0x04,
            Status::InvalidPin => 0x05,
            Status::InvalidSignature => 0x06,
            Status::SessionExpired => 0x07,
        }
    }

    /// The name under which this status appears in messages.
    pub open spec fn name_text(self) -> Seq<char> {
        match self {
            Status::Success => "Ok"@,
            Status::Error => "Error"@,
            Status::InvalidCommand => "InvalidCommand"@,
            Status::Locked => "Locked"@,
            Status::NeedConfirm => "NeedConfirm"@,
            Status::InvalidPin => "InvalidPin"@,
            Status::InvalidSignature => "InvalidSignature"@,
            Status::SessionExpired => "SessionExpired"@,
        }
    }

    /// Returns the name under which this status appears in messages.
    pub fn name(self) -> (name: &'static str)
        ensures
            name@ == self.name_text(),
    {
        match self {
            Status::Success => "Ok",
            Status::Error => "Error",
            Status::InvalidCommand => "InvalidCommand",
            Status::Locked => "Locked",
            Status::NeedConfirm => "NeedConfirm",
            Status::InvalidPin => "InvalidPin",
            Status::InvalidSignature => "InvalidSignature",
            Status::SessionExpired => "SessionExpired",
        }
    }

    /// Maps a received status byte to a `Status`, unknown bytes to `Error`.
    pub fn from_byte(byte: u8) -> (status: Status)
        ensures
            status == Status::of_byte(byte),
    {
        match byte {
            0x00 => Status::Success,
            0x02 => Status::InvalidCommand,
            0x03 => Status::Locked,
            0x04 => Status::NeedConfirm,
            0x05 => Status::InvalidPin,
            0x06 => Status::InvalidSignature,
            0x07 => Status::SessionExpired,
            _ => Status::Error,
        }
    }
}

/// Firmware version as the device reports it.
#[derive(Debug, Clone, PartialEq, Eq)]
pub struct VersionInfo {
    pub major: u8,
    pub minor: u8,
    pub patch: u8,
    pub crypto_version: String,
}

impl VersionInfo {
    /// Puts a version together from its parts.
    pub fn new(major: u8, minor: u8, patch: u8, crypto_version: String) -> (info: VersionInfo)
        ensures
            info.major == major,
            info.minor == minor,
            info.patch == patch,
            info.crypto_version == crypto_version,
    {
        VersionInfo { major, minor, patch, crypto_version }
    }
}

/// State of the wallet as the device reports it.
#[derive(Debug, Clone, Copy, PartialEq, Eq, Structural)]
pub enum WalletStatus {
    Uninitialized,
    Locked,
    Unlocked,
}

impl WalletStatus {
    /// The state a reported byte stands for, if any.
    pub open spec fn of_byte(byte: u8) -> Option<WalletStatus> {
        if byte == 0 {
            Some(WalletStatus::Uninitialized)
        } else if byte == 1 {
            Some(WalletStatus::Locked)
        } else if byte == 2 {
            Some(WalletStatus::Unlocked)
        } else {
            None
        }
    }

    /// Maps a reported byte to the state it stands for.
    pub fn from_byte(byte: u8) -> (status: Option<WalletStatus>)
        ensures
            status == WalletStatus::of_byte(byte),
    {
        match byte {
            0 => Some(WalletStatus::Uninitialized),
            1 => Some(WalletStatus::Locked),
            2 => Some(WalletStatus::Unlocked),
            _ => None,
        }
    }
}

/// Why a received buffer is not a well-formed frame.
#[derive(Debug, Clone, Copy, PartialEq, Eq, Structural)]
pub enum ParseError {
    /// Fewer bytes than the smallest frame has, or a frame that declares no
    /// status byte.
    FrameTooShort,
    /// The first byte is not the start-of-frame sentinel.
    InvalidSof,
    /// The buffer ends before the declared end of the frame.
    IncompleteFrame,
    /// The checksum carried by the frame does not match its contents.
    ChecksumMismatch,
}

impl ParseError {
    /// The message that describes this error to the user.
    pub open spec fn message_text(self) -> Seq<char> {
        match self {
            ParseError::FrameTooShort => "Frame too short"@,
            ParseError::InvalidSof => "Invalid SOF"@,
            ParseError::IncompleteFrame => "Incomplete frame"@,
            ParseError::ChecksumMismatch => "CRC mismatch"@,
        }
    }

    /// Returns the message that describes this error to the user.
    pub fn message(self) -> (message: &'static str)
        ensures
            message@ == self.message_text(),
    {
        match self {
            ParseError::FrameTooShort => "Frame too short",
            ParseError::InvalidSof => "Invalid SOF",
            ParseError::IncompleteFrame => "Incomplete frame",
            ParseError::ChecksumMismatch => "CRC mismatch",
        }
    }
}

/// One shift of the checksum register: the register moves right by one bit
/// and the polynomial `0xA001` is folded in when a set bit falls out.
pub open spec fn crc16_shift(reg: u16) -> u16 {
    if reg & 1 != 0 {
        (reg >> 1) ^ 0xA001
    } else {
        reg >> 1
    }
}

/// The register after `n` shifts.
pub open spec fn crc16_shifts(reg: u16, n: nat) -> u16
    decreases n,
{
    if n == 0 {
        reg
    } else {
        crc16_shift(crc16_shifts(reg, (n - 1) as nat))
    }
}

/// The register after one more byte of input: the byte is folded into the low
/// half of the register, which is then shifted once per bit.
pub open spec fn crc16_update(reg: u16, byte: u8) -> u16 {
    crc16_shifts(reg ^ (byte as u16), 8)
}

/// Modbus CRC-16 of a byte sequence: the register starts at `0xFFFF` and takes
/// in the bytes from first to last; there is no final inversion.
pub open spec fn crc16_of(data: Seq<u8>) -> u16
    decreases data.len(),
{
    if data.len() == 0 {
        0xFFFF
    } else {
        crc16_update(crc16_of(data.drop_last()), data.last())
    }
}

/// Computes the Modbus CRC-16 of `data`.
pub fn crc16(data: &[u8]) -> (crc: u16)
    ensures
        crc == crc16_of(data@),
{
    let mut crc: u16 = 0xFFFF;
    let mut i: usize = 0;
    while i < data.len()
        invariant
            i <= data.len(),
            crc == crc16_of(data@.take(i as int)),
        decreases data.len() - i,
    {
        let start: u16 = crc ^ (data[i] as u16);
        let mut reg: u16 = start;
        let mut bit: u8 = 0;
        while bit < 8
            invariant
                bit <= 8,
                reg == crc16_shifts(start, bit as nat),
            decreases 8 - bit,
        {
            if reg & 1 != 0 {
                reg = (reg >> 1) ^ 0xA001;
            } else {
                reg = reg >> 1;
            }
            bit = bit + 1;
        }
        proof {
            let upto = data@.take(i + 1);
            assert(upto.drop_last() =~= data@.take(i as int));
            assert(upto.last() == data@[i as int]);
        }
        crc = reg;
        i = i + 1;
    }
    proof {
        assert(data@.take(data.len() as int) =~= data@);
    }
    crc
}

/// The `LEN` byte of a frame with a payload of `payload_len` bytes: the
/// payload and the command byte, counted modulo 256. The count is faithful
/// exactly for payloads of at most 254 bytes.
pub open spec fn length_byte(payload_len: nat) -> u8 {
    ((payload_len + 1) % 256) as u8
}

/// A checksum as it travels on the wire: low byte first.
pub open spec fn crc_bytes(crc: u16) -> Seq<u8> {
    seq![(crc % 256) as u8, (crc / 256) as u8]
}

/// The checksum that two wire bytes stand for.
pub open spec fn crc_from_bytes(lo: u8, hi: u8) -> int {
    lo + 256 * hi
}

/// The part of a frame that the checksum covers: `LEN`, the command or
/// status byte, and the payload.
pub open spec fn frame_body(code: u8, payload: Seq<u8>) -> Seq<u8> {
    seq![length_byte(payload.len()), code] + payload
}

/// The frame that carries `code` and `payload`.
pub open spec fn frame_of(code: u8, payload: Seq<u8>) -> Seq<u8> {
    seq![SOF] + frame_body(code, payload) + crc_bytes(crc16_of(frame_body(code, payload)))
}

/// What a received buffer holds, judged as a response frame. The checks run
/// in this order: the buffer has the five bytes of the smallest frame; it
/// starts with `SOF`; it reaches the declared end of the frame; the checksum
/// over `LEN`, status and payload equals the two bytes that follow them. A
/// frame that passes these and declares `LEN = 0` has no status byte and is
/// rejected as too short. Bytes after the declared end are ignored.
pub open spec fn parse_outcome(frame: Seq<u8>) -> Result<(Status, Seq<u8>), ParseError> {
    if frame.len() < 5 {
        Err(ParseError::FrameTooShort)
    } else if frame[0] != SOF {
        Err(ParseError::InvalidSof)
    } else {
        let len = frame[1] as int;
        if frame.len() < len + 4 {
            Err(ParseError::IncompleteFrame)
        } else if crc_from_bytes(frame[len + 2], frame[len + 3]) != crc16_of(
            frame.subrange(1, len + 2),
        ) {
            Err(ParseError::ChecksumMismatch)
        } else if len == 0 {
            Err(ParseError::FrameTooShort)
        } else {
            Ok((Status::of_byte(frame[2]), frame.subrange(3, len + 2)))
        }
    }
}

/// Builds the frame that carries `cmd` and `data`.
///
/// The codec does not bound the payload: beyond 254 bytes the length byte
/// wraps and the device will not read the frame as it was meant. Callers
/// bound the payload where a well-formed frame is needed.
pub fn build_frame(cmd: Command, data: &[u8]) -> (frame: Vec<u8>)
    ensures
        frame@ == frame_of(cmd.wire_code(), data@),
{
    let mut frame: Vec<u8> = Vec::with_capacity(data.len().saturating_add(5));
    frame.push(SOF);
    frame.push(((data.len() % 256 + 1) % 256) as u8);
    frame.push(cmd.code());
    frame.extend_from_slice(data);
    assert(frame@ =~= seq![SOF] + frame_body(cmd.wire_code(), data@));
    let crc = crc16(slice_subrange(frame.as_slice(), 1, frame.len()));
    assert(frame@.subrange(1, frame@.len() as int) =~= frame_body(cmd.wire_code(), data@));
    assert((crc & 0xFF) as u8 == (crc % 256) as u8 && (crc >> 8) as u8 == (crc / 256) as u8)
        by (bit_vector);
    frame.push((crc & 0xFF) as u8);
    frame.push((crc >> 8) as u8);
    assert(frame@ =~= frame_of(cmd.wire_code(), data@));
    frame
}

/// Validates a received buffer and takes it apart into the status and the
/// payload, which excludes the status byte.
pub fn parse_response(frame: &[u8]) -> (res: Result<(Status, Vec<u8>), ParseError>)
    ensures
        match (res, parse_outcome(frame@)) {
            (Ok((status, payload)), Ok((s, p))) => status == s && payload@ == p,
            (Err(e), Err(f)) => e == f,
            _ => false,
        },
{
    if frame.len() < 5 {
        return Err(ParseError::FrameTooShort);
    }
    if frame[0] != SOF {
        return Err(ParseError::InvalidSof);
    }
    let len: usize = frame[1] as usize;
    let expected_len: usize = 2 + len + 2;
    if frame.len() < expected_len {
        return Err(ParseError::IncompleteFrame);
    }
    let lo: u8 = frame[expected_len - 2];
    let hi: u8 = frame[expected_len - 1];
    let received_crc: u16 = (lo as u16) | ((hi as u16) << 8);
    assert(received_crc == lo + 256 * hi) by (bit_vector)
        requires
            received_crc == (lo as u16) | ((hi as u16) << 8),
    ;
    let calc_crc = crc16(slice_subrange(frame, 1, expected_len - 2));
    if received_crc != calc_crc {
        return Err(ParseError::ChecksumMismatch);
    }
    if len == 0 {
        return Err(ParseError::FrameTooShort);
    }
    let status = Status::from_byte(frame[2]);
    let data = slice_to_vec(slice_subrange(frame, 3, expected_len - 2));
    Ok((status, data))
}

} // verus!
