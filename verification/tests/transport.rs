use librecrypt_wallet::protocol::{build_frame, crc16, Command, ParseError, Status, SOF};
use librecrypt_wallet::transport::{
    contains_slice, find_device, interpret_response, is_candidate_port, ConnectError,
    ExchangeError, ReadAction, ReadEvent, Receiver, BAUD_RATE, READ_TIMEOUT_MS,
};

fn answer(status: u8, payload: &[u8]) -> Vec<u8> {
    let mut frame = vec![SOF, (payload.len() + 1) as u8, status];
    frame.extend_from_slice(payload);
    let crc = crc16(&frame[1..]);
    frame.push((crc & 0xFF) as u8);
    frame.push((crc >> 8) as u8);
    frame
}

fn names(list: &[&str]) -> Vec<String> {
    list.iter().map(|s| s.to_string()).collect()
}

#[test]
fn link_parameters() {
    assert_eq!(BAUD_RATE, 115200);
    assert_eq!(READ_TIMEOUT_MS, 1000);
}

#[test]
fn no_bytes_is_no_response() {
    assert_eq!(interpret_response(&[]), Err(ExchangeError::NoResponse));
}

#[test]
fn success_response_yields_payload() {
    assert_eq!(interpret_response(&answer(0x00, &[1, 2, 3])), Ok(vec![1, 2, 3]));
    assert_eq!(interpret_response(&answer(0x00, &[])), Ok(vec![]));
}

#[test]
fn other_status_is_device_error() {
    assert_eq!(
        interpret_response(&answer(0x03, &[9])),
        Err(ExchangeError::DeviceError(Status::Locked))
    );
    assert_eq!(
        interpret_response(&answer(0x05, &[])),
        Err(ExchangeError::DeviceError(Status::InvalidPin))
    );
    assert_eq!(
        interpret_response(&answer(0xEE, &[])),
        Err(ExchangeError::DeviceError(Status::Error))
    );
}

#[test]
fn malformed_response_is_protocol_error() {
    assert_eq!(
        interpret_response(&[0xAA, 0x01]),
        Err(ExchangeError::ProtocolError(ParseError::FrameTooShort))
    );
    assert_eq!(
        interpret_response(&[0x00, 0x01, 0x00, 0x00, 0x20]),
        Err(ExchangeError::ProtocolError(ParseError::InvalidSof))
    );
    assert_eq!(
        interpret_response(&[0xAA, 0x09, 0x00, 0x00, 0x20]),
        Err(ExchangeError::ProtocolError(ParseError::IncompleteFrame))
    );
    assert_eq!(
        interpret_response(&[0xAA, 0x01, 0x00, 0x00, 0x21]),
        Err(ExchangeError::ProtocolError(ParseError::ChecksumMismatch))
    );
}

#[test]
fn receiver_finishes_on_a_frame_in_one_read() {
    let mut receiver = Receiver::new();
    let action = receiver.step(ReadEvent::Bytes(answer(0x00, &[7, 8])));
    assert_eq!(action, ReadAction::Finish(Ok(vec![7, 8])));
}

#[test]
fn receiver_collects_a_frame_across_reads() {
    let frame = answer(0x00, &[1, 2, 3, 4]);
    assert_eq!(frame.len(), 9);
    let mut receiver = Receiver::new();
    assert_eq!(receiver.step(ReadEvent::Bytes(frame[..1].to_vec())), ReadAction::ReadMore(4));
    assert_eq!(receiver.step(ReadEvent::Bytes(frame[1..2].to_vec())), ReadAction::ReadMore(7));
    assert_eq!(receiver.step(ReadEvent::Bytes(frame[2..6].to_vec())), ReadAction::ReadMore(3));
    assert_eq!(receiver.step(ReadEvent::Bytes(frame[6..8].to_vec())), ReadAction::ReadMore(1));
    assert_eq!(
        receiver.step(ReadEvent::Bytes(frame[8..].to_vec())),
        ReadAction::Finish(Ok(vec![1, 2, 3, 4]))
    );
}

#[test]
fn receiver_byte_by_byte_matches_single_read() {
    let frame = answer(0x04, &[0x11; 40]);
    let mut receiver = Receiver::new();
    let mut last = ReadAction::ReadMore(0);
    for (i, byte) in frame.iter().enumerate() {
        last = receiver.step(ReadEvent::Bytes(vec![*byte]));
        if i + 1 < frame.len() {
            assert!(matches!(last, ReadAction::ReadMore(_)));
        }
    }
    assert_eq!(last, ReadAction::Finish(Err(ExchangeError::DeviceError(Status::NeedConfirm))));
    assert_eq!(last, ReadAction::Finish(interpret_response(&frame)));
}

#[test]
fn receiver_times_out_with_nothing() {
    let mut receiver = Receiver::new();
    assert_eq!(receiver.step(ReadEvent::TimedOut), ReadAction::Finish(Err(ExchangeError::NoResponse)));
}

#[test]
fn receiver_empty_read_with_nothing_is_no_response() {
    let mut receiver = Receiver::new();
    assert_eq!(
        receiver.step(ReadEvent::Bytes(vec![])),
        ReadAction::Finish(Err(ExchangeError::NoResponse))
    );
}

#[test]
fn receiver_times_out_mid_frame() {
    let frame = answer(0x00, &[1, 2, 3, 4]);
    let mut receiver = Receiver::new();
    assert_eq!(receiver.step(ReadEvent::Bytes(frame[..3].to_vec())), ReadAction::ReadMore(6));
    assert_eq!(
        receiver.step(ReadEvent::TimedOut),
        ReadAction::Finish(Err(ExchangeError::ProtocolError(ParseError::FrameTooShort)))
    );
    let mut receiver = Receiver::new();
    assert_eq!(receiver.step(ReadEvent::Bytes(frame[..7].to_vec())), ReadAction::ReadMore(2));
    assert_eq!(
        receiver.step(ReadEvent::Bytes(vec![])),
        ReadAction::Finish(Err(ExchangeError::ProtocolError(ParseError::IncompleteFrame)))
    );
}

#[test]
fn receiver_reports_read_failure() {
    let mut receiver = Receiver::new();
    assert_eq!(receiver.step(ReadEvent::Bytes(vec![0xAA, 0x02])), ReadAction::ReadMore(4));
    assert_eq!(
        receiver.step(ReadEvent::Failed("device unplugged".to_string())),
        ReadAction::Finish(Err(ExchangeError::ReadError("device unplugged".to_string())))
    );
}

#[test]
fn receiver_settles_on_bad_sof_after_five_bytes() {
    let mut receiver = Receiver::new();
    assert_eq!(receiver.step(ReadEvent::Bytes(vec![0x00, 0xFF, 0x00])), ReadAction::ReadMore(2));
    assert_eq!(
        receiver.step(ReadEvent::Bytes(vec![0x00, 0x00])),
        ReadAction::Finish(Err(ExchangeError::ProtocolError(ParseError::InvalidSof)))
    );
}

#[test]
fn receiver_ignores_bytes_after_the_frame() {
    let mut bytes = answer(0x00, &[0x42]);
    bytes.extend_from_slice(&[1, 2, 3]);
    let mut receiver = Receiver::new();
    assert_eq!(receiver.step(ReadEvent::Bytes(bytes)), ReadAction::Finish(Ok(vec![0x42])));
}

#[test]
fn receiver_answers_a_built_request() {
    let request = build_frame(Command::Ping, &[]);
    assert_eq!(request.len(), 5);
    let mut receiver = Receiver::new();
    let reply = receiver.step(ReadEvent::Bytes(answer(Status::Success.code(), &[])));
    assert_eq!(reply, ReadAction::Finish(Ok(vec![])));
}

#[test]
fn substring_search() {
    assert!(contains_slice(b"/dev/ttyACM0", b"ttyACM"));
    assert!(contains_slice(b"abc", b""));
    assert!(contains_slice(b"", b""));
    assert!(contains_slice(b"abc", b"abc"));
    assert!(contains_slice(b"aab", b"ab"));
    assert!(contains_slice(b"xxCOM", b"COM"));
    assert!(!contains_slice(b"", b"a"));
    assert!(!contains_slice(b"ab", b"abc"));
    assert!(!contains_slice(b"COcoM", b"COM"));
    assert!(!contains_slice(b"ttyAC", b"ttyACM"));
}

#[test]
fn candidate_port_names() {
    assert!(is_candidate_port("COM3"));
    assert!(is_candidate_port("\\\\.\\COM12"));
    assert!(is_candidate_port("/dev/ttyACM0"));
    assert!(is_candidate_port("ttyACM"));
    assert!(is_candidate_port("/dev/tty\u{e9}COM"));
    assert!(!is_candidate_port("/dev/ttyUSB0"));
    assert!(!is_candidate_port("/dev/ttyS0"));
    assert!(!is_candidate_port("com3"));
    assert!(!is_candidate_port(""));
    assert!(!is_candidate_port("/dev/ttyacm0"));
}

#[test]
fn discovery_takes_the_first_candidate() {
    assert_eq!(
        find_device(&names(&["/dev/ttyS0", "/dev/ttyACM1", "/dev/ttyACM0", "COM1"])),
        Some("/dev/ttyACM1".to_string())
    );
    assert_eq!(find_device(&names(&["COM7"])), Some("COM7".to_string()));
}

#[test]
fn discovery_finds_nothing_without_candidates() {
    assert_eq!(find_device(&names(&[])), None);
    assert_eq!(find_device(&names(&["/dev/ttyS0", "/dev/ttyUSB0", "/dev/cu.usbmodem1"])), None);
}

#[test]
fn exchange_error_messages() {
    assert_eq!(ExchangeError::LockError.message(), "Lock error");
    assert_eq!(ExchangeError::NotConnected.message(), "Not connected");
    assert_eq!(ExchangeError::WriteError("broken pipe".to_string()).message(), "Write error: broken pipe");
    assert_eq!(ExchangeError::ReadError("timed out".to_string()).message(), "Read error: timed out");
    assert_eq!(ExchangeError::NoResponse.message(), "No response");
    assert_eq!(ExchangeError::ProtocolError(ParseError::FrameTooShort).message(), "Frame too short");
    assert_eq!(ExchangeError::ProtocolError(ParseError::InvalidSof).message(), "Invalid SOF");
    assert_eq!(ExchangeError::ProtocolError(ParseError::IncompleteFrame).message(), "Incomplete frame");
    assert_eq!(ExchangeError::ProtocolError(ParseError::ChecksumMismatch).message(), "CRC mismatch");
    assert_eq!(
        ExchangeError::DeviceError(Status::Locked).message(),
        "Device returned status: Locked"
    );
    assert_eq!(
        ExchangeError::DeviceError(Status::InvalidPin).message(),
        "Device returned status: InvalidPin"
    );
}

#[test]
fn connect_error_messages() {
    assert_eq!(ConnectError::DiscoveryFailed.message(), "Device not found");
    assert_eq!(ConnectError::LockError.message(), "Lock error");
    assert_eq!(
        ConnectError::PortOpenError("Permission denied".to_string()).message(),
        "Failed to open port: Permission denied"
    );
}
