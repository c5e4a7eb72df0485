//! Laws of the protocol, stated over the models that the contracts use.

use vstd::prelude::*;
use crate::protocol::{
    crc16_of, crc16_shift, crc16_shifts, crc16_update, crc_bytes, frame_body, frame_of,
    parse_outcome, Command, ParseError, Status, SOF,
};
use crate::commands::{sign_payload, MAX_ADDRESS_LEN};
use crate::encoding::le_bytes;
use crate::transport::{frame_target, is_settled, response_outcome};

verus! {

/// The checksum of no bytes is the initial register value.
pub proof fn crc16_of_nothing()
    ensures
        crc16_of(Seq::<u8>::empty()) == 0xFFFF,
{
}

/// Eight shifts, written out.
proof fn eight_shifts(reg: u16)
    ensures
        crc16_shifts(reg, 8) == crc16_shift(
            crc16_shift(
                crc16_shift(
                    crc16_shift(crc16_shift(crc16_shift(crc16_shift(crc16_shift(reg))))),
                ),
            ),
        ),
{
    reveal_with_fuel(crc16_shifts, 9);
}

/// The checksum of the bytes `01 02 03` is `0x6161`.
pub proof fn crc16_of_one_two_three()
    ensures
        crc16_of(seq![0x01u8, 0x02u8, 0x03u8]) == 0x6161,
{
    let one = seq![0x01u8];
    let two = seq![0x01u8, 0x02u8];
    let three = seq![0x01u8, 0x02u8, 0x03u8];
    assert(one.drop_last() =~= Seq::<u8>::empty());
    assert(two.drop_last() =~= one);
    assert(three.drop_last() =~= two);
    eight_shifts(0xFFFFu16 ^ 0x01u16);
    eight_shifts(0x807Eu16 ^ 0x02u16);
    eight_shifts(0xE181u16 ^ 0x03u16);
    assert(crc16_shift(
        crc16_shift(
            crc16_shift(
                crc16_shift(
                    crc16_shift(crc16_shift(crc16_shift(crc16_shift(0xFFFFu16 ^ 0x01u16)))),
                ),
            ),
        ),
    ) == 0x807E) by (bit_vector);
    assert(crc16_shift(
        crc16_shift(
            crc16_shift(
                crc16_shift(
                    crc16_shift(crc16_shift(crc16_shift(crc16_shift(0x807Eu16 ^ 0x02u16)))),
                ),
            ),
        ),
    ) == 0xE181) by (bit_vector);
    assert(crc16_shift(
        crc16_shift(
            crc16_shift(
                crc16_shift(
                    crc16_shift(crc16_shift(crc16_shift(crc16_shift(0xE181u16 ^ 0x03u16)))),
                ),
            ),
        ),
    ) == 0x6161) by (bit_vector);
    assert(crc16_of(Seq::<u8>::empty()) == 0xFFFF);
    assert(one.last() == 0x01 && two.last() == 0x02 && three.last() == 0x03);
    assert(crc16_of(one) == crc16_update(crc16_of(one.drop_last()), one.last()));
    assert(crc16_of(one) == crc16_update(0xFFFF, 0x01));
    assert(crc16_of(two) == crc16_update(crc16_of(one), 0x02));
    assert(crc16_of(three) == crc16_update(crc16_of(two), 0x03));
}

/// A built frame is the sentinel, the length byte, the code, the payload and
/// two checksum bytes, in this order and with nothing else.
pub proof fn frame_layout(code: u8, payload: Seq<u8>)
    ensures
        frame_of(code, payload).len() == payload.len() + 5,
        frame_of(code, payload)[0] == SOF,
        payload.len() < 255 ==> frame_of(code, payload)[1] == payload.len() + 1,
        frame_of(code, payload)[2] == code,
        frame_of(code, payload).subrange(3, payload.len() as int + 3) == payload,
        frame_of(code, payload).subrange(payload.len() as int + 3, payload.len() as int + 5)
            == crc_bytes(crc16_of(frame_of(code, payload).subrange(1, payload.len() as int + 3))),
{
    let frame = frame_of(code, payload);
    assert(frame.subrange(3, payload.len() as int + 3) =~= payload);
    assert(frame.subrange(1, payload.len() as int + 3) =~= frame_body(code, payload));
    assert(frame.subrange(payload.len() as int + 3, payload.len() as int + 5) =~= crc_bytes(
        crc16_of(frame_body(code, payload)),
    ));
}

/// The ping frame is exactly five bytes: the sentinel, a length of one, the
/// ping code and the two checksum bytes over `01 01`.
pub proof fn ping_frame_is_five_bytes()
    ensures
        frame_of(Command::Ping.wire_code(), Seq::<u8>::empty()).len() == 5,
        frame_of(Command::Ping.wire_code(), Seq::<u8>::empty()) == seq![0xAAu8, 0x01u8, 0x01u8]
            + crc_bytes(crc16_of(seq![0x01u8, 0x01u8])),
{
    let body = frame_body(Command::Ping.wire_code(), Seq::<u8>::empty());
    assert(body =~= seq![0x01u8, 0x01u8]);
    assert(frame_of(Command::Ping.wire_code(), Seq::<u8>::empty()) =~= seq![
        0xAAu8,
        0x01u8,
        0x01u8,
    ] + crc_bytes(crc16_of(seq![0x01u8, 0x01u8])));
}

/// Round trip: a frame built around a status byte and a payload of fewer
/// than 255 bytes parses to the status that byte stands for and to the same
/// payload. With the byte `0x00` the status is `Success`.
pub proof fn frame_round_trip(code: u8, payload: Seq<u8>)
    requires
        payload.len() < 255,
    ensures
        parse_outcome(frame_of(code, payload)) == Ok::<(Status, Seq<u8>), ParseError>(
            (Status::of_byte(code), payload),
        ),
        code == 0x00 ==> parse_outcome(frame_of(code, payload)) == Ok::<
            (Status, Seq<u8>),
            ParseError,
        >((Status::Success, payload)),
{
    let frame = frame_of(code, payload);
    let len = payload.len() as int + 1;
    let crc = crc16_of(frame_body(code, payload));
    assert(frame[1] as int == len);
    assert(frame.subrange(1, len + 2) =~= frame_body(code, payload));
    assert(frame.subrange(3, len + 2) =~= payload);
    assert(frame[len + 2] == crc_bytes(crc)[0]);
    assert(frame[len + 3] == crc_bytes(crc)[1]);
}

/// A request frame turned into a response: the command byte is overwritten
/// by a status byte and the checksum is computed anew.
pub open spec fn answered_with(frame: Seq<u8>, status: u8) -> Seq<u8> {
    let body = frame.subrange(1, frame.len() - 2).update(1, status);
    seq![SOF] + body + crc_bytes(crc16_of(body))
}

/// The response made from a built frame is the frame built around the
/// status byte, so for payloads of fewer than 255 bytes it parses to that
/// status and the payload; overwritten by `0x00` it parses to `Success`.
pub proof fn answered_frame_round_trip(command: u8, status: u8, payload: Seq<u8>)
    requires
        payload.len() < 255,
    ensures
        answered_with(frame_of(command, payload), status) == frame_of(status, payload),
        parse_outcome(answered_with(frame_of(command, payload), status)) == Ok::<
            (Status, Seq<u8>),
            ParseError,
        >((Status::of_byte(status), payload)),
        parse_outcome(answered_with(frame_of(command, payload), 0x00)) == Ok::<
            (Status, Seq<u8>),
            ParseError,
        >((Status::Success, payload)),
{
    let frame = frame_of(command, payload);
    assert(frame.subrange(1, frame.len() - 2) =~= frame_body(command, payload));
    assert(frame_body(command, payload).update(1, status) =~= frame_body(status, payload));
    assert(frame_body(command, payload).update(1, 0x00) =~= frame_body(0x00, payload));
    frame_round_trip(status, payload);
    frame_round_trip(0x00, payload);
}

/// Beyond 254 payload bytes the length byte no longer counts the payload:
/// whatever such a frame parses to, it is not the payload it was built from.
pub proof fn oversized_payload_is_not_recovered(code: u8, payload: Seq<u8>)
    requires
        payload.len() >= 255,
    ensures
        match parse_outcome(frame_of(code, payload)) {
            Ok((_, parsed)) => parsed.len() < 255 && parsed != payload,
            Err(_) => true,
        },
{
}

/// A buffer of at least five bytes that does not start with the sentinel is
/// rejected as `InvalidSof`, whatever else it holds.
pub proof fn missing_sof_is_rejected(frame: Seq<u8>)
    requires
        frame.len() >= 5,
        frame[0] != SOF,
    ensures
        parse_outcome(frame) == Err::<(Status, Seq<u8>), ParseError>(ParseError::InvalidSof),
{
}

/// A built frame whose first byte is replaced by anything but the sentinel
/// is rejected as `InvalidSof`, whatever its payload and whatever is done to
/// its checksum bytes.
pub proof fn corrupted_sof_is_rejected(code: u8, payload: Seq<u8>, first: u8, lo: u8, hi: u8)
    requires
        first != SOF,
    ensures
        parse_outcome(frame_of(code, payload).update(0, first)) == Err::<
            (Status, Seq<u8>),
            ParseError,
        >(ParseError::InvalidSof),
        parse_outcome(seq![first] + frame_body(code, payload) + seq![lo, hi]) == Err::<
            (Status, Seq<u8>),
            ParseError,
        >(ParseError::InvalidSof),
{
}

/// A frame with a valid sentinel and length byte whose two trailing bytes
/// are not the checksum of its contents is rejected as `ChecksumMismatch`.
pub proof fn wrong_checksum_is_rejected(code: u8, payload: Seq<u8>, lo: u8, hi: u8)
    requires
        payload.len() < 255,
        seq![lo, hi] != crc_bytes(crc16_of(frame_body(code, payload))),
    ensures
        parse_outcome(seq![SOF] + frame_body(code, payload) + seq![lo, hi]) == Err::<
            (Status, Seq<u8>),
            ParseError,
        >(ParseError::ChecksumMismatch),
{
    let frame = seq![SOF] + frame_body(code, payload) + seq![lo, hi];
    let len = payload.len() as int + 1;
    let crc = crc16_of(frame_body(code, payload));
    assert(frame[1] as int == len);
    assert(frame.subrange(1, len + 2) =~= frame_body(code, payload));
    assert(frame[len + 2] == lo);
    assert(frame[len + 3] == hi);
    if lo + 256 * hi == crc {
        assert(seq![lo, hi] =~= crc_bytes(crc));
    }
}

/// In particular, a frame whose two checksum bytes are inverted bit by bit is
/// rejected as `ChecksumMismatch`.
pub proof fn flipped_checksum_is_rejected(code: u8, payload: Seq<u8>)
    requires
        payload.len() < 255,
    ensures
        ({
            let good = crc_bytes(crc16_of(frame_body(code, payload)));
            parse_outcome(seq![SOF] + frame_body(code, payload) + seq![!good[0], !good[1]])
                == Err::<(Status, Seq<u8>), ParseError>(ParseError::ChecksumMismatch)
        }),
{
    let good = crc_bytes(crc16_of(frame_body(code, payload)));
    let lo = good[0];
    assert(!lo != lo) by (bit_vector);
    assert(seq![!good[0], !good[1]][0] != good[0]);
    wrong_checksum_is_rejected(code, payload, !good[0], !good[1]);
}

/// Once a buffer is settled, whatever is received after it changes neither
/// the verdict on the frame nor the result of the exchange.
pub proof fn settled_verdict_is_final(received: Seq<u8>, more: Seq<u8>)
    requires
        is_settled(received),
    ensures
        is_settled(received + more),
        parse_outcome(received + more) == parse_outcome(received),
        response_outcome(received + more) == response_outcome(received),
{
    let longer = received + more;
    let len = received[1] as int;
    assert(longer[0] == received[0]);
    assert(longer[1] == received[1]);
    assert(longer[2] == received[2]);
    if received[0] == SOF {
        assert(longer[len + 2] == received[len + 2]);
        assert(longer[len + 3] == received[len + 3]);
        assert(longer.subrange(1, len + 2) =~= received.subrange(1, len + 2));
        if len > 0 {
            assert(longer.subrange(3, len + 2) =~= received.subrange(3, len + 2));
        }
    }
}

/// A buffer that is not settled is never mistaken for a frame: it is judged
/// too short or incomplete.
pub proof fn unsettled_is_short_or_incomplete(received: Seq<u8>)
    requires
        !is_settled(received),
    ensures
        parse_outcome(received) == Err::<(Status, Seq<u8>), ParseError>(
            ParseError::FrameTooShort,
        ) || parse_outcome(received) == Err::<(Status, Seq<u8>), ParseError>(
            ParseError::IncompleteFrame,
        ),
{
}

/// Once the sentinel and the length byte are in, the target is fixed, and
/// fewer bytes than are missing leave the buffer unsettled.
pub proof fn too_few_bytes_settle_nothing(received: Seq<u8>, more: Seq<u8>)
    requires
        received.len() >= 2,
        received.len() + more.len() < frame_target(received),
    ensures
        frame_target(received + more) == frame_target(received),
        !is_settled(received + more),
{
    let longer = received + more;
    assert(longer[0] == received[0]);
    assert(longer[1] == received[1]);
}

/// Every status is read back from its own code.
pub proof fn status_code_round_trip(status: Status)
    ensures
        Status::of_byte(status.wire_code()) == status,
{
}

/// No byte but `0x00` is ever read as `Success`.
pub proof fn success_only_for_zero(byte: u8)
    ensures
        Status::of_byte(byte) == Status::Success <==> byte == 0x00,
{
}

/// No two commands share a code.
pub proof fn command_codes_are_distinct(a: Command, b: Command)
    ensures
        a.wire_code() == b.wire_code() ==> a == b,
{
}

/// A little-endian encoding has the width asked for.
pub proof fn le_bytes_has_width(value: nat, width: nat)
    ensures
        le_bytes(value, width).len() == width,
    decreases width,
{
    if width > 0 {
        le_bytes_has_width(value / 256, (width - 1) as nat);
    }
}

/// A signing request with an address of at most `MAX_ADDRESS_LEN` bytes has
/// 21 bytes before the address, carries the true address length in its
/// length field, and fits a frame whose length byte counts it faithfully.
pub proof fn sign_payload_fits_frame(account_index: u32, address: Seq<u8>, amount: u64, fee: u64)
    requires
        address.len() <= MAX_ADDRESS_LEN,
    ensures
        sign_payload(account_index, address, amount, fee).len() == 21 + address.len(),
        sign_payload(account_index, address, amount, fee).len() < 255,
        sign_payload(account_index, address, amount, fee)[20] == address.len(),
        sign_payload(account_index, address, amount, fee).subrange(
            21,
            21 + address.len() as int,
        ) == address,
{
    le_bytes_has_width(account_index as nat, 4);
    le_bytes_has_width(amount as nat, 8);
    le_bytes_has_width(fee as nat, 8);
    assert(sign_payload(account_index, address, amount, fee).subrange(
        21,
        21 + address.len() as int,
    ) =~= address);
}

} // verus!
