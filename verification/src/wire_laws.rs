//! What the layout of values and packets comes to, in plain numbers.
//!
//! These laws say what each byte on the wire is worth, and what becomes
//! of each byte, without going through the functions that write or read
//! it back.

use crate::display::{
    DISPLAY_DATA_CHUNK_SIZE, DISPLAY_DATA_LEN, DISPLAY_DATA_OFFSET, DISPLAY_HEIGHT,
    DISPLAY_NUM_CHUNKS, DISPLAY_WIDTH, MOD_DISPLAY,
};
use crate::error::{Error, ERR_NO_PROG, ERR_RC_ILLEGAL_VAL};
use crate::exchange::{Awaiting, Request};
use crate::laws::opcodes_are_read_back;
use crate::motor::{
    out_port_of, regulation_mode_of, run_state_of, OutMode, OutPort, RegulationMode, RunState,
    RUN_FOREVER,
};
use crate::nxt::{MAX_INBOX_ID, MAX_MESSAGE_LEN, MAX_NAME_LEN};
use crate::opcode::{opcode_of, Opcode};
use crate::protocol::{
    bad_text, filename_field, reads, status_result, truncated, Packet, PacketView, HEADER_LEN,
    MAX_FILENAME_LEN, MAX_PACKET_LEN,
};
use crate::sensor::{in_port_of, sensor_mode_of, sensor_type_of, InPort, SensorMode, SensorType};
use crate::system::{BufType, DeviceInfo, FindFileHandle, ModuleHandle};
use crate::wire::{
    bits_of_i16, bits_of_i32, byte_of_bool, byte_of_i8, i16_of_bits, i32_of_bits, i8_of_byte, le16,
    le32, lemma_until_nul, text_at, text_field, text_in, u16_at, u32_at, until_nul, zeros,
};
use vstd::prelude::*;
use vstd::std_specs::convert::{FromSpec, TryFromSpec};
use vstd::std_specs::ops::BitOrSpec;
use vstd::utf8::{decode_utf8, encode_utf8, valid_utf8};

verus! {

/// The first byte of a number weighs one, and each byte weighs 256 times
/// as much as the one before it.
pub proof fn numbers_are_little_endian(short: u16, long: u32)
    ensures
        le16(short).len() == 2,
        le16(short)[0] + 256 * le16(short)[1] == short,
        le32(long).len() == 4,
        le32(long)[0] + 256 * le32(long)[1] + 65536 * le32(long)[2] + 16777216 * le32(long)[3]
            == long,
{
}

/// Numbers are read with the same weights, wherever they stand.
pub proof fn numbers_are_read_little_endian(bytes: Seq<u8>, at: int)
    ensures
        u16_at(bytes, at) == bytes[at] + 256 * bytes[at + 1],
        u32_at(bytes, at) == bytes[at] + 256 * bytes[at + 1] + 65536 * bytes[at + 2] + 16777216
            * bytes[at + 3],
{
}

/// A signed number is written as itself, or plus the size of its field if
/// it is negative.
pub proof fn signed_numbers_are_twos_complement(a: i8, b: i16, c: i32)
    ensures
        byte_of_i8(a) == (if a >= 0 {
            a as int
        } else {
            a + 256
        }),
        bits_of_i16(b) == (if b >= 0 {
            b as int
        } else {
            b + 65536
        }),
        bits_of_i32(c) == (if c >= 0 {
            c as int
        } else {
            c + 4294967296
        }),
{
}

/// The lower half of the bit patterns are the numbers from zero on, and the
/// upper half are the negative numbers up to minus one.
pub proof fn signed_numbers_are_read_as_twos_complement(a: u8, b: u16, c: u32)
    ensures
        i8_of_byte(a) == (if a < 128 {
            a as int
        } else {
            a - 256
        }),
        i16_of_bits(b) == (if b < 32768 {
            b as int
        } else {
            b - 65536
        }),
        i32_of_bits(c) == (if c < 2147483648 {
            c as int
        } else {
            c - 4294967296
        }),
{
}

/// True is one and false is zero.
pub proof fn truth_values_are_one_and_zero()
    ensures
        byte_of_bool(true) == 1,
        byte_of_bool(false) == 0,
{
}

/// A text field is the UTF-8 of the text and then nothing but zero bytes,
/// at least one of them.
pub proof fn text_field_is_text_and_zeros(text: Seq<char>, max_len: int)
    requires
        encode_utf8(text).len() <= max_len,
    ensures
        text_field(text, max_len).len() == max_len + 1,
        text_field(text, max_len).take(encode_utf8(text).len() as int) == encode_utf8(text),
        forall|i: int|
            encode_utf8(text).len() <= i <= max_len
                ==> #[trigger] text_field(text, max_len)[i] == 0,
        max_len == 19 ==> filename_field(text) == text_field(text, max_len),
        forall|n: int, i: int| 0 <= i < n ==> zeros(n).len() == n && #[trigger] zeros(n)[i] == 0,
{
}

/// The text in a field is what the bytes before the first zero byte encode;
/// what follows that byte does not count.
pub proof fn text_ends_at_the_first_zero(bytes: Seq<u8>, at: int, len: int, end: int)
    requires
        0 <= at,
        0 <= end <= len,
        at + len <= bytes.len(),
        forall|i: int| at <= i < at + end ==> bytes[i] != 0,
        end < len ==> bytes[at + end] == 0,
    ensures
        until_nul(bytes.subrange(at, at + len)) == bytes.subrange(at, at + end),
        text_at(bytes, at, len) == text_in(bytes.subrange(at, at + len)),
        text_at(bytes, at, len) == (if valid_utf8(bytes.subrange(at, at + end)) {
            Some(decode_utf8(bytes.subrange(at, at + end)))
        } else {
            None
        }),
{
    let field = bytes.subrange(at, at + len);
    lemma_until_nul(field, end);
    assert(field.take(end) =~= bytes.subrange(at, at + end));
}

/// Output ports are the numbers that the brick knows them by; a byte that is
/// none of these is rejected.
pub proof fn out_port_codes(code: u8)
    ensures
        OutPort::A.code() == 0x00,
        OutPort::B.code() == 0x01,
        OutPort::C.code() == 0x02,
        OutPort::AB.code() == 0x03,
        OutPort::AC.code() == 0x04,
        OutPort::BC.code() == 0x05,
        OutPort::ABC.code() == 0x06,
        out_port_of(code) is None <==> code > 0x06,
        out_port_of(code) matches Some(value) ==> value.code() == code,
        <OutPort as TryFromSpec<u8>>::obeys_try_from_spec(),
        match <OutPort as TryFromSpec<u8>>::try_from_spec(code) {
            Ok(value) => value.code() == code,
            Err(error) => out_port_of(code) is None && error == Error::Parse("Invalid output port"),
        },
{
}

/// Regulation modes are the numbers that the brick knows them by; a byte that is
/// none of these is rejected.
pub proof fn regulation_mode_codes(code: u8)
    ensures
        RegulationMode::Idle.code() == 0x00,
        RegulationMode::Speed.code() == 0x01,
        RegulationMode::Sync.code() == 0x02,
        regulation_mode_of(code) is None <==> code > 0x02,
        regulation_mode_of(code) matches Some(value) ==> value.code() == code,
        <RegulationMode as TryFromSpec<u8>>::obeys_try_from_spec(),
        match <RegulationMode as TryFromSpec<u8>>::try_from_spec(code) {
            Ok(value) => value.code() == code,
            Err(error) => regulation_mode_of(code) is None && error == Error::Parse("Invalid regulation mode"),
        },
{
}

/// Run states are the numbers that the brick knows them by; a byte that is
/// none of these is rejected.
pub proof fn run_state_codes(code: u8)
    ensures
        RunState::Idle.code() == 0x00,
        RunState::RampUp.code() == 0x10,
        RunState::Running.code() == 0x20,
        RunState::RampDown.code() == 0x40,
        run_state_of(code) is None <==> code != 0x00 && code != 0x10 && code != 0x20 && code != 0x40,
        run_state_of(code) matches Some(value) ==> value.code() == code,
        <RunState as TryFromSpec<u8>>::obeys_try_from_spec(),
        match <RunState as TryFromSpec<u8>>::try_from_spec(code) {
            Ok(value) => value.code() == code,
            Err(error) => run_state_of(code) is None && error == Error::Parse("Invalid run state"),
        },
{
}

/// Input ports are the numbers that the brick knows them by; a byte that is
/// none of these is rejected.
pub proof fn in_port_codes(code: u8)
    ensures
        InPort::S1.code() == 0x00,
        InPort::S2.code() == 0x01,
        InPort::S3.code() == 0x02,
        InPort::S4.code() == 0x03,
        in_port_of(code) is None <==> code > 0x03,
        in_port_of(code) matches Some(value) ==> value.code() == code,
        <InPort as TryFromSpec<u8>>::obeys_try_from_spec(),
        match <InPort as TryFromSpec<u8>>::try_from_spec(code) {
            Ok(value) => value.code() == code,
            Err(error) => in_port_of(code) is None && error == Error::Parse("Invalid input port"),
        },
{
}

/// Sensor types are the numbers that the brick knows them by; a byte that is
/// none of these is rejected.
pub proof fn sensor_type_codes(code: u8)
    ensures
        SensorType::NoSensor.code() == 0x00,
        SensorType::Switch.code() == 0x01,
        SensorType::Temperature.code() == 0x02,
        SensorType::Reflection.code() == 0x03,
        SensorType::Angle.code() == 0x04,
        SensorType::LightActive.code() == 0x05,
        SensorType::LightInactive.code() == 0x06,
        SensorType::SoundDb.code() == 0x07,
        SensorType::SoundDba.code() == 0x08,
        SensorType::Custom.code() == 0x09,
        SensorType::LowSpeed.code() == 0x0a,
        SensorType::LowSpeed9V.code() == 0x0b,
        SensorType::HighSpeed.code() == 0x0c,
        SensorType::ColourFull.code() == 0x0d,
        SensorType::ColourRed.code() == 0x0e,
        SensorType::ColourGreen.code() == 0x0f,
        SensorType::ColourBlue.code() == 0x10,
        SensorType::ColourNone.code() == 0x11,
        sensor_type_of(code) is None <==> code > 0x11,
        sensor_type_of(code) matches Some(value) ==> value.code() == code,
        <SensorType as TryFromSpec<u8>>::obeys_try_from_spec(),
        match <SensorType as TryFromSpec<u8>>::try_from_spec(code) {
            Ok(value) => value.code() == code,
            Err(error) => sensor_type_of(code) is None && error == Error::Parse("Invalid sensor type"),
        },
{
}

/// Sensor modes are the numbers that the brick knows them by; a byte that is
/// none of these is rejected.
pub proof fn sensor_mode_codes(code: u8)
    ensures
        SensorMode::Raw.code() == 0x00,
        SensorMode::Bool.code() == 0x20,
        SensorMode::TransitionCount.code() == 0x40,
        SensorMode::PeriodCount.code() == 0x60,
        SensorMode::PctFullScale.code() == 0x80,
        SensorMode::Celsius.code() == 0xa0,
        SensorMode::Fahrenheit.code() == 0xc0,
        SensorMode::AngleSteps.code() == 0xe0,
        sensor_mode_of(code) is None <==> code % 0x20 != 0,
        sensor_mode_of(code) matches Some(value) ==> value.code() == code,
        <SensorMode as TryFromSpec<u8>>::obeys_try_from_spec(),
        match <SensorMode as TryFromSpec<u8>>::try_from_spec(code) {
            Ok(value) => value.code() == code,
            Err(error) => sensor_mode_of(code) is None && error == Error::Parse("Invalid sensor mode"),
        },
{
}

/// Commands are the numbers that the brick knows them by. Direct commands
/// open with zero and system commands with one; a byte that is no command
/// is rejected.
pub proof fn command_codes(opcode: Opcode, code: u8)
    ensures
        Opcode::DirectStartProgram.code() == 0x00,
        Opcode::DirectStopProgram.code() == 0x01,
        Opcode::DirectPlaySoundFile.code() == 0x02,
        Opcode::DirectPlayTone.code() == 0x03,
        Opcode::DirectSetOutState.code() == 0x04,
        Opcode::DirectSetInMode.code() == 0x05,
        Opcode::DirectGetOutState.code() == 0x06,
        Opcode::DirectGetInVals.code() == 0x07,
        Opcode::DirectResetInVal.code() == 0x08,
        Opcode::DirectMessageWrite.code() == 0x09,
        Opcode::DirectResetPosition.code() == 0x0a,
        Opcode::DirectGetBattLevel.code() == 0x0b,
        Opcode::DirectStopSound.code() == 0x0c,
        Opcode::DirectKeepAlive.code() == 0x0d,
        Opcode::DirectLsGetStatus.code() == 0x0e,
        Opcode::DirectLsWrite.code() == 0x0f,
        Opcode::DirectLsRead.code() == 0x10,
        Opcode::DirectGetCurrProgram.code() == 0x11,
        Opcode::DirectMessageRead.code() == 0x13,
        Opcode::SystemOpenread.code() == 0x80,
        Opcode::SystemOpenwrite.code() == 0x81,
        Opcode::SystemRead.code() == 0x82,
        Opcode::SystemWrite.code() == 0x83,
        Opcode::SystemClose.code() == 0x84,
        Opcode::SystemDelete.code() == 0x85,
        Opcode::SystemFindfirst.code() == 0x86,
        Opcode::SystemFindnext.code() == 0x87,
        Opcode::SystemVersions.code() == 0x88,
        Opcode::SystemOpenwritelinear.code() == 0x89,
        Opcode::SystemOpenreadlinear.code() == 0x8a,
        Opcode::SystemOpenwritedata.code() == 0x8b,
        Opcode::SystemOpenappenddata.code() == 0x8c,
        Opcode::SystemFindfirstmodule.code() == 0x90,
        Opcode::SystemFindnextmodule.code() == 0x91,
        Opcode::SystemClosemodhandle.code() == 0x92,
        Opcode::SystemIomapread.code() == 0x94,
        Opcode::SystemIomapwrite.code() == 0x95,
        Opcode::SystemBootcmd.code() == 0x97,
        Opcode::SystemSetbrickname.code() == 0x98,
        Opcode::SystemBtgetaddr.code() == 0x9a,
        Opcode::SystemDeviceinfo.code() == 0x9b,
        Opcode::SystemDeleteuserflash.code() == 0xa0,
        Opcode::SystemPollcmdlen.code() == 0xa1,
        Opcode::SystemPollcmd.code() == 0xa2,
        Opcode::SystemBtfactoryreset.code() == 0xa4,
        opcode.command_type() == (if opcode.code() < 0x80 {
            0x00u8
        } else {
            0x01u8
        }),
        opcode_of(opcode.code()) == Some(opcode),
        opcode_of(code) matches Some(value) ==> value.code() == code,
        <Opcode as TryFromSpec<u8>>::obeys_try_from_spec(),
        match <Opcode as TryFromSpec<u8>>::try_from_spec(code) {
            Ok(value) => value.code() == code,
            Err(error) => opcode_of(code) is None && error == Error::Parse("Invalid opcode"),
        },
{
}

/// The limits of the brick and of the link, and the numbers that stand for
/// its refusals.
pub proof fn limits()
    ensures
        MAX_PACKET_LEN == 64,
        HEADER_LEN == 2,
        MAX_FILENAME_LEN == 19,
        MAX_NAME_LEN == 15,
        MAX_MESSAGE_LEN == 58,
        MAX_INBOX_ID == 19,
        DISPLAY_WIDTH == 100,
        DISPLAY_HEIGHT == 64,
        DISPLAY_DATA_LEN == 800,
        DISPLAY_DATA_OFFSET == 119,
        DISPLAY_DATA_CHUNK_SIZE == 32,
        DISPLAY_NUM_CHUNKS == 25,
        MOD_DISPLAY == 0xa0001,
        RUN_FOREVER == 0,
        ERR_RC_ILLEGAL_VAL == 0xc0,
        ERR_NO_PROG == 0xec,
{
}

/// The USB buffers are the numbers that the brick knows them by.
pub proof fn buffer_codes()
    ensures
        BufType::Poll.code() == 0x00,
        BufType::HighSpeed.code() == 0x01,
{
}

/// Combined mode flags have exactly the bits of their parts, and a mode
/// byte of the brick is taken as it is.
pub proof fn mode_flags_are_bits(a: OutMode, b: OutMode, bits: u8)
    ensures
        <OutMode as BitOrSpec<OutMode>>::obeys_bitor_spec(),
        <OutMode as BitOrSpec<OutMode>>::bitor_req(a, b),
        <OutMode as BitOrSpec<OutMode>>::bitor_spec(a, b).0 == a.0 | b.0,
        <OutMode as FromSpec<u8>>::obeys_from_spec(),
        <OutMode as FromSpec<u8>>::from_spec(bits).0 == bits,
{
}

/// The view of a record has the same fields as the record.
pub proof fn record_views_are_faithful(f: FindFileHandle, m: ModuleHandle, d: DeviceInfo)
    ensures
        f@.handle == f.handle,
        f@.name == f.name@,
        f@.len == f.len,
        m@.handle == m.handle,
        m@.name == m.name@,
        m@.id == m.id,
        m@.len == m.len,
        m@.iomap_len == m.iomap_len,
        d@.name == d.name@,
        d@.bt_addr == d.bt_addr@,
        d@.signal_strength == d.signal_strength,
        d@.flash == d.flash,
{
}

/// Bytes are added at the end of the payload and taken from where the last
/// read ended; neither touches anything else.
pub proof fn packets_are_written_and_read_in_order(pkt: PacketView, bytes: Seq<u8>, count: int)
    requires
        0 <= pkt.pos <= pkt.data.len(),
    ensures
        pkt.push(bytes).opcode == pkt.opcode,
        pkt.push(bytes).data == pkt.data + bytes,
        pkt.push(bytes).pos == pkt.pos,
        pkt.advance(count).opcode == pkt.opcode,
        pkt.advance(count).data == pkt.data,
        pkt.advance(count).pos == pkt.pos + count,
        pkt.unread() == pkt.data.subrange(pkt.pos, pkt.data.len() as int),
        pkt.has(count) <==> count <= pkt.data.len() - pkt.pos,
{
    assert(pkt.unread() =~= pkt.data.subrange(pkt.pos, pkt.data.len() as int));
}

/// A read takes exactly its bytes if they are there, and otherwise fails
/// and takes nothing.
pub proof fn reads_are_all_or_nothing<T>(
    before: PacketView,
    after: PacketView,
    count: int,
    r: Result<T, Error>,
    value: T,
)
    requires
        reads(before, after, count, r, value),
    ensures
        after.opcode == before.opcode,
        after.data == before.data,
        count <= before.data.len() - before.pos ==> r == Ok::<T, Error>(value) && after.pos
            == before.pos + count,
        count > before.data.len() - before.pos ==> r == Err::<T, Error>(
            Error::Parse("Unexpected end of packet"),
        ) && after.pos == before.pos,
{
}

/// What the errors that replies give rise to look like.
pub proof fn reply_errors(status: u8)
    ensures
        truncated() == Error::Parse("Unexpected end of packet"),
        bad_text() == Error::Parse("Invalid UTF-8"),
        status_result(0) == Ok::<(), Error>(()),
        status != 0 ==> status_result(status) == Err::<(), Error>(Error::Status(status)),
{
}

/// A request is the two header bytes and the payload, byte for byte, if
/// that is no more than 64 bytes; otherwise there is no request.
pub proof fn request_carries_the_payload_unchanged(pkt: &Packet, r: Result<Request, Error>)
    requires
        call_ensures(Request::send, (pkt,), r),
    ensures
        pkt@.data.len() <= 62 ==> {
            &&& r matches Ok(req)
            &&& req@.opcode == pkt@.opcode
            &&& req@.bytes.len() == pkt@.data.len() + 2
            &&& req@.bytes[0] == (if pkt@.opcode.code() < 0x80 {
                0x00u8
            } else {
                0x01u8
            })
            &&& req@.bytes[1] == pkt@.opcode.code()
            &&& forall|i: int|
                0 <= i < pkt@.data.len() ==> req@.bytes[i + 2] == #[trigger] pkt@.data[i]
        },
        pkt@.data.len() > 62 ==> r == Err::<Request, Error>(Error::Serialise("Packet too long")),
{
}

/// The bytes of a packet are the same as those of its request.
pub proof fn packet_bytes_are_unchanged(pkt: &Packet, r: Result<Vec<u8>, Error>)
    requires
        call_ensures(Packet::serialise, (pkt,), r),
    ensures
        pkt@.data.len() <= 62 ==> {
            &&& r matches Ok(bytes)
            &&& bytes@.len() == pkt@.data.len() + 2
            &&& bytes@[0] == (if pkt@.opcode.code() < 0x80 {
                0x00u8
            } else {
                0x01u8
            })
            &&& bytes@[1] == pkt@.opcode.code()
            &&& forall|i: int|
                0 <= i < pkt@.data.len() ==> bytes@[i + 2] == #[trigger] pkt@.data[i]
        },
        pkt@.data.len() > 62 ==> r == Err::<Vec<u8>, Error>(Error::Serialise("Packet too long")),
{
}

/// The link is handed the bytes of the request, and has to take as many as
/// there are; then the reply to that same command is awaited.
pub proof fn all_of_a_request_must_be_taken(
    req: Request,
    bytes: &[u8],
    written: usize,
    r: Result<Awaiting, Error>,
)
    requires
        call_ensures(Request::bytes, (&req,), bytes),
        call_ensures(Request::sent, (req, written), r),
    ensures
        bytes@ == req@.bytes,
        written == bytes@.len() ==> (r matches Ok(awaiting) && awaiting@ == req@.opcode),
        written != bytes@.len() ==> r == Err::<Awaiting, Error>(Error::Write),
{
}

/// A received packet is split after its two header bytes.
pub proof fn packets_are_split_after_the_header(buf: &[u8], r: Result<Packet, Error>)
    requires
        call_ensures(Packet::parse, (buf,), r),
    ensures
        buf@.len() < 2 ==> r == Err::<Packet, Error>(Error::Parse("Unexpected end of packet")),
        buf@.len() >= 2 && buf@[0] != 0x02 ==> r == Err::<Packet, Error>(
            Error::Parse("Not a reply packet"),
        ),
        buf@.len() >= 2 && buf@[0] == 0x02 && opcode_of(buf@[1]) is None ==> r == Err::<
            Packet,
            Error,
        >(Error::Parse("Invalid opcode")),
        buf@.len() >= 2 && buf@[0] == 0x02 && opcode_of(buf@[1]) is Some ==> {
            &&& r matches Ok(pkt)
            &&& pkt.wf()
            &&& pkt@.opcode.code() == buf@[1]
            &&& pkt@.pos == 0
            &&& pkt@.data == buf@.subrange(2, buf@.len() as int)
        },
{
    if buf@.len() >= 2 {
        assert(buf@.skip(2) =~= buf@.subrange(2, buf@.len() as int));
    }
}

/// What is awaited is a packet that starts with two, the code of the
/// command and zero; the data is then everything after these, byte for
/// byte. Whatever is wrong first decides on the error.
pub proof fn reply_data_arrives_unchanged(awaiting: Awaiting, buf: &[u8], r: Result<Packet, Error>)
    requires
        call_ensures(Awaiting::recv, (awaiting, buf), r),
    ensures
        ({
            let b = buf@;
            if b.len() < 2 {
                r == Err::<Packet, Error>(Error::Parse("Unexpected end of packet"))
            } else if b[0] != 0x02 {
                r == Err::<Packet, Error>(Error::Parse("Not a reply packet"))
            } else if opcode_of(b[1]) is None {
                r == Err::<Packet, Error>(Error::Parse("Invalid opcode"))
            } else if b.len() < 3 {
                r == Err::<Packet, Error>(Error::Parse("Unexpected end of packet"))
            } else if b[2] != 0 {
                r == Err::<Packet, Error>(Error::Status(b[2]))
            } else if b[1] != awaiting@.code() {
                r == Err::<Packet, Error>(Error::ReplyMismatch)
            } else {
                &&& r matches Ok(reply)
                &&& reply.wf()
                &&& reply@.unread().len() == b.len() - 3
                &&& forall|i: int|
                    0 <= i < b.len() - 3 ==> #[trigger] reply@.unread()[i] == b[i + 3]
            }
        }),
{
    opcodes_are_read_back(awaiting@, buf@[1]);
}

} // verus!
