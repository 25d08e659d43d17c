//! What holds of the library as a whole.
//!
//! The laws are stated over the same functions as the contracts: the
//! layout of values ([`crate::wire`]), of commands
//! ([`crate::protocol::command_bytes`]), of answers
//! ([`crate::exchange::reply_payload`]) and of the data in a reply
//! ([`crate::reply`]).

use crate::display::{
    DISPLAY_DATA_CHUNK_SIZE, DISPLAY_DATA_LEN, DISPLAY_DATA_OFFSET, DISPLAY_HEIGHT,
    DISPLAY_NUM_CHUNKS, DISPLAY_WIDTH,
};
use crate::error::Error;
use crate::exchange::{reply_payload, sends_if_fits, Request};
use crate::motor::{
    out_port_of, regulation_mode_of, run_state_of, OutPort, OutputState, RegulationMode, RunState,
};
use crate::nxt::MAX_NAME_LEN;
use crate::opcode::{opcode_of, Opcode, REPLY};
use crate::protocol::{command_bytes, filename_field, MAX_FILENAME_LEN, MAX_PACKET_LEN};
use crate::reply::{
    counted_run, device_info, file_handle, firmware_version, found_file, found_module, input_values,
    long_counted_run, output_state,
};
use crate::sensor::{
    in_port_of, sensor_mode_of, sensor_type_of, InPort, InputValues, SensorMode, SensorType,
};
use crate::system::{DeviceInfoView, FileHandle, FindFileView, FwVersion, ModuleView};
use crate::wire::{
    bits_of_i16, bits_of_i32, byte_of_bool, byte_of_i8, i16_of_bits, i32_of_bits, i8_of_byte, le16,
    le32, lemma_until_nul, text_at, text_field, text_in, u16_at, u32_at, zeros,
};
use vstd::prelude::*;
use vstd::utf8::{
    char_is_scalar, encode_scalar, encode_utf8, encode_utf8_decode_utf8, encode_utf8_valid_utf8,
};

verus! {

/// A 16-bit number is read back as it was written.
pub proof fn u16_is_read_back(before: Seq<u8>, value: u16, after: Seq<u8>)
    ensures
        u16_at(before + le16(value) + after, before.len() as int) == value,
{
}

/// A 32-bit number is read back as it was written.
pub proof fn u32_is_read_back(before: Seq<u8>, value: u32, after: Seq<u8>)
    ensures
        u32_at(before + le32(value) + after, before.len() as int) == value,
{
}

/// Signed numbers and truth values are read back as they were written.
pub proof fn signed_values_are_read_back(a: i8, b: i16, c: i32, d: bool)
    ensures
        i8_of_byte(byte_of_i8(a)) == a,
        i16_of_bits(bits_of_i16(b)) == b,
        i32_of_bits(bits_of_i32(c)) == c,
        (byte_of_bool(d) != 0) == d,
{
}

/// Each command has a code of its own, from which it is found again.
pub proof fn opcodes_are_read_back(opcode: Opcode, code: u8)
    ensures
        opcode_of(opcode.code()) == Some(opcode),
        opcode_of(code) == Some(opcode) ==> opcode.code() == code,
{
}

/// Each port and motor setting has a code of its own, from which it is
/// found again.
pub proof fn motor_codes_are_read_back(
    port: OutPort,
    regulation_mode: RegulationMode,
    run_state: RunState,
    code: u8,
)
    ensures
        out_port_of(port.code()) == Some(port),
        out_port_of(code) == Some(port) ==> port.code() == code,
        regulation_mode_of(regulation_mode.code()) == Some(regulation_mode),
        regulation_mode_of(code) == Some(regulation_mode) ==> regulation_mode.code() == code,
        run_state_of(run_state.code()) == Some(run_state),
        run_state_of(code) == Some(run_state) ==> run_state.code() == code,
{
}

/// Each port and sensor setting has a code of its own, from which it is
/// found again.
pub proof fn sensor_codes_are_read_back(
    port: InPort,
    sensor_type: SensorType,
    sensor_mode: SensorMode,
    code: u8,
)
    ensures
        in_port_of(port.code()) == Some(port),
        in_port_of(code) == Some(port) ==> port.code() == code,
        sensor_type_of(sensor_type.code()) == Some(sensor_type),
        sensor_type_of(code) == Some(sensor_type) ==> sensor_type.code() == code,
        sensor_mode_of(sensor_mode.code()) == Some(sensor_mode),
        sensor_mode_of(code) == Some(sensor_mode) ==> sensor_mode.code() == code,
{
}

/// Different commands, or different payloads, are never sent as the same
/// bytes.
pub proof fn commands_are_unambiguous(a: Opcode, p: Seq<u8>, b: Opcode, q: Seq<u8>)
    requires
        command_bytes(a, p) == command_bytes(b, q),
    ensures
        a == b,
        p == q,
{
    let bytes = command_bytes(a, p);
    assert(bytes[1] == a.code());
    assert(command_bytes(b, q)[1] == b.code());
    opcodes_are_read_back(a, a.code());
    opcodes_are_read_back(b, b.code());
    assert(bytes.skip(2) =~= p);
    assert(command_bytes(b, q).skip(2) =~= q);
}

/// Whatever is sent fits into a packet.
pub proof fn requests_fit_into_a_packet(r: Result<Request, Error>, opcode: Opcode, payload: Seq<u8>)
    requires
        sends_if_fits(r, opcode, payload),
        r is Ok,
    ensures
        r->Ok_0@.bytes.len() <= MAX_PACKET_LEN,
{
}

/// The bytes with which the brick answers a command.
pub open spec fn answer_bytes(opcode: Opcode, status: u8, payload: Seq<u8>) -> Seq<u8> {
    seq![REPLY, opcode.code(), status] + payload
}

/// A command succeeds on its own reply with status zero, and the data of
/// the reply arrives unchanged.
pub proof fn accepted_command_gets_payload(opcode: Opcode, payload: Seq<u8>)
    ensures
        reply_payload(opcode, answer_bytes(opcode, 0, payload)) == Ok::<Seq<u8>, Error>(payload),
{
    let bytes = answer_bytes(opcode, 0, payload);
    opcodes_are_read_back(opcode, opcode.code());
    assert(bytes.skip(2).skip(1) =~= payload);
}

/// There is no other way for a command to succeed.
pub proof fn success_needs_own_reply(opcode: Opcode, bytes: Seq<u8>)
    requires
        reply_payload(opcode, bytes) is Ok,
    ensures
        bytes == answer_bytes(opcode, 0, reply_payload(opcode, bytes)->Ok_0),
{
    opcodes_are_read_back(opcode, bytes[1]);
    assert(bytes =~= answer_bytes(opcode, 0, bytes.skip(2).skip(1)));
}

/// A refused command fails with the status that the brick gave, whatever
/// else the answer holds and whichever command it names.
pub proof fn refused_command_gets_status(
    opcode: Opcode,
    answered: Opcode,
    status: u8,
    payload: Seq<u8>,
)
    requires
        status != 0,
    ensures
        reply_payload(opcode, answer_bytes(answered, status, payload)) == Err::<Seq<u8>, Error>(
            Error::Status(status),
        ),
{
    opcodes_are_read_back(answered, answered.code());
    assert(answer_bytes(answered, status, payload).skip(2)[0] == status);
}

/// The reply to another command is never taken for one's own.
pub proof fn stray_reply_is_a_mismatch(opcode: Opcode, answered: Opcode, payload: Seq<u8>)
    requires
        answered != opcode,
    ensures
        reply_payload(opcode, answer_bytes(answered, 0, payload)) == Err::<Seq<u8>, Error>(
            Error::ReplyMismatch,
        ),
{
    opcodes_are_read_back(answered, answered.code());
    assert(answer_bytes(answered, 0, payload).skip(2)[0] == 0);
}

/// Only the null character has a zero byte in its encoding.
proof fn lemma_scalar_has_no_zero(c: char)
    requires
        c != '\0',
    ensures
        forall|i: int|
            0 <= i < encode_scalar(c as u32).len() ==> #[trigger] encode_scalar(c as u32)[i] != 0,
{
    let v = c as u32;
    char_is_scalar(c);
    assert(v != 0);
    assert(0 < v <= 0x7f ==> (v & 0x7f) as u8 != 0) by (bit_vector);
    assert(0xc0u8 | ((v >> 6) & 0x1f) as u8 != 0) by (bit_vector);
    assert(0xe0u8 | ((v >> 12) & 0x0f) as u8 != 0) by (bit_vector);
    assert(0xf0u8 | ((v >> 18) & 0x7) as u8 != 0) by (bit_vector);
    assert(0x80u8 | (v & 0x3f) as u8 != 0) by (bit_vector);
    assert(0x80u8 | ((v >> 6) & 0x3f) as u8 != 0) by (bit_vector);
    assert(0x80u8 | ((v >> 12) & 0x3f) as u8 != 0) by (bit_vector);
}

/// Text without the null character has no zero byte in its encoding.
proof fn lemma_text_has_no_zero(text: Seq<char>)
    requires
        !text.contains('\0'),
    ensures
        forall|i: int| 0 <= i < encode_utf8(text).len() ==> #[trigger] encode_utf8(text)[i] != 0,
    decreases text.len(),
{
    if text.len() > 0 {
        lemma_scalar_has_no_zero(text[0]);
        let rest = text.drop_first();
        assert(!rest.contains('\0')) by {
            if rest.contains('\0') {
                let i = choose|i: int| 0 <= i < rest.len() && rest[i] == '\0';
                assert(text[i + 1] == '\0');
            }
        }
        lemma_text_has_no_zero(rest);
        let head = encode_scalar(text[0] as u32);
        let tail = encode_utf8(rest);
        assert(encode_utf8(text) == head + tail);
        assert forall|i: int| 0 <= i < encode_utf8(text).len() implies #[trigger] encode_utf8(
            text,
        )[i] != 0 by {
            if i < head.len() {
                assert(head[i] != 0);
            } else {
                assert(tail[i - head.len()] != 0);
            }
        }
    }
}

/// Text that is filled up with zero bytes is read back, as long as the
/// null character does not occur in it.
pub proof fn text_is_read_back(text: Seq<char>, padding: int)
    requires
        !text.contains('\0'),
        0 <= padding,
    ensures
        text_in(encode_utf8(text) + zeros(padding)) == Some(text),
{
    let field = encode_utf8(text) + zeros(padding);
    let end = encode_utf8(text).len() as int;
    lemma_text_has_no_zero(text);
    lemma_until_nul(field, end);
    assert(field.take(end) =~= encode_utf8(text));
    encode_utf8_valid_utf8(text);
    encode_utf8_decode_utf8(text);
}

/// Where a command holds a file name, a reply with the same field holds
/// the same file name.
pub proof fn filename_is_read_back(before: Seq<u8>, name: Seq<char>, after: Seq<u8>)
    requires
        !name.contains('\0'),
        encode_utf8(name).len() <= MAX_FILENAME_LEN,
    ensures
        filename_field(name).len() == MAX_FILENAME_LEN + 1,
        text_at(
            before + filename_field(name) + after,
            before.len() as int,
            MAX_FILENAME_LEN + 1,
        ) == Some(name),
{
    let field = filename_field(name);
    let d = before + field + after;
    assert(d.subrange(before.len() as int, (before.len() + field.len()) as int) =~= field);
    text_is_read_back(name, MAX_FILENAME_LEN + 1 - encode_utf8(name).len());
}

/// The data of the reply that reports an output state.
pub open spec fn output_state_bytes(s: OutputState) -> Seq<u8> {
    seq![
        s.port.code(),
        byte_of_i8(s.power),
        s.mode.0,
        s.regulation_mode.code(),
        byte_of_i8(s.turn_ratio),
        s.run_state.code(),
    ] + le32(s.tacho_limit) + le32(bits_of_i32(s.tacho_count)) + le32(
        bits_of_i32(s.block_tacho_count),
    ) + le32(bits_of_i32(s.rotation_count))
}

/// Every output state is read from the reply that reports it.
pub proof fn output_state_is_read_back(s: OutputState, rest: Seq<u8>)
    ensures
        output_state(output_state_bytes(s) + rest) == Ok::<OutputState, Error>(s),
{
    let head = seq![
        s.port.code(),
        byte_of_i8(s.power),
        s.mode.0,
        s.regulation_mode.code(),
        byte_of_i8(s.turn_ratio),
        s.run_state.code(),
    ];
    let limit = le32(s.tacho_limit);
    let count = le32(bits_of_i32(s.tacho_count));
    let block = le32(bits_of_i32(s.block_tacho_count));
    let rotation = le32(bits_of_i32(s.rotation_count));
    let d = output_state_bytes(s) + rest;
    motor_codes_are_read_back(s.port, s.regulation_mode, s.run_state, 0);
    assert(u32_at(d, 6) == s.tacho_limit) by {
        assert(d =~= head + limit + (count + block + rotation + rest));
        u32_is_read_back(head, s.tacho_limit, count + block + rotation + rest);
    }
    assert(u32_at(d, 10) == bits_of_i32(s.tacho_count)) by {
        assert(d =~= (head + limit) + count + (block + rotation + rest));
        u32_is_read_back(head + limit, bits_of_i32(s.tacho_count), block + rotation + rest);
    }
    assert(u32_at(d, 14) == bits_of_i32(s.block_tacho_count)) by {
        assert(d =~= (head + limit + count) + block + (rotation + rest));
        u32_is_read_back(head + limit + count, bits_of_i32(s.block_tacho_count), rotation + rest);
    }
    assert(u32_at(d, 18) == bits_of_i32(s.rotation_count)) by {
        u32_is_read_back(head + limit + count + block, bits_of_i32(s.rotation_count), rest);
    }
    assert(d.len() >= 22);
    assert(d.take(6) =~= head);
    assert forall|i: int| 0 <= i < 6 implies d[i] == head[i] by {
        assert(d.take(6)[i] == d[i]);
    }
}

/// The data of the reply that reports an input reading.
pub open spec fn input_values_bytes(v: InputValues) -> Seq<u8> {
    seq![
        v.port.code(),
        byte_of_bool(v.valid),
        byte_of_bool(v.calibrated),
        v.sensor_type.code(),
        v.sensor_mode.code(),
    ] + le16(v.raw_value) + le16(v.normalised_value) + le16(bits_of_i16(v.scaled_value)) + le16(
        bits_of_i16(v.calibrated_value),
    )
}

/// Every input reading is read from the reply that reports it.
pub proof fn input_values_are_read_back(v: InputValues, rest: Seq<u8>)
    ensures
        input_values(input_values_bytes(v) + rest) == Ok::<InputValues, Error>(v),
{
    sensor_codes_are_read_back(v.port, v.sensor_type, v.sensor_mode, 0);
}

/// Every pair of versions is read from the reply that reports it.
pub proof fn firmware_version_is_read_back(v: FwVersion, rest: Seq<u8>)
    ensures
        firmware_version(seq![v.prot.1, v.prot.0, v.fw.1, v.fw.0] + rest) == Ok::<FwVersion, Error>(
            v,
        ),
{
}

/// Every file handle is read from the reply that reports it.
pub proof fn file_handle_is_read_back(h: FileHandle, rest: Seq<u8>)
    ensures
        file_handle(seq![h.handle] + le32(h.len) + rest) == Ok::<FileHandle, Error>(h),
{
}

/// Every file found is read from the reply that reports it.
pub proof fn found_file_is_read_back(f: FindFileView, rest: Seq<u8>)
    requires
        !f.name.contains('\0'),
        encode_utf8(f.name).len() <= MAX_FILENAME_LEN,
    ensures
        found_file(
            seq![f.handle] + filename_field(f.name) + le32(f.len) + rest,
        ) == Ok::<FindFileView, Error>(f),
{
    let field = filename_field(f.name);
    let after = le32(f.len) + rest;
    let d = seq![f.handle] + field + le32(f.len) + rest;
    filename_is_read_back(seq![f.handle], f.name, after);
    assert(d =~= seq![f.handle] + field + after);
}

/// Every module found is read from the reply that reports it.
pub proof fn found_module_is_read_back(m: ModuleView, rest: Seq<u8>)
    requires
        !m.name.contains('\0'),
        encode_utf8(m.name).len() <= MAX_FILENAME_LEN,
    ensures
        found_module(
            seq![m.handle] + filename_field(m.name) + le32(m.id) + le32(m.len)
                + le16(m.iomap_len) + rest,
        ) == Ok::<ModuleView, Error>(m),
{
    let field = filename_field(m.name);
    let head = seq![m.handle] + field;
    let (id, len, iomap_len) = (le32(m.id), le32(m.len), le16(m.iomap_len));
    let d = head + id + len + iomap_len + rest;
    let at = MAX_FILENAME_LEN + 2;
    filename_is_read_back(seq![m.handle], m.name, id + len + iomap_len + rest);
    assert(d =~= head + (id + len + iomap_len + rest));
    assert(head.len() == at);
    assert(d[0] == m.handle);
    assert(u32_at(d, at) == m.id) by {
        assert(d =~= head + id + (len + iomap_len + rest));
        u32_is_read_back(head, m.id, len + iomap_len + rest);
    }
    assert(u32_at(d, at + 4) == m.len) by {
        assert(d =~= (head + id) + len + (iomap_len + rest));
        u32_is_read_back(head + id, m.len, iomap_len + rest);
    }
    assert(u16_at(d, at + 8) == m.iomap_len) by {
        u16_is_read_back(head + id + len, m.iomap_len, rest);
    }
    assert(d.len() >= at + 10);
}

/// All device information is read from the reply that reports it. The
/// name sits there as it does in the command that sets it.
pub proof fn device_info_is_read_back(i: DeviceInfoView, unused: u8, rest: Seq<u8>)
    requires
        !i.name.contains('\0'),
        encode_utf8(i.name).len() <= MAX_NAME_LEN,
        i.bt_addr.len() == 6,
    ensures
        device_info(
            text_field(i.name, MAX_NAME_LEN as int).take(MAX_NAME_LEN as int) + i.bt_addr + seq![
                unused,
                i.signal_strength.0,
                i.signal_strength.1,
                i.signal_strength.2,
                i.signal_strength.3,
            ] + le32(i.flash) + rest,
        ) == Ok::<DeviceInfoView, Error>(i),
{
    let n = MAX_NAME_LEN as int;
    let field = text_field(i.name, n).take(n);
    let s = i.signal_strength;
    let d = field + i.bt_addr + seq![unused, s.0, s.1, s.2, s.3] + le32(i.flash) + rest;
    let padding = n - encode_utf8(i.name).len();
    assert(field =~= encode_utf8(i.name) + zeros(padding));
    text_is_read_back(i.name, padding);
    assert(d.subrange(0, n) =~= field);
    assert(d.subrange(n, n + 6) =~= i.bt_addr);
}

/// A run of up to 255 bytes after its length is read back.
pub proof fn counted_run_is_read_back(before: Seq<u8>, data: Seq<u8>, rest: Seq<u8>)
    requires
        data.len() <= u8::MAX,
    ensures
        counted_run(before + seq![data.len() as u8] + data + rest, before.len() as int) == Ok::<
            Seq<u8>,
            Error,
        >(data),
{
    let d = before + seq![data.len() as u8] + data + rest;
    let at = before.len() as int;
    assert(d[at] == data.len() as u8);
    assert(d.subrange(at + 1, at + 1 + data.len()) =~= data);
}

/// A run of up to 65535 bytes after its length is read back.
pub proof fn long_counted_run_is_read_back(before: Seq<u8>, data: Seq<u8>, rest: Seq<u8>)
    requires
        data.len() <= u16::MAX,
    ensures
        long_counted_run(
            before + le16(data.len() as u16) + data + rest,
            before.len() as int,
        ) == Ok::<Seq<u8>, Error>(data),
{
    let d = before + le16(data.len() as u16) + data + rest;
    let at = before.len() as int;
    u16_is_read_back(before, data.len() as u16, data + rest);
    assert(d =~= before + le16(data.len() as u16) + (data + rest));
    assert(d.subrange(at + 2, at + 2 + data.len()) =~= data);
}

/// The chunks of the display follow one another without gap or overlap,
/// together they are the whole display, and the reply with a chunk fits
/// into a packet.
pub proof fn display_chunks_cover_the_display(index: int)
    requires
        0 <= index < DISPLAY_DATA_LEN,
    ensures
        DISPLAY_DATA_LEN * 8 == DISPLAY_WIDTH * DISPLAY_HEIGHT,
        DISPLAY_NUM_CHUNKS * DISPLAY_DATA_CHUNK_SIZE == DISPLAY_DATA_LEN,
        DISPLAY_DATA_OFFSET + DISPLAY_DATA_LEN <= u16::MAX,
        exists|chunk: int|
            #![trigger chunk * DISPLAY_DATA_CHUNK_SIZE]
            0 <= chunk < DISPLAY_NUM_CHUNKS && chunk * DISPLAY_DATA_CHUNK_SIZE <= index < (chunk + 1)
                * DISPLAY_DATA_CHUNK_SIZE,
        forall|opcode: Opcode, mod_id: u32, data: Seq<u8>|
            data.len() == DISPLAY_DATA_CHUNK_SIZE ==> #[trigger] answer_bytes(
                opcode,
                0,
                le32(mod_id) + le16(DISPLAY_DATA_CHUNK_SIZE) + data,
            ).len() <= MAX_PACKET_LEN,
{
    let chunk = index / DISPLAY_DATA_CHUNK_SIZE as int;
    assert(0 <= chunk < DISPLAY_NUM_CHUNKS && chunk * DISPLAY_DATA_CHUNK_SIZE <= index < (chunk + 1)
        * DISPLAY_DATA_CHUNK_SIZE);
}

/// Chunks put one after the other.
pub open spec fn joined(chunks: Seq<Seq<u8>>) -> Seq<u8>
    decreases chunks.len(),
{
    if chunks.len() == 0 {
        Seq::empty()
    } else {
        joined(chunks.drop_last()) + chunks.last()
    }
}

/// The part of the display that the given chunk asks for.
pub open spec fn chunk_of(screen: Seq<u8>, chunk: int) -> Seq<u8> {
    screen.subrange(chunk * DISPLAY_DATA_CHUNK_SIZE, (chunk + 1) * DISPLAY_DATA_CHUNK_SIZE)
}

/// The first chunks of a display make up its first bytes.
proof fn lemma_joined_chunks(screen: Seq<u8>, chunks: Seq<Seq<u8>>)
    requires
        screen.len() == DISPLAY_DATA_LEN,
        chunks.len() <= DISPLAY_NUM_CHUNKS,
        forall|k: int| 0 <= k < chunks.len() ==> #[trigger] chunks[k] == chunk_of(screen, k),
    ensures
        joined(chunks) == screen.take(chunks.len() * DISPLAY_DATA_CHUNK_SIZE),
    decreases chunks.len(),
{
    if chunks.len() > 0 {
        let front = chunks.drop_last();
        let last = chunks.len() - 1;
        assert forall|k: int| 0 <= k < front.len() implies #[trigger] front[k] == chunk_of(
            screen,
            k,
        ) by {
            assert(front[k] == chunks[k]);
        }
        lemma_joined_chunks(screen, front);
        assert(chunks.last() == chunk_of(screen, last));
        assert(joined(chunks) =~= screen.take(chunks.len() * DISPLAY_DATA_CHUNK_SIZE));
    } else {
        assert(joined(chunks) =~= screen.take(0));
    }
}

/// A display read that gets the chunks it asks for ends up with the
/// contents of the screen.
pub proof fn display_is_read_back(screen: Seq<u8>, chunks: Seq<Seq<u8>>)
    requires
        screen.len() == DISPLAY_DATA_LEN,
        chunks.len() == DISPLAY_NUM_CHUNKS,
        forall|k: int| 0 <= k < chunks.len() ==> #[trigger] chunks[k] == chunk_of(screen, k),
    ensures
        joined(chunks) == screen,
{
    lemma_joined_chunks(screen, chunks);
    assert(screen.take(DISPLAY_DATA_LEN as int) =~= screen);
}

} // verus!
