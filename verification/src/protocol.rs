//! Packets: building the payload of a command, and taking the payload of
//! a reply apart.

use crate::error::Error;
use crate::opcode::{opcode_of, Opcode, REPLY};
use crate::wire::{
    byte_of_bool, byte_of_i8, i16_of_bits, i32_of_bits, i8_of_byte, le16, le32, lemma_until_nul,
    text_at, text_field, u16_at, u32_at, zeros,
};
use vstd::prelude::*;
use vstd::slice::slice_subrange;
use vstd::utf8::{decode_utf8, encode_utf8, valid_utf8};

verus! {

/// Longest packet that goes over the link, header included.
pub const MAX_PACKET_LEN: usize = 64;

/// Length of the header of a command.
pub const HEADER_LEN: usize = 2;

/// Longest file name, not counting the terminator.
pub const MAX_FILENAME_LEN: usize = 19;

/// A file name field: a text field for up to [`MAX_FILENAME_LEN`] bytes.
pub open spec fn filename_field(name: Seq<char>) -> Seq<u8> {
    text_field(name, MAX_FILENAME_LEN as int)
}

/// What is reported when a packet ends before the value to be read.
pub open spec fn truncated() -> Error {
    Error::Parse("Unexpected end of packet")
}

/// What is reported when a text field does not hold UTF-8.
pub open spec fn bad_text() -> Error {
    Error::Parse("Invalid UTF-8")
}

/// The bytes that carry a command: type, command code, payload.
pub open spec fn command_bytes(opcode: Opcode, payload: Seq<u8>) -> Seq<u8> {
    seq![opcode.command_type(), opcode.code()] + payload
}

/// The command that a received packet answers, with all that follows the
/// header; the first byte of that is the status.
pub open spec fn parsed(bytes: Seq<u8>) -> Result<(Opcode, Seq<u8>), Error> {
    if bytes.len() < HEADER_LEN {
        Err(truncated())
    } else if bytes[0] != REPLY {
        Err(Error::Parse("Not a reply packet"))
    } else {
        match opcode_of(bytes[1]) {
            Some(opcode) => Ok((opcode, bytes.skip(HEADER_LEN as int))),
            None => Err(Error::Parse("Invalid opcode")),
        }
    }
}

/// What a status byte means: zero is success, anything else is the reason
/// why the brick refused the command.
pub open spec fn status_result(status: u8) -> Result<(), Error> {
    if status == 0 {
        Ok(())
    } else {
        Err(Error::Status(status))
    }
}

/// A read of `count` bytes that gives `value`: it fails, and takes
/// nothing, if the packet has fewer bytes left.
pub open spec fn reads<T>(
    before: PacketView,
    after: PacketView,
    count: int,
    r: Result<T, Error>,
    value: T,
) -> bool {
    if before.has(count) {
        r == Ok::<T, Error>(value) && after == before.advance(count)
    } else {
        r == Err::<T, Error>(truncated()) && after == before
    }
}

/// A command or a reply: the code, the payload, and how much of the
/// payload has been read.
#[derive(Debug)]
pub struct Packet {
    opcode: Opcode,
    data: Vec<u8>,
    pos: usize,
}

/// What a [`Packet`] holds.
#[verifier::ext_equal]
pub struct PacketView {
    pub opcode: Opcode,
    pub data: Seq<u8>,
    pub pos: int,
}

impl PacketView {
    /// The payload that has not been read yet.
    pub open spec fn unread(self) -> Seq<u8> {
        self.data.skip(self.pos)
    }

    /// The packet with `bytes` added at the end of the payload.
    pub open spec fn push(self, bytes: Seq<u8>) -> PacketView {
        PacketView { data: self.data + bytes, ..self }
    }

    /// The packet after `count` more bytes of the payload have been read.
    pub open spec fn advance(self, count: int) -> PacketView {
        PacketView { pos: self.pos + count, ..self }
    }

    /// Whether `count` more bytes of the payload can be read.
    pub open spec fn has(self, count: int) -> bool {
        self.pos + count <= self.data.len()
    }
}

impl View for Packet {
    type V = PacketView;

    closed spec fn view(&self) -> PacketView {
        PacketView { opcode: self.opcode, data: self.data@, pos: self.pos as int }
    }
}

/// `String::from_utf8`: succeeds exactly on valid UTF-8, and then gives
/// the text that the bytes encode. Which error it gives otherwise is not
/// kept.
#[verifier::external_body]
fn string_from_utf8(bytes: Vec<u8>) -> (text: Option<String>)
    ensures
        text is Some <==> valid_utf8(bytes@),
        text matches Some(text) ==> text@ == decode_utf8(bytes@),
{
    String::from_utf8(bytes).ok()
}

impl Packet {
    /// Reading never goes past the end of the payload.
    pub open spec fn wf(&self) -> bool {
        0 <= self@.pos <= self@.data.len()
    }

    /// An empty packet for the given command.
    pub fn new(opcode: Opcode) -> (pkt: Packet)
        ensures
            pkt.wf(),
            pkt@ == (PacketView { opcode, data: Seq::empty(), pos: 0 }),
    {
        Packet { opcode, data: Vec::new(), pos: 0 }
    }

    /// Return the command that this packet belongs to.
    pub fn opcode(&self) -> (opcode: Opcode)
        ensures
            opcode == self@.opcode,
    {
        self.opcode
    }

    /// Split a received packet into command code and payload.
    pub fn parse(buf: &[u8]) -> (r: Result<Packet, Error>)
        ensures
            match parsed(buf@) {
                Ok((opcode, data)) => r matches Ok(pkt) && pkt.wf() && pkt@ == (PacketView {
                    opcode,
                    data,
                    pos: 0,
                }),
                Err(error) => r == Err::<Packet, Error>(error),
            },
    {
        if buf.len() < HEADER_LEN {
            return Err(Error::Parse("Unexpected end of packet"));
        }
        if buf[0] != REPLY {
            return Err(Error::Parse("Not a reply packet"));
        }
        let opcode = Opcode::try_from(buf[1])?;
        let data = vstd::slice::slice_to_vec(slice_subrange(buf, HEADER_LEN, buf.len()));
        Ok(Packet { opcode, data, pos: 0 })
    }

    /// Read the status byte of a reply and fail if the brick refused the
    /// command.
    pub fn check_status(&mut self) -> (r: Result<(), Error>)
        requires
            old(self).wf(),
        ensures
            final(self).wf(),
            if old(self)@.has(1) {
                &&& final(self)@ == old(self)@.advance(1)
                &&& r == status_result(old(self)@.unread()[0])
            } else {
                &&& r == Err::<(), Error>(truncated())
                &&& final(self)@ == old(self)@
            },
    {
        let status = self.read_u8()?;
        if status == 0 {
            Ok(())
        } else {
            Err(Error::Status(status))
        }
    }

    /// The bytes that carry this packet as a command. Fails if they are
    /// more than a packet may have.
    pub fn serialise(&self) -> (r: Result<Vec<u8>, Error>)
        ensures
            if self@.data.len() + HEADER_LEN <= MAX_PACKET_LEN {
                r matches Ok(bytes) && bytes@ == command_bytes(self@.opcode, self@.data)
            } else {
                r == Err::<Vec<u8>, Error>(Error::Serialise("Packet too long"))
            },
    {
        if self.data.len() > MAX_PACKET_LEN - HEADER_LEN {
            return Err(Error::Serialise("Packet too long"));
        }
        let mut bytes: Vec<u8> = Vec::new();
        bytes.push(self.opcode.command_type());
        bytes.push(self.opcode.code());
        bytes.extend_from_slice(self.data.as_slice());
        assert(bytes@ =~= command_bytes(self@.opcode, self@.data));
        Ok(bytes)
    }

    /// Add a byte.
    pub fn push_u8(&mut self, value: u8)
        requires
            old(self).wf(),
        ensures
            final(self).wf(),
            final(self)@ == old(self)@.push(seq![value]),
    {
        self.data.push(value);
        assert(self@.data =~= old(self)@.data + seq![value]);
    }

    /// Add a signed byte.
    pub fn push_i8(&mut self, value: i8)
        requires
            old(self).wf(),
        ensures
            final(self).wf(),
            final(self)@ == old(self)@.push(seq![byte_of_i8(value)]),
    {
        let byte: u8 = #[verifier::truncate] (value as u8);
        assert(byte == byte_of_i8(value)) by {
            assert(value >= 0 ==> value as u8 == value) by (bit_vector);
            assert(value < 0 ==> value as u8 == value + 0x100) by (bit_vector);
        }
        self.push_u8(byte);
    }

    /// Add a truth value.
    pub fn push_bool(&mut self, value: bool)
        requires
            old(self).wf(),
        ensures
            final(self).wf(),
            final(self)@ == old(self)@.push(seq![byte_of_bool(value)]),
    {
        self.push_u8(if value { 1 } else { 0 });
    }

    /// Add a 16-bit number.
    pub fn push_u16(&mut self, value: u16)
        requires
            old(self).wf(),
        ensures
            final(self).wf(),
            final(self)@ == old(self)@.push(le16(value)),
    {
        self.push_u8((value % 0x100) as u8);
        self.push_u8((value / 0x100) as u8);
        assert(self@.data =~= old(self)@.data + le16(value));
    }

    /// Add a 32-bit number.
    pub fn push_u32(&mut self, value: u32)
        requires
            old(self).wf(),
        ensures
            final(self).wf(),
            final(self)@ == old(self)@.push(le32(value)),
    {
        self.push_u8((value % 0x100) as u8);
        self.push_u8((value / 0x100 % 0x100) as u8);
        self.push_u8((value / 0x1_0000 % 0x100) as u8);
        self.push_u8((value / 0x100_0000) as u8);
        assert(self@.data =~= old(self)@.data + le32(value));
    }

    /// Add bytes as they are.
    pub fn push_slice(&mut self, bytes: &[u8])
        requires
            old(self).wf(),
        ensures
            final(self).wf(),
            final(self)@ == old(self)@.push(bytes@),
    {
        self.data.extend_from_slice(bytes);
        assert(self@.data =~= old(self)@.data + bytes@);
    }

    /// Add a text field for texts of up to `max_len` bytes. Fails, without
    /// touching the packet, if the text is longer.
    pub fn push_str(&mut self, text: &str, max_len: usize) -> (r: Result<(), Error>)
        requires
            old(self).wf(),
        ensures
            final(self).wf(),
            if encode_utf8(text@).len() <= max_len {
                &&& r == Ok::<(), Error>(())
                &&& final(self)@ == old(self)@.push(text_field(text@, max_len as int))
            } else {
                &&& r == Err::<(), Error>(Error::Serialise("String too long"))
                &&& final(self)@ == old(self)@
            },
    {
        let bytes = text.as_bytes();
        if bytes.len() > max_len {
            return Err(Error::Serialise("String too long"));
        }
        self.push_slice(bytes);
        let ghost start = self@;
        let mut filled: usize = bytes.len();
        self.push_u8(0);
        assert(self@.data =~= start.data + zeros(1));
        while filled < max_len
            invariant
                self.wf(),
                bytes@.len() <= filled <= max_len,
                self@ == start.push(zeros(filled + 1 - bytes@.len())),
            decreases max_len - filled,
        {
            self.push_u8(0);
            assert(self@.data =~= start.data + zeros(filled + 2 - bytes@.len()));
            filled += 1;
        }
        assert(self@.data =~= old(self)@.data + text_field(text@, max_len as int));
        Ok(())
    }

    /// Add a file name.
    pub fn push_filename(&mut self, name: &str) -> (r: Result<(), Error>)
        requires
            old(self).wf(),
        ensures
            final(self).wf(),
            if encode_utf8(name@).len() <= MAX_FILENAME_LEN {
                &&& r == Ok::<(), Error>(())
                &&& final(self)@ == old(self)@.push(filename_field(name@))
            } else {
                &&& r == Err::<(), Error>(Error::Serialise("String too long"))
                &&& final(self)@ == old(self)@
            },
    {
        self.push_str(name, MAX_FILENAME_LEN)
    }

    /// Read bytes as they are.
    pub fn read_slice(&mut self, len: usize) -> (r: Result<Vec<u8>, Error>)
        requires
            old(self).wf(),
        ensures
            final(self).wf(),
            if old(self)@.has(len as int) {
                &&& r matches Ok(bytes) && bytes@ == old(self)@.unread().take(len as int)
                &&& final(self)@ == old(self)@.advance(len as int)
            } else {
                &&& r == Err::<Vec<u8>, Error>(truncated())
                &&& final(self)@ == old(self)@
            },
    {
        if self.data.len() - self.pos < len {
            return Err(Error::Parse("Unexpected end of packet"));
        }
        let end: usize = self.pos + len;
        let bytes = vstd::slice::slice_to_vec(slice_subrange(self.data.as_slice(), self.pos, end));
        assert(bytes@ =~= self@.unread().take(len as int));
        self.pos = end;
        Ok(bytes)
    }

    /// Read a byte.
    pub fn read_u8(&mut self) -> (r: Result<u8, Error>)
        requires
            old(self).wf(),
        ensures
            final(self).wf(),
            reads(old(self)@, final(self)@, 1, r, old(self)@.unread()[0]),
    {
        if self.pos >= self.data.len() {
            return Err(Error::Parse("Unexpected end of packet"));
        }
        let value = self.data[self.pos];
        self.pos += 1;
        Ok(value)
    }

    /// Read a signed byte.
    pub fn read_i8(&mut self) -> (r: Result<i8, Error>)
        requires
            old(self).wf(),
        ensures
            final(self).wf(),
            reads(old(self)@, final(self)@, 1, r, i8_of_byte(old(self)@.unread()[0])),
    {
        let byte = self.read_u8()?;
        let value: i8 = #[verifier::truncate] (byte as i8);
        assert(value == i8_of_byte(byte)) by {
            assert(byte < 0x80 ==> byte as i8 == byte) by (bit_vector);
            assert(byte >= 0x80 ==> byte as i8 == byte - 0x100) by (bit_vector);
        }
        Ok(value)
    }

    /// Read a truth value: any byte but zero is true.
    pub fn read_bool(&mut self) -> (r: Result<bool, Error>)
        requires
            old(self).wf(),
        ensures
            final(self).wf(),
            reads(old(self)@, final(self)@, 1, r, old(self)@.unread()[0] != 0),
    {
        let byte = self.read_u8()?;
        Ok(byte != 0)
    }

    /// Read a 16-bit number.
    pub fn read_u16(&mut self) -> (r: Result<u16, Error>)
        requires
            old(self).wf(),
        ensures
            final(self).wf(),
            reads(old(self)@, final(self)@, 2, r, u16_at(old(self)@.unread(), 0)),
    {
        let bytes = self.read_slice(2)?;
        Ok(bytes[0] as u16 + 0x100 * bytes[1] as u16)
    }

    /// Read a signed 16-bit number.
    pub fn read_i16(&mut self) -> (r: Result<i16, Error>)
        requires
            old(self).wf(),
        ensures
            final(self).wf(),
            reads(old(self)@, final(self)@, 2, r, i16_of_bits(u16_at(old(self)@.unread(), 0))),
    {
        let bits = self.read_u16()?;
        let value: i16 = #[verifier::truncate] (bits as i16);
        assert(value == i16_of_bits(bits)) by {
            assert(bits < 0x8000 ==> bits as i16 == bits) by (bit_vector);
            assert(bits >= 0x8000 ==> bits as i16 == bits - 0x1_0000) by (bit_vector);
        }
        Ok(value)
    }

    /// Read a 32-bit number.
    pub fn read_u32(&mut self) -> (r: Result<u32, Error>)
        requires
            old(self).wf(),
        ensures
            final(self).wf(),
            reads(old(self)@, final(self)@, 4, r, u32_at(old(self)@.unread(), 0)),
    {
        let bytes = self.read_slice(4)?;
        Ok(
            bytes[0] as u32 + 0x100 * bytes[1] as u32 + 0x1_0000 * bytes[2] as u32 + 0x100_0000
                * bytes[3] as u32,
        )
    }

    /// Read a signed 32-bit number.
    pub fn read_i32(&mut self) -> (r: Result<i32, Error>)
        requires
            old(self).wf(),
        ensures
            final(self).wf(),
            reads(old(self)@, final(self)@, 4, r, i32_of_bits(u32_at(old(self)@.unread(), 0))),
    {
        let bits = self.read_u32()?;
        let value: i32 = #[verifier::truncate] (bits as i32);
        assert(value == i32_of_bits(bits)) by {
            assert(bits < 0x8000_0000 ==> bits as i32 == bits) by (bit_vector);
            assert(bits >= 0x8000_0000 ==> bits as i32 == bits - 0x1_0000_0000) by (bit_vector);
        }
        Ok(value)
    }

    /// Read a text field of `len` bytes: the text ends at the first zero
    /// byte, or at the end of the field.
    pub fn read_string(&mut self, len: usize) -> (r: Result<String, Error>)
        requires
            old(self).wf(),
        ensures
            final(self).wf(),
            if old(self)@.has(len as int) {
                &&& final(self)@ == old(self)@.advance(len as int)
                &&& match text_at(old(self)@.unread(), 0, len as int) {
                    Some(text) => r matches Ok(s) && s@ == text,
                    None => r == Err::<String, Error>(bad_text()),
                }
            } else {
                &&& r == Err::<String, Error>(truncated())
                &&& final(self)@ == old(self)@
            },
    {
        let mut field = self.read_slice(len)?;
        let ghost whole = field@;
        assert(whole =~= old(self)@.unread().subrange(0, len as int));
        let mut end: usize = 0;
        while end < field.len() && field[end] != 0
            invariant
                field@ == whole,
                0 <= end <= whole.len(),
                forall|i: int| 0 <= i < end ==> whole[i] != 0,
            decreases whole.len() - end,
        {
            end += 1;
        }
        field.truncate(end);
        proof {
            lemma_until_nul(whole, end as int);
            assert(field@ =~= whole.take(end as int));
        }
        match string_from_utf8(field) {
            Some(text) => Ok(text),
            None => Err(Error::Parse("Invalid UTF-8")),
        }
    }

    /// Read a file name.
    pub fn read_filename(&mut self) -> (r: Result<String, Error>)
        requires
            old(self).wf(),
        ensures
            final(self).wf(),
            if old(self)@.has(MAX_FILENAME_LEN + 1) {
                &&& final(self)@ == old(self)@.advance(MAX_FILENAME_LEN + 1)
                &&& match text_at(old(self)@.unread(), 0, MAX_FILENAME_LEN + 1) {
                    Some(text) => r matches Ok(s) && s@ == text,
                    None => r == Err::<String, Error>(bad_text()),
                }
            } else {
                &&& r == Err::<String, Error>(truncated())
                &&& final(self)@ == old(self)@
            },
    {
        self.read_string(MAX_FILENAME_LEN + 1)
    }
}

} // verus!
