//! How values are laid out in a packet.
//!
//! Numbers are little endian, signed numbers are in two's complement,
//! and text sits in a field of fixed length that is filled up with zero
//! bytes.

use vstd::prelude::*;
use vstd::utf8::{decode_utf8, encode_utf8, valid_utf8};

verus! {

/// The two bytes of a 16-bit number.
pub open spec fn le16(value: u16) -> Seq<u8> {
    seq![(value % 0x100) as u8, (value / 0x100) as u8]
}

/// The four bytes of a 32-bit number.
pub open spec fn le32(value: u32) -> Seq<u8> {
    seq![
        (value % 0x100) as u8,
        (value / 0x100 % 0x100) as u8,
        (value / 0x1_0000 % 0x100) as u8,
        (value / 0x100_0000) as u8,
    ]
}

/// The 16-bit number that starts at index `at`.
pub open spec fn u16_at(bytes: Seq<u8>, at: int) -> u16 {
    (bytes[at] + 0x100 * bytes[at + 1]) as u16
}

/// The 32-bit number that starts at index `at`.
pub open spec fn u32_at(bytes: Seq<u8>, at: int) -> u32 {
    (bytes[at] + 0x100 * bytes[at + 1] + 0x1_0000 * bytes[at + 2] + 0x100_0000 * bytes[at + 3])
        as u32
}

/// The byte that stands for a signed 8-bit number.
pub open spec fn byte_of_i8(value: i8) -> u8 {
    if value >= 0 {
        value as u8
    } else {
        (value + 0x100) as u8
    }
}

/// The unsigned number with the same 16 bits as a signed one.
pub open spec fn bits_of_i16(value: i16) -> u16 {
    if value >= 0 {
        value as u16
    } else {
        (value + 0x1_0000) as u16
    }
}

/// The unsigned number with the same 32 bits as a signed one.
pub open spec fn bits_of_i32(value: i32) -> u32 {
    if value >= 0 {
        value as u32
    } else {
        (value + 0x1_0000_0000) as u32
    }
}

/// The signed 8-bit number that a byte stands for.
pub open spec fn i8_of_byte(byte: u8) -> i8 {
    if byte < 0x80 {
        byte as i8
    } else {
        (byte - 0x100) as i8
    }
}

/// The signed number with the same 16 bits as an unsigned one.
pub open spec fn i16_of_bits(bits: u16) -> i16 {
    if bits < 0x8000 {
        bits as i16
    } else {
        (bits - 0x1_0000) as i16
    }
}

/// The signed number with the same 32 bits as an unsigned one.
pub open spec fn i32_of_bits(bits: u32) -> i32 {
    if bits < 0x8000_0000 {
        bits as i32
    } else {
        (bits - 0x1_0000_0000) as i32
    }
}

/// The byte that stands for a truth value.
pub open spec fn byte_of_bool(value: bool) -> u8 {
    if value {
        1
    } else {
        0
    }
}

/// A run of zero bytes.
pub open spec fn zeros(len: int) -> Seq<u8> {
    Seq::new(len as nat, |i: int| 0u8)
}

/// A text field: the text in UTF-8, filled up with zero bytes to one byte
/// more than `max_len`, so that the text is always terminated.
pub open spec fn text_field(text: Seq<char>, max_len: int) -> Seq<u8> {
    encode_utf8(text) + zeros(max_len + 1 - encode_utf8(text).len())
}

/// The bytes before the first zero byte, or all of them if there is none.
pub open spec fn until_nul(bytes: Seq<u8>) -> Seq<u8> {
    match bytes.index_of_first(0u8) {
        Some(end) => bytes.take(end),
        None => bytes,
    }
}

/// The text in a text field, if it is valid UTF-8.
pub open spec fn text_in(field: Seq<u8>) -> Option<Seq<char>> {
    if valid_utf8(until_nul(field)) {
        Some(decode_utf8(until_nul(field)))
    } else {
        None
    }
}

/// The text in the `len` bytes from index `at` on.
pub open spec fn text_at(bytes: Seq<u8>, at: int, len: int) -> Option<Seq<char>> {
    text_in(bytes.subrange(at, at + len))
}

/// The bytes before the first zero byte are those before an index where a
/// zero byte is and none comes before.
pub proof fn lemma_until_nul(bytes: Seq<u8>, end: int)
    requires
        0 <= end <= bytes.len(),
        forall|i: int| 0 <= i < end ==> bytes[i] != 0,
        end < bytes.len() ==> bytes[end] == 0,
    ensures
        until_nul(bytes) == bytes.take(end),
{
    bytes.index_of_first_ensures(0u8);
    if end < bytes.len() {
        assert(bytes.contains(0u8));
        let first = bytes.index_of_first(0u8)->0;
        assert(first == end);
    } else {
        assert(bytes.take(end) =~= bytes);
    }
}

} // verus!
