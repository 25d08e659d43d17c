//! What each reply means, byte for byte.
//!
//! Every law here takes a reply and what was read from it, and says what
//! that has to be. The data of the reply is `d`; bytes that no law speaks
//! of do not matter.

use crate::error::Error;
use crate::motor::OutputState;
use crate::nxt::Nxt;
use crate::protocol::Packet;
use crate::sensor::InputValues;
use crate::system::{DeviceInfo, FileHandle, FindFileHandle, FwVersion, ModuleHandle};
use crate::wire_laws::text_ends_at_the_first_zero;
use vstd::prelude::*;
use vstd::utf8::{decode_utf8, valid_utf8};

verus! {

/// The battery level is the first two bytes as a little-endian number, for
/// any level that fits in
pub proof fn get_battery_level_data(recv: Packet, r: Result<u16, Error>)
    requires
        call_ensures(Nxt::get_battery_level_reply, (recv,), r),
    ensures
        ({
            let d = recv@.unread();
            if d.len() < 2 {
                r == Err::<u16, Error>(Error::Parse("Unexpected end of packet"))
            } else {
                r matches Ok(value) && value == d[0] + 256 * d[1]
            }
        }),
{
}

/// The sleep timeout is the first four bytes as a little-endian number
pub proof fn keep_alive_data(recv: Packet, r: Result<u32, Error>)
    requires
        call_ensures(Nxt::keep_alive_reply, (recv,), r),
    ensures
        ({
            let d = recv@.unread();
            if d.len() < 4 {
                r == Err::<u32, Error>(Error::Parse("Unexpected end of packet"))
            } else {
                r matches Ok(value) && value == d[0] + 256 * d[1] + 65536 * d[2] + 16777216 * d[3]
            }
        }),
{
}

/// The status of a low speed port is the first byte
pub proof fn ls_get_status_data(recv: Packet, r: Result<u8, Error>)
    requires
        call_ensures(Nxt::ls_get_status_reply, (recv,), r),
    ensures
        ({
            let d = recv@.unread();
            if d.len() < 1 {
                r == Err::<u8, Error>(Error::Parse("Unexpected end of packet"))
            } else {
                r matches Ok(value) && value == d[0]
            }
        }),
{
}

/// The number of bytes written is the four bytes after the handle
pub proof fn file_write_data(recv: Packet, r: Result<u32, Error>)
    requires
        call_ensures(Nxt::file_write_reply, (recv,), r),
    ensures
        ({
            let d = recv@.unread();
            if d.len() < 5 {
                r == Err::<u32, Error>(Error::Parse("Unexpected end of packet"))
            } else {
                r matches Ok(value) && value == d[1] + 256 * d[2] + 65536 * d[3] + 16777216 * d[4]
            }
        }),
{
}

/// The number of bytes written is the two bytes after the module ID
pub proof fn write_io_map_data(recv: Packet, r: Result<u16, Error>)
    requires
        call_ensures(Nxt::write_io_map_reply, (recv,), r),
    ensures
        ({
            let d = recv@.unread();
            if d.len() < 6 {
                r == Err::<u16, Error>(Error::Parse("Unexpected end of packet"))
            } else {
                r matches Ok(value) && value == d[4] + 256 * d[5]
            }
        }),
{
}

/// The length of the command is the byte after the buffer number
pub proof fn poll_command_length_data(recv: Packet, r: Result<u8, Error>)
    requires
        call_ensures(Nxt::poll_command_length_reply, (recv,), r),
    ensures
        ({
            let d = recv@.unread();
            if d.len() < 2 {
                r == Err::<u8, Error>(Error::Parse("Unexpected end of packet"))
            } else {
                r matches Ok(value) && value == d[1]
            }
        }),
{
}

/// The data read is as many bytes as the first byte says, in order
pub proof fn ls_read_data(recv: Packet, r: Result<Vec<u8>, Error>)
    requires
        call_ensures(Nxt::ls_read_reply, (recv,), r),
    ensures
        ({
            let d = recv@.unread();
            if d.len() < 1 || d.len() < 1 + d[0] {
                r == Err::<Vec<u8>, Error>(Error::Parse("Unexpected end of packet"))
            } else {
                &&& r matches Ok(data)
                &&& data@.len() == d[0]
                &&& forall|i: int| 0 <= i < data@.len() ==> #[trigger] data@[i] == d[1 + i]
            }
        }),
{
}

/// The message is as many bytes as the byte after the inbox says, in order
pub proof fn message_read_data(recv: Packet, r: Result<Vec<u8>, Error>)
    requires
        call_ensures(Nxt::message_read_reply, (recv,), r),
    ensures
        ({
            let d = recv@.unread();
            if d.len() < 2 || d.len() < 2 + d[1] {
                r == Err::<Vec<u8>, Error>(Error::Parse("Unexpected end of packet"))
            } else {
                &&& r matches Ok(data)
                &&& data@.len() == d[1]
                &&& forall|i: int| 0 <= i < data@.len() ==> #[trigger] data@[i] == d[2 + i]
            }
        }),
{
}

/// The data read is as many bytes as the byte after the handle says, in order
pub proof fn file_read_data(recv: Packet, r: Result<Vec<u8>, Error>)
    requires
        call_ensures(Nxt::file_read_reply, (recv,), r),
    ensures
        ({
            let d = recv@.unread();
            if d.len() < 2 || d.len() < 2 + d[1] {
                r == Err::<Vec<u8>, Error>(Error::Parse("Unexpected end of packet"))
            } else {
                &&& r matches Ok(data)
                &&& data@.len() == d[1]
                &&& forall|i: int| 0 <= i < data@.len() ==> #[trigger] data@[i] == d[2 + i]
            }
        }),
{
}

/// The command is as many bytes as the byte after the buffer number says, in
/// order
pub proof fn poll_command_data(recv: Packet, r: Result<Vec<u8>, Error>)
    requires
        call_ensures(Nxt::poll_command_reply, (recv,), r),
    ensures
        ({
            let d = recv@.unread();
            if d.len() < 2 || d.len() < 2 + d[1] {
                r == Err::<Vec<u8>, Error>(Error::Parse("Unexpected end of packet"))
            } else {
                &&& r matches Ok(data)
                &&& data@.len() == d[1]
                &&& forall|i: int| 0 <= i < data@.len() ==> #[trigger] data@[i] == d[2 + i]
            }
        }),
{
}

/// The data read is as many bytes as the two bytes after the module ID say,
/// in order
pub proof fn read_io_map_data(recv: Packet, r: Result<Vec<u8>, Error>)
    requires
        call_ensures(Nxt::read_io_map_reply, (recv,), r),
    ensures
        ({
            let d = recv@.unread();
            if d.len() < 6 || d.len() < 6 + (d[4] + 256 * d[5]) {
                r == Err::<Vec<u8>, Error>(Error::Parse("Unexpected end of packet"))
            } else {
                &&& r matches Ok(data)
                &&& data@.len() == (d[4] + 256 * d[5])
                &&& forall|i: int| 0 <= i < data@.len() ==> #[trigger] data@[i] == d[6 + i]
            }
        }),
{
}

/// The answer is the first four bytes, in order
pub proof fn boot_data(recv: Packet, r: Result<Vec<u8>, Error>)
    requires
        call_ensures(Nxt::boot_reply, (recv,), r),
    ensures
        ({
            let d = recv@.unread();
            if d.len() < 4 {
                r == Err::<Vec<u8>, Error>(Error::Parse("Unexpected end of packet"))
            } else {
                &&& r matches Ok(data)
                &&& data@.len() == 4
                &&& forall|i: int| 0 <= i < 4 ==> #[trigger] data@[i] == d[i]
            }
        }),
{
}

/// Each byte of the Bluetooth address is the byte of the data in the same
/// place
pub proof fn get_bt_addr_data(recv: Packet, r: Result<[u8; 6], Error>)
    requires
        call_ensures(Nxt::get_bt_addr_reply, (recv,), r),
    ensures
        ({
            let d = recv@.unread();
            if d.len() < 6 {
                r == Err::<[u8; 6], Error>(Error::Parse("Unexpected end of packet"))
            } else {
                &&& r matches Ok(addr)
                &&& forall|i: int| 0 <= i < 6 ==> #[trigger] addr@[i] == d[i]
            }
        }),
{
}

/// The versions are four bytes: protocol minor and major, then firmware minor
/// and major
pub proof fn get_firmware_version_data(recv: Packet, r: Result<FwVersion, Error>)
    requires
        call_ensures(Nxt::get_firmware_version_reply, (recv,), r),
    ensures
        ({
            let d = recv@.unread();
            if d.len() < 4 {
                r == Err::<FwVersion, Error>(Error::Parse("Unexpected end of packet"))
            } else {
                &&& r matches Ok(v)
                &&& v.prot.1 == d[0]
                &&& v.prot.0 == d[1]
                &&& v.fw.1 == d[2]
                &&& v.fw.0 == d[3]
            }
        }),
{
}

/// Each part of an output state is its own bytes of the data: codes as they
/// are, signed numbers in two's complement, numbers little endian. What is
/// missing or unknown first decides on the error
pub proof fn get_output_state_data(recv: Packet, r: Result<OutputState, Error>)
    requires
        call_ensures(Nxt::get_output_state_reply, (recv,), r),
    ensures
        ({
            let d = recv@.unread();
            if d.len() < 1 {
                r == Err::<OutputState, Error>(Error::Parse("Unexpected end of packet"))
            } else if d[0] > 6 {
                r == Err::<OutputState, Error>(Error::Parse("Invalid output port"))
            } else if d.len() < 4 {
                r == Err::<OutputState, Error>(Error::Parse("Unexpected end of packet"))
            } else if d[3] > 2 {
                r == Err::<OutputState, Error>(Error::Parse("Invalid regulation mode"))
            } else if d.len() < 6 {
                r == Err::<OutputState, Error>(Error::Parse("Unexpected end of packet"))
            } else if d[5] != 0x00 && d[5] != 0x10 && d[5] != 0x20 && d[5] != 0x40 {
                r == Err::<OutputState, Error>(Error::Parse("Invalid run state"))
            } else if d.len() < 22 {
                r == Err::<OutputState, Error>(Error::Parse("Unexpected end of packet"))
            } else {
                &&& r matches Ok(s)
                &&& s.port.code() == d[0]
                &&& s.power == (if d[1] < 128 {
                    d[1] as int
                } else {
                    d[1] - 256
                })
                &&& s.mode.0 == d[2]
                &&& s.regulation_mode.code() == d[3]
                &&& s.turn_ratio == (if d[4] < 128 {
                    d[4] as int
                } else {
                    d[4] - 256
                })
                &&& s.run_state.code() == d[5]
                &&& s.tacho_limit == d[6] + 256 * d[7] + 65536 * d[8] + 16777216 * d[9]
                &&& {
                    let bits = d[10] + 256 * d[11] + 65536 * d[12] + 16777216 * d[13];
                    s.tacho_count == (if bits < 2147483648 {
                        bits
                    } else {
                        bits - 4294967296
                    })
                }
                &&& {
                    let bits = d[14] + 256 * d[15] + 65536 * d[16] + 16777216 * d[17];
                    s.block_tacho_count == (if bits < 2147483648 {
                        bits
                    } else {
                        bits - 4294967296
                    })
                }
                &&& {
                    let bits = d[18] + 256 * d[19] + 65536 * d[20] + 16777216 * d[21];
                    s.rotation_count == (if bits < 2147483648 {
                        bits
                    } else {
                        bits - 4294967296
                    })
                }
            }
        }),
{
}

/// Each part of an input reading is its own bytes of the data: codes as they
/// are, any byte but zero for true, signed numbers in two's complement,
/// numbers little endian. What is missing or unknown first decides on the
/// error
pub proof fn get_input_values_data(recv: Packet, r: Result<InputValues, Error>)
    requires
        call_ensures(Nxt::get_input_values_reply, (recv,), r),
    ensures
        ({
            let d = recv@.unread();
            if d.len() < 1 {
                r == Err::<InputValues, Error>(Error::Parse("Unexpected end of packet"))
            } else if d[0] > 3 {
                r == Err::<InputValues, Error>(Error::Parse("Invalid input port"))
            } else if d.len() < 4 {
                r == Err::<InputValues, Error>(Error::Parse("Unexpected end of packet"))
            } else if d[3] > 0x11 {
                r == Err::<InputValues, Error>(Error::Parse("Invalid sensor type"))
            } else if d.len() < 5 {
                r == Err::<InputValues, Error>(Error::Parse("Unexpected end of packet"))
            } else if d[4] % 0x20 != 0 {
                r == Err::<InputValues, Error>(Error::Parse("Invalid sensor mode"))
            } else if d.len() < 13 {
                r == Err::<InputValues, Error>(Error::Parse("Unexpected end of packet"))
            } else {
                &&& r matches Ok(v)
                &&& v.port.code() == d[0]
                &&& v.valid == (d[1] != 0)
                &&& v.calibrated == (d[2] != 0)
                &&& v.sensor_type.code() == d[3]
                &&& v.sensor_mode.code() == d[4]
                &&& v.raw_value == d[5] + 256 * d[6]
                &&& v.normalised_value == d[7] + 256 * d[8]
                &&& {
                    let bits = d[9] + 256 * d[10];
                    v.scaled_value == (if bits < 32768 {
                        bits
                    } else {
                        bits - 65536
                    })
                }
                &&& {
                    let bits = d[11] + 256 * d[12];
                    v.calibrated_value == (if bits < 32768 {
                        bits
                    } else {
                        bits - 65536
                    })
                }
            }
        }),
{
}

/// Opening for writing: the handle is the first byte, and the
/// length is the one asked for
pub proof fn file_open_write_data(recv: Packet, len: u32, r: Result<FileHandle, Error>)
    requires
        call_ensures(Nxt::file_open_write_reply, (recv, len), r),
    ensures
        ({
            let d = recv@.unread();
            if d.len() < 1 {
                r == Err::<FileHandle, Error>(Error::Parse("Unexpected end of packet"))
            } else {
                r matches Ok(h) && h.handle == d[0] && h.len == len
            }
        }),
{
}

/// Opening a data file for writing: the handle is the first byte, and the
/// length is the one asked for
pub proof fn file_open_write_data_data(recv: Packet, len: u32, r: Result<FileHandle, Error>)
    requires
        call_ensures(Nxt::file_open_write_data_reply, (recv, len), r),
    ensures
        ({
            let d = recv@.unread();
            if d.len() < 1 {
                r == Err::<FileHandle, Error>(Error::Parse("Unexpected end of packet"))
            } else {
                r matches Ok(h) && h.handle == d[0] && h.len == len
            }
        }),
{
}

/// Opening a contiguous file for reading: the handle is the first byte, and the
/// length is the one asked for
pub proof fn file_open_read_linear_data(recv: Packet, len: u32, r: Result<FileHandle, Error>)
    requires
        call_ensures(Nxt::file_open_read_linear_reply, (recv, len), r),
    ensures
        ({
            let d = recv@.unread();
            if d.len() < 1 {
                r == Err::<FileHandle, Error>(Error::Parse("Unexpected end of packet"))
            } else {
                r matches Ok(h) && h.handle == d[0] && h.len == len
            }
        }),
{
}

/// Opening a contiguous file for writing: the handle is the first byte, and the
/// length is the one asked for
pub proof fn file_open_write_linear_data(recv: Packet, len: u32, r: Result<FileHandle, Error>)
    requires
        call_ensures(Nxt::file_open_write_linear_reply, (recv, len), r),
    ensures
        ({
            let d = recv@.unread();
            if d.len() < 1 {
                r == Err::<FileHandle, Error>(Error::Parse("Unexpected end of packet"))
            } else {
                r matches Ok(h) && h.handle == d[0] && h.len == len
            }
        }),
{
}

/// Opening for reading: the handle is the first byte, and the length is the
/// next four, little endian
pub proof fn file_open_read_data(recv: Packet, r: Result<FileHandle, Error>)
    requires
        call_ensures(Nxt::file_open_read_reply, (recv,), r),
    ensures
        ({
            let d = recv@.unread();
            if d.len() < 5 {
                r == Err::<FileHandle, Error>(Error::Parse("Unexpected end of packet"))
            } else {
                &&& r matches Ok(h)
                &&& h.handle == d[0]
                &&& h.len == d[1] + 256 * d[2] + 65536 * d[3] + 16777216 * d[4]
            }
        }),
{
}

/// Opening for appending: the handle is the first byte, and the length is the
/// next four, little endian
pub proof fn file_open_append_data_data(recv: Packet, r: Result<FileHandle, Error>)
    requires
        call_ensures(Nxt::file_open_append_data_reply, (recv,), r),
    ensures
        ({
            let d = recv@.unread();
            if d.len() < 5 {
                r == Err::<FileHandle, Error>(Error::Parse("Unexpected end of packet"))
            } else {
                &&& r matches Ok(h)
                &&& h.handle == d[0]
                &&& h.len == d[1] + 256 * d[2] + 65536 * d[3] + 16777216 * d[4]
            }
        }),
{
}

/// The first file found: the handle, the name up to its first zero byte (at
/// `end`) or through all its twenty bytes, the length
pub proof fn file_find_first_data(recv: Packet, end: int, r: Result<FindFileHandle, Error>)
    requires
        call_ensures(Nxt::file_find_first_reply, (recv,), r),
        0 <= end <= 20,
        forall|i: int| 1 <= i < 1 + end && i < recv@.unread().len() ==> recv@.unread()[i] != 0,
        end < 20 && 1 + end < recv@.unread().len() ==> recv@.unread()[1 + end] == 0,
    ensures
        ({
            let d = recv@.unread();
            if d.len() < 21 {
                r == Err::<FindFileHandle, Error>(Error::Parse("Unexpected end of packet"))
            } else if !valid_utf8(d.subrange(1, 1 + end)) {
                r == Err::<FindFileHandle, Error>(Error::Parse("Invalid UTF-8"))
            } else if d.len() < 25 {
                r == Err::<FindFileHandle, Error>(Error::Parse("Unexpected end of packet"))
            } else {
                &&& r matches Ok(f)
                &&& f.handle == d[0]
                &&& f.name@ == decode_utf8(d.subrange(1, 1 + end))
                &&& f.len == d[21] + 256 * d[22] + 65536 * d[23] + 16777216 * d[24]
            }
        }),
{
    let d = recv@.unread();
    if d.len() >= 21 {
        text_ends_at_the_first_zero(d, 1, 20, end);
    }
}

/// The next file found: the handle, the name up to its first zero byte (at
/// `end`) or through all its twenty bytes, the length
pub proof fn file_find_next_data(recv: Packet, end: int, r: Result<FindFileHandle, Error>)
    requires
        call_ensures(Nxt::file_find_next_reply, (recv,), r),
        0 <= end <= 20,
        forall|i: int| 1 <= i < 1 + end && i < recv@.unread().len() ==> recv@.unread()[i] != 0,
        end < 20 && 1 + end < recv@.unread().len() ==> recv@.unread()[1 + end] == 0,
    ensures
        ({
            let d = recv@.unread();
            if d.len() < 21 {
                r == Err::<FindFileHandle, Error>(Error::Parse("Unexpected end of packet"))
            } else if !valid_utf8(d.subrange(1, 1 + end)) {
                r == Err::<FindFileHandle, Error>(Error::Parse("Invalid UTF-8"))
            } else if d.len() < 25 {
                r == Err::<FindFileHandle, Error>(Error::Parse("Unexpected end of packet"))
            } else {
                &&& r matches Ok(f)
                &&& f.handle == d[0]
                &&& f.name@ == decode_utf8(d.subrange(1, 1 + end))
                &&& f.len == d[21] + 256 * d[22] + 65536 * d[23] + 16777216 * d[24]
            }
        }),
{
    let d = recv@.unread();
    if d.len() >= 21 {
        text_ends_at_the_first_zero(d, 1, 20, end);
    }
}

/// The first module found: the handle, the name up to its first zero byte
/// (at `end`) or through all its twenty bytes, the ID, the size and the size
/// of the IO map
pub proof fn module_find_first_data(recv: Packet, end: int, r: Result<ModuleHandle, Error>)
    requires
        call_ensures(Nxt::module_find_first_reply, (recv,), r),
        0 <= end <= 20,
        forall|i: int| 1 <= i < 1 + end && i < recv@.unread().len() ==> recv@.unread()[i] != 0,
        end < 20 && 1 + end < recv@.unread().len() ==> recv@.unread()[1 + end] == 0,
    ensures
        ({
            let d = recv@.unread();
            if d.len() < 21 {
                r == Err::<ModuleHandle, Error>(Error::Parse("Unexpected end of packet"))
            } else if !valid_utf8(d.subrange(1, 1 + end)) {
                r == Err::<ModuleHandle, Error>(Error::Parse("Invalid UTF-8"))
            } else if d.len() < 31 {
                r == Err::<ModuleHandle, Error>(Error::Parse("Unexpected end of packet"))
            } else {
                &&& r matches Ok(m)
                &&& m.handle == d[0]
                &&& m.name@ == decode_utf8(d.subrange(1, 1 + end))
                &&& m.id == d[21] + 256 * d[22] + 65536 * d[23] + 16777216 * d[24]
                &&& m.len == d[25] + 256 * d[26] + 65536 * d[27] + 16777216 * d[28]
                &&& m.iomap_len == d[29] + 256 * d[30]
            }
        }),
{
    let d = recv@.unread();
    if d.len() >= 21 {
        text_ends_at_the_first_zero(d, 1, 20, end);
    }
}

/// The next module found: the handle, the name up to its first zero byte
/// (at `end`) or through all its twenty bytes, the ID, the size and the size
/// of the IO map
pub proof fn module_find_next_data(recv: Packet, end: int, r: Result<ModuleHandle, Error>)
    requires
        call_ensures(Nxt::module_find_next_reply, (recv,), r),
        0 <= end <= 20,
        forall|i: int| 1 <= i < 1 + end && i < recv@.unread().len() ==> recv@.unread()[i] != 0,
        end < 20 && 1 + end < recv@.unread().len() ==> recv@.unread()[1 + end] == 0,
    ensures
        ({
            let d = recv@.unread();
            if d.len() < 21 {
                r == Err::<ModuleHandle, Error>(Error::Parse("Unexpected end of packet"))
            } else if !valid_utf8(d.subrange(1, 1 + end)) {
                r == Err::<ModuleHandle, Error>(Error::Parse("Invalid UTF-8"))
            } else if d.len() < 31 {
                r == Err::<ModuleHandle, Error>(Error::Parse("Unexpected end of packet"))
            } else {
                &&& r matches Ok(m)
                &&& m.handle == d[0]
                &&& m.name@ == decode_utf8(d.subrange(1, 1 + end))
                &&& m.id == d[21] + 256 * d[22] + 65536 * d[23] + 16777216 * d[24]
                &&& m.len == d[25] + 256 * d[26] + 65536 * d[27] + 16777216 * d[28]
                &&& m.iomap_len == d[29] + 256 * d[30]
            }
        }),
{
    let d = recv@.unread();
    if d.len() >= 21 {
        text_ends_at_the_first_zero(d, 1, 20, end);
    }
}

/// The name of the program goes up to its first zero byte (at `end`) or
/// through all its twenty bytes
pub proof fn get_current_program_name_data(recv: Packet, end: int, r: Result<String, Error>)
    requires
        call_ensures(Nxt::get_current_program_name_reply, (recv,), r),
        0 <= end <= 20,
        forall|i: int| 0 <= i < 0 + end && i < recv@.unread().len() ==> recv@.unread()[i] != 0,
        end < 20 && 0 + end < recv@.unread().len() ==> recv@.unread()[0 + end] == 0,
    ensures
        ({
            let d = recv@.unread();
            if d.len() < 20 {
                r == Err::<String, Error>(Error::Parse("Unexpected end of packet"))
            } else if !valid_utf8(d.subrange(0, end)) {
                r == Err::<String, Error>(Error::Parse("Invalid UTF-8"))
            } else {
                r matches Ok(name) && name@ == decode_utf8(d.subrange(0, end))
            }
        }),
{
    let d = recv@.unread();
    if d.len() >= 20 {
        text_ends_at_the_first_zero(d, 0, 20, end);
    }
}

/// The device information: the name up to its first zero byte (at `end`) or
/// through all its fifteen bytes, the Bluetooth address byte for byte, one
/// unused byte, the four signal strengths, the free memory
pub proof fn get_device_info_data(recv: Packet, end: int, r: Result<DeviceInfo, Error>)
    requires
        call_ensures(Nxt::get_device_info_reply, (recv,), r),
        0 <= end <= 15,
        forall|i: int| 0 <= i < 0 + end && i < recv@.unread().len() ==> recv@.unread()[i] != 0,
        end < 15 && 0 + end < recv@.unread().len() ==> recv@.unread()[0 + end] == 0,
    ensures
        ({
            let d = recv@.unread();
            if d.len() < 15 {
                r == Err::<DeviceInfo, Error>(Error::Parse("Unexpected end of packet"))
            } else if !valid_utf8(d.subrange(0, end)) {
                r == Err::<DeviceInfo, Error>(Error::Parse("Invalid UTF-8"))
            } else if d.len() < 30 {
                r == Err::<DeviceInfo, Error>(Error::Parse("Unexpected end of packet"))
            } else {
                &&& r matches Ok(info)
                &&& info.name@ == decode_utf8(d.subrange(0, end))
                &&& forall|i: int| 0 <= i < 6 ==> #[trigger] info.bt_addr@[i] == d[15 + i]
                &&& info.signal_strength.0 == d[22]
                &&& info.signal_strength.1 == d[23]
                &&& info.signal_strength.2 == d[24]
                &&& info.signal_strength.3 == d[25]
                &&& info.flash == d[26] + 256 * d[27] + 65536 * d[28] + 16777216 * d[29]
            }
        }),
{
    let d = recv@.unread();
    if d.len() >= 15 {
        text_ends_at_the_first_zero(d, 0, 15, end);
    }
    if d.len() >= 30 && valid_utf8(d.subrange(0, end)) {
        let addr = r->Ok_0@.bt_addr;
        assert(addr == d.subrange(15, 21));
        assert forall|i: int| 0 <= i < 6 implies #[trigger] r->Ok_0.bt_addr@[i] == d[15 + i] by {
            assert(addr[i] == d[15 + i]);
        }
    }
}

/// A brick is called what its device information says, and gives that name
/// when asked; without good device information there is no brick.
pub proof fn init_takes_the_name(recv: Packet, end: int, r: Result<Nxt, Error>)
    requires
        call_ensures(Nxt::init, (recv,), r),
        0 <= end <= 15,
        forall|i: int| 0 <= i < 0 + end && i < recv@.unread().len() ==> recv@.unread()[i] != 0,
        end < 15 && 0 + end < recv@.unread().len() ==> recv@.unread()[0 + end] == 0,
    ensures
        ({
            let d = recv@.unread();
            if d.len() < 15 {
                r == Err::<Nxt, Error>(Error::Parse("Unexpected end of packet"))
            } else if !valid_utf8(d.subrange(0, end)) {
                r == Err::<Nxt, Error>(Error::Parse("Invalid UTF-8"))
            } else if d.len() < 30 {
                r == Err::<Nxt, Error>(Error::Parse("Unexpected end of packet"))
            } else {
                &&& r matches Ok(nxt)
                &&& forall|name: &str|
                    #[trigger] call_ensures(Nxt::name, (&nxt,), name) ==> name@ == decode_utf8(
                        d.subrange(0, end),
                    )
            }
        }),
{
    let d = recv@.unread();
    if d.len() >= 15 {
        text_ends_at_the_first_zero(d, 0, 15, end);
    }
}

} // verus!
