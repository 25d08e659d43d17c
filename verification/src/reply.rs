//! What the replies of the brick mean.
//!
//! Each function here gives, for the payload of a reply to one command,
//! the value that the payload stands for, or the error that keeps it from
//! standing for any. Values are read from front to back, and the first
//! one that is missing or not valid decides on the error. Bytes after the
//! last value are ignored.

use crate::error::Error;
use crate::motor::{
    out_port_of, regulation_mode_of, run_state_of, OutMode, OutputState,
};
use crate::nxt::MAX_NAME_LEN;
use crate::protocol::{bad_text, truncated, MAX_FILENAME_LEN};
use crate::sensor::{in_port_of, sensor_mode_of, sensor_type_of, InputValues};
use crate::system::{DeviceInfoView, FileHandle, FindFileView, FwVersion, ModuleView};
use crate::wire::{i16_of_bits, i32_of_bits, i8_of_byte, text_at, u16_at, u32_at};
use vstd::prelude::*;

verus! {

/// Length of a file name field.
pub open spec fn filename_len() -> int {
    MAX_FILENAME_LEN + 1
}

/// A byte, after `at` other bytes.
pub open spec fn byte(d: Seq<u8>, at: int) -> Result<u8, Error> {
    if d.len() < at + 1 {
        Err(truncated())
    } else {
        Ok(d[at])
    }
}

/// A 16-bit number, after `at` other bytes.
pub open spec fn short(d: Seq<u8>, at: int) -> Result<u16, Error> {
    if d.len() < at + 2 {
        Err(truncated())
    } else {
        Ok(u16_at(d, at))
    }
}

/// A 32-bit number, after `at` other bytes.
pub open spec fn long(d: Seq<u8>, at: int) -> Result<u32, Error> {
    if d.len() < at + 4 {
        Err(truncated())
    } else {
        Ok(u32_at(d, at))
    }
}

/// A run of `len` bytes, after `at` other bytes.
pub open spec fn run(d: Seq<u8>, at: int, len: int) -> Result<Seq<u8>, Error> {
    if d.len() < at + len {
        Err(truncated())
    } else {
        Ok(d.subrange(at, at + len))
    }
}

/// A run of bytes whose length is the byte at index `at`, just before it.
pub open spec fn counted_run(d: Seq<u8>, at: int) -> Result<Seq<u8>, Error> {
    if d.len() < at + 1 {
        Err(truncated())
    } else {
        run(d, at + 1, d[at] as int)
    }
}

/// A run of bytes whose length is the 16-bit number at index `at`, just
/// before it.
pub open spec fn long_counted_run(d: Seq<u8>, at: int) -> Result<Seq<u8>, Error> {
    if d.len() < at + 2 {
        Err(truncated())
    } else {
        run(d, at + 2, u16_at(d, at) as int)
    }
}

/// A text field of `len` bytes, after `at` other bytes.
pub open spec fn text(d: Seq<u8>, at: int, len: int) -> Result<Seq<char>, Error> {
    if d.len() < at + len {
        Err(truncated())
    } else {
        match text_at(d, at, len) {
            Some(text) => Ok(text),
            None => Err(bad_text()),
        }
    }
}

/// Protocol and firmware version, each with the minor number first.
pub open spec fn firmware_version(d: Seq<u8>) -> Result<FwVersion, Error> {
    if d.len() < 4 {
        Err(truncated())
    } else {
        Ok(FwVersion { prot: (d[1], d[0]), fw: (d[3], d[2]) })
    }
}

/// State of an output port.
pub open spec fn output_state(d: Seq<u8>) -> Result<OutputState, Error> {
    if d.len() < 1 {
        Err(truncated())
    } else if out_port_of(d[0]) is None {
        Err(Error::Parse("Invalid output port"))
    } else if d.len() < 4 {
        Err(truncated())
    } else if regulation_mode_of(d[3]) is None {
        Err(Error::Parse("Invalid regulation mode"))
    } else if d.len() < 6 {
        Err(truncated())
    } else if run_state_of(d[5]) is None {
        Err(Error::Parse("Invalid run state"))
    } else if d.len() < 22 {
        Err(truncated())
    } else {
        Ok(
            OutputState {
                port: out_port_of(d[0])->0,
                power: i8_of_byte(d[1]),
                mode: OutMode(d[2]),
                regulation_mode: regulation_mode_of(d[3])->0,
                turn_ratio: i8_of_byte(d[4]),
                run_state: run_state_of(d[5])->0,
                tacho_limit: u32_at(d, 6),
                tacho_count: i32_of_bits(u32_at(d, 10)),
                block_tacho_count: i32_of_bits(u32_at(d, 14)),
                rotation_count: i32_of_bits(u32_at(d, 18)),
            },
        )
    }
}

/// Reading of an input port.
pub open spec fn input_values(d: Seq<u8>) -> Result<InputValues, Error> {
    if d.len() < 1 {
        Err(truncated())
    } else if in_port_of(d[0]) is None {
        Err(Error::Parse("Invalid input port"))
    } else if d.len() < 4 {
        Err(truncated())
    } else if sensor_type_of(d[3]) is None {
        Err(Error::Parse("Invalid sensor type"))
    } else if d.len() < 5 {
        Err(truncated())
    } else if sensor_mode_of(d[4]) is None {
        Err(Error::Parse("Invalid sensor mode"))
    } else if d.len() < 13 {
        Err(truncated())
    } else {
        Ok(
            InputValues {
                port: in_port_of(d[0])->0,
                valid: d[1] != 0,
                calibrated: d[2] != 0,
                sensor_type: sensor_type_of(d[3])->0,
                sensor_mode: sensor_mode_of(d[4])->0,
                raw_value: u16_at(d, 5),
                normalised_value: u16_at(d, 7),
                scaled_value: i16_of_bits(u16_at(d, 9)),
                calibrated_value: i16_of_bits(u16_at(d, 11)),
            },
        )
    }
}

/// Handle of a file whose length the brick reports.
pub open spec fn file_handle(d: Seq<u8>) -> Result<FileHandle, Error> {
    if d.len() < 5 {
        Err(truncated())
    } else {
        Ok(FileHandle { handle: d[0], len: u32_at(d, 1) })
    }
}

/// Handle of a file whose length was given when it was opened.
pub open spec fn new_file_handle(d: Seq<u8>, len: u32) -> Result<FileHandle, Error> {
    if d.len() < 1 {
        Err(truncated())
    } else {
        Ok(FileHandle { handle: d[0], len })
    }
}

/// A file that a search has found.
pub open spec fn found_file(d: Seq<u8>) -> Result<FindFileView, Error> {
    match text(d, 1, filename_len()) {
        Err(error) => Err(error),
        Ok(name) => if d.len() < 5 + filename_len() {
            Err(truncated())
        } else {
            Ok(FindFileView { handle: d[0], name, len: u32_at(d, 1 + filename_len()) })
        },
    }
}

/// A module that a search has found.
pub open spec fn found_module(d: Seq<u8>) -> Result<ModuleView, Error> {
    match text(d, 1, filename_len()) {
        Err(error) => Err(error),
        Ok(name) => if d.len() < 11 + filename_len() {
            Err(truncated())
        } else {
            Ok(
                ModuleView {
                    handle: d[0],
                    name,
                    id: u32_at(d, 1 + filename_len()),
                    len: u32_at(d, 5 + filename_len()),
                    iomap_len: u16_at(d, 9 + filename_len()),
                },
            )
        },
    }
}

/// General information on the brick. One byte between the Bluetooth
/// address and the signal strengths is not used.
pub open spec fn device_info(d: Seq<u8>) -> Result<DeviceInfoView, Error> {
    match text(d, 0, MAX_NAME_LEN as int) {
        Err(error) => Err(error),
        Ok(name) => if d.len() < MAX_NAME_LEN + 15 {
            Err(truncated())
        } else {
            Ok(
                DeviceInfoView {
                    name,
                    bt_addr: d.subrange(MAX_NAME_LEN as int, MAX_NAME_LEN + 6),
                    signal_strength: (
                        d[MAX_NAME_LEN + 7],
                        d[MAX_NAME_LEN + 8],
                        d[MAX_NAME_LEN + 9],
                        d[MAX_NAME_LEN + 10],
                    ),
                    flash: u32_at(d, MAX_NAME_LEN + 11),
                },
            )
        },
    }
}

} // verus!
