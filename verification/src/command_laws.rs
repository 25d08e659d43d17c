//! What goes out for each command, byte for byte.
//!
//! Every law here takes a command, its arguments and what the command gave,
//! and says what that has to be.

use crate::display::{DisplayRead, DisplayStep};
use crate::error::Error;
use crate::exchange::Request;
use crate::motor::{OutMode, OutPort, RegulationMode, RunState};
use crate::nxt::Nxt;
use crate::opcode::Opcode;
use crate::sensor::{InPort, SensorMode, SensorType};
use crate::system::{BufType, FileHandle, FindFileHandle, ModuleHandle};
use vstd::prelude::*;
use vstd::utf8::encode_utf8;

verus! {

/// Asking for the battery level
pub proof fn get_battery_level_request(nxt: &Nxt, r: Result<Request, Error>)
    requires
        call_ensures(Nxt::get_battery_level, (nxt,), r),
    ensures
        ({
            &&& r matches Ok(req)
            &&& req@.opcode == Opcode::DirectGetBattLevel
            &&& req@.bytes == seq![0x00u8, 0x0b]
        }),
{
}

/// Stopping the program
pub proof fn stop_program_request(nxt: &Nxt, r: Result<Request, Error>)
    requires
        call_ensures(Nxt::stop_program, (nxt,), r),
    ensures
        ({
            &&& r matches Ok(req)
            &&& req@.opcode == Opcode::DirectStopProgram
            &&& req@.bytes == seq![0x00u8, 0x01]
        }),
{
}

/// Stopping the sound
pub proof fn stop_sound_playback_request(nxt: &Nxt, r: Result<Request, Error>)
    requires
        call_ensures(Nxt::stop_sound_playback, (nxt,), r),
    ensures
        ({
            &&& r matches Ok(req)
            &&& req@.opcode == Opcode::DirectStopSound
            &&& req@.bytes == seq![0x00u8, 0x0c]
        }),
{
}

/// Keeping the brick awake
pub proof fn keep_alive_request(nxt: &Nxt, r: Result<Request, Error>)
    requires
        call_ensures(Nxt::keep_alive, (nxt,), r),
    ensures
        ({
            &&& r matches Ok(req)
            &&& req@.opcode == Opcode::DirectKeepAlive
            &&& req@.bytes == seq![0x00u8, 0x0d]
        }),
{
}

/// Asking for the name of the running program
pub proof fn get_current_program_name_request(nxt: &Nxt, r: Result<Request, Error>)
    requires
        call_ensures(Nxt::get_current_program_name, (nxt,), r),
    ensures
        ({
            &&& r matches Ok(req)
            &&& req@.opcode == Opcode::DirectGetCurrProgram
            &&& req@.bytes == seq![0x00u8, 0x11]
        }),
{
}

/// Starting a program. The name comes as it is, filled up with zero
/// bytes to twenty bytes; a longer name is rejected
pub proof fn start_program_request(nxt: &Nxt, name: &str, r: Result<Request, Error>)
    requires
        call_ensures(Nxt::start_program, (nxt, name), r),
    ensures
        encode_utf8(name@).len() <= 19 ==> {
            &&& r matches Ok(req)
            &&& req@.opcode == Opcode::DirectStartProgram
            &&& req@.bytes == seq![0x00u8, 0x00] + encode_utf8(name@) + Seq::new(
                (20 - encode_utf8(name@).len()) as nat,
                |i: int| 0u8,
            )
        },
        encode_utf8(name@).len() > 19 ==> r == Err::<Request, Error>(
            Error::Serialise("String too long"),
        ),
{
    if encode_utf8(name@).len() <= 19 {
        assert(r->Ok_0@.bytes =~= seq![0x00u8, 0x00] + encode_utf8(name@) + Seq::new(
            (20 - encode_utf8(name@).len()) as nat,
            |i: int| 0u8,
        ));
    }
}

/// Playing a sound file: whether to repeat it, then the name
pub proof fn play_sound_request(nxt: &Nxt, file: &str, loop_: bool, r: Result<Request, Error>)
    requires
        call_ensures(Nxt::play_sound, (nxt, file, loop_), r),
    ensures
        encode_utf8(file@).len() <= 19 ==> {
            &&& r matches Ok(req)
            &&& req@.opcode == Opcode::DirectPlaySoundFile
            &&& req@.bytes == seq![0x00u8, 0x02, if loop_ { 1 } else { 0 }] + encode_utf8(file@) + Seq::new(
                (20 - encode_utf8(file@).len()) as nat,
                |i: int| 0u8,
            )
        },
        encode_utf8(file@).len() > 19 ==> r == Err::<Request, Error>(
            Error::Serialise("String too long"),
        ),
{
    if encode_utf8(file@).len() <= 19 {
        assert(r->Ok_0@.bytes =~= seq![0x00u8, 0x02, if loop_ { 1 } else { 0 }] + encode_utf8(file@) + Seq::new(
            (20 - encode_utf8(file@).len()) as nat,
            |i: int| 0u8,
        ));
    }
}

/// Playing a tone: the frequency, then the duration
pub proof fn play_tone_request(nxt: &Nxt, freq: u16, duration_ms: u16, r: Result<Request, Error>)
    requires
        call_ensures(Nxt::play_tone, (nxt, freq, duration_ms), r),
    ensures
        ({
            &&& r matches Ok(req)
            &&& req@.opcode == Opcode::DirectPlayTone
            &&& req@.bytes == seq![
                0x00u8,
                0x03,
                (freq % 256) as u8,
                (freq / 256) as u8,
                (duration_ms % 256) as u8,
                (duration_ms / 256) as u8,
            ]
        }),
{
}

/// Driving motors: power and turn ratio go out in two's complement, so the
/// byte equals the number modulo 256, and the mode has its bits unchanged
pub proof fn set_output_state_request(
    nxt: &Nxt,
    port: OutPort,
    power: i8,
    mode: OutMode,
    regulation_mode: RegulationMode,
    turn_ratio: i8,
    run_state: RunState,
    tacho_limit: u32,
    r: Result<Request, Error>,
)
    requires
        call_ensures(
            Nxt::set_output_state,
            (nxt, port, power, mode, regulation_mode, turn_ratio, run_state, tacho_limit),
            r,
        ),
    ensures
        ({
            &&& r matches Ok(req)
            &&& req@.opcode == Opcode::DirectSetOutState
            &&& req@.bytes == seq![
                0x00u8,
                0x04,
                port.code(),
                (if power >= 0 { power as int } else { power + 256 }) as u8,
                mode.0,
                regulation_mode.code(),
                (if turn_ratio >= 0 { turn_ratio as int } else { turn_ratio + 256 }) as u8,
                run_state.code(),
                (tacho_limit % 256) as u8,
                (tacho_limit / 256 % 256) as u8,
                (tacho_limit / 65536 % 256) as u8,
                (tacho_limit / 16777216) as u8,
            ]
        }),
{
}

/// Configuring a sensor: the port, the type, then the mode
pub proof fn set_input_mode_request(
    nxt: &Nxt,
    port: InPort,
    sensor_type: SensorType,
    sensor_mode: SensorMode,
    r: Result<Request, Error>,
)
    requires
        call_ensures(Nxt::set_input_mode, (nxt, port, sensor_type, sensor_mode), r),
    ensures
        ({
            &&& r matches Ok(req)
            &&& req@.opcode == Opcode::DirectSetInMode
            &&& req@.bytes == seq![0x00u8, 0x05, port.code(), sensor_type.code(), sensor_mode.code()]
        }),
{
}

/// Asking for the state of an output
pub proof fn get_output_state_request(nxt: &Nxt, port: OutPort, r: Result<Request, Error>)
    requires
        call_ensures(Nxt::get_output_state, (nxt, port), r),
    ensures
        ({
            &&& r matches Ok(req)
            &&& req@.opcode == Opcode::DirectGetOutState
            &&& req@.bytes == seq![0x00u8, 0x06, port.code()]
        }),
{
}

/// Asking for the reading of an input
pub proof fn get_input_values_request(nxt: &Nxt, port: InPort, r: Result<Request, Error>)
    requires
        call_ensures(Nxt::get_input_values, (nxt, port), r),
    ensures
        ({
            &&& r matches Ok(req)
            &&& req@.opcode == Opcode::DirectGetInVals
            &&& req@.bytes == seq![0x00u8, 0x07, port.code()]
        }),
{
}

/// Resetting the scaled value of an input
pub proof fn reset_input_scaled_value_request(nxt: &Nxt, port: InPort, r: Result<Request, Error>)
    requires
        call_ensures(Nxt::reset_input_scaled_value, (nxt, port), r),
    ensures
        ({
            &&& r matches Ok(req)
            &&& req@.opcode == Opcode::DirectResetInVal
            &&& req@.bytes == seq![0x00u8, 0x08, port.code()]
        }),
{
}

/// Asking for the status of a low speed port
pub proof fn ls_get_status_request(nxt: &Nxt, port: InPort, r: Result<Request, Error>)
    requires
        call_ensures(Nxt::ls_get_status, (nxt, port), r),
    ensures
        ({
            &&& r matches Ok(req)
            &&& req@.opcode == Opcode::DirectLsGetStatus
            &&& req@.bytes == seq![0x00u8, 0x0e, port.code()]
        }),
{
}

/// Reading from a low speed port
pub proof fn ls_read_request(nxt: &Nxt, port: InPort, r: Result<Request, Error>)
    requires
        call_ensures(Nxt::ls_read, (nxt, port), r),
    ensures
        ({
            &&& r matches Ok(req)
            &&& req@.opcode == Opcode::DirectLsRead
            &&& req@.bytes == seq![0x00u8, 0x10, port.code()]
        }),
{
}

/// Writing a message: the inbox, the length with the terminator, the
/// message as it is, the terminator. Inboxes go up to 19 and messages up to
/// 58 bytes
pub proof fn message_write_request(nxt: &Nxt, inbox: u8, message: &[u8], r: Result<Request, Error>)
    requires
        call_ensures(Nxt::message_write, (nxt, inbox, message), r),
    ensures
        inbox > 19 ==> r == Err::<Request, Error>(Error::Serialise("Invalid mailbox ID")),
        inbox <= 19 && message@.len() > 58 ==> r == Err::<Request, Error>(
            Error::Serialise("Message too long (max 58 bytes)"),
        ),
        inbox <= 19 && message@.len() <= 58 ==> (r matches Ok(req) && req@.opcode
            == Opcode::DirectMessageWrite && req@.bytes == seq![
            0x00u8,
            0x09,
            inbox,
            (message@.len() + 1) as u8,
        ] + message@ + seq![0x00u8]),
{
    if inbox <= 19 && message@.len() <= 58 {
        assert(r->Ok_0@.bytes =~= seq![0x00u8, 0x09, inbox, (message@.len() + 1) as u8] + message@
            + seq![0x00u8]);
    }
}

/// Resetting a motor position: the port, then whether to do so relative to
/// the last movement
pub proof fn reset_motor_position_request(
    nxt: &Nxt,
    port: OutPort,
    relative: bool,
    r: Result<Request, Error>,
)
    requires
        call_ensures(Nxt::reset_motor_position, (nxt, port, relative), r),
    ensures
        ({
            &&& r matches Ok(req)
            &&& req@.opcode == Opcode::DirectResetPosition
            &&& req@.bytes == seq![0x00u8, 0x0a, port.code(), if relative { 1 } else { 0 }]
        }),
{
}

/// Writing to a low speed port: the port, the length of the data, the number
/// of bytes to be read, the data as it is; up to 58 bytes of data
pub proof fn ls_write_request(
    nxt: &Nxt,
    port: InPort,
    tx_data: &[u8],
    rx_bytes: u8,
    r: Result<Request, Error>,
)
    requires
        call_ensures(Nxt::ls_write, (nxt, port, tx_data, rx_bytes), r),
    ensures
        tx_data@.len() > 58 ==> r == Err::<Request, Error>(Error::Serialise("Data too long")),
        tx_data@.len() <= 58 ==> (r matches Ok(req) && req@.opcode == Opcode::DirectLsWrite
            && req@.bytes == seq![0x00u8, 0x0f, port.code(), tx_data@.len() as u8, rx_bytes]
            + tx_data@),
{
    if tx_data@.len() <= 58 {
        assert(r->Ok_0@.bytes =~= seq![
            0x00u8,
            0x0f,
            port.code(),
            tx_data@.len() as u8,
            rx_bytes,
        ] + tx_data@);
    }
}

/// Reading a message: the remote inbox, the local inbox, then whether to
/// remove the message
pub proof fn message_read_request(
    nxt: &Nxt,
    remote_inbox: u8,
    local_inbox: u8,
    remove: bool,
    r: Result<Request, Error>,
)
    requires
        call_ensures(Nxt::message_read, (nxt, remote_inbox, local_inbox, remove), r),
    ensures
        ({
            &&& r matches Ok(req)
            &&& req@.opcode == Opcode::DirectMessageRead
            &&& req@.bytes == seq![0x00u8, 0x13, remote_inbox, local_inbox, if remove { 1 } else { 0 }]
        }),
{
}

/// Opening a file for writing: the name, then the length
pub proof fn file_open_write_request(nxt: &Nxt, name: &str, len: u32, r: Result<Request, Error>)
    requires
        call_ensures(Nxt::file_open_write, (nxt, name, len), r),
    ensures
        encode_utf8(name@).len() <= 19 ==> {
            &&& r matches Ok(req)
            &&& req@.opcode == Opcode::SystemOpenwrite
            &&& req@.bytes == seq![0x01u8, 0x81] + encode_utf8(name@) + Seq::new(
                (20 - encode_utf8(name@).len()) as nat,
                |i: int| 0u8,
            ) + seq![
                (len % 256) as u8,
                (len / 256 % 256) as u8,
                (len / 65536 % 256) as u8,
                (len / 16777216) as u8,
            ]
        },
        encode_utf8(name@).len() > 19 ==> r == Err::<Request, Error>(
            Error::Serialise("String too long"),
        ),
{
    if encode_utf8(name@).len() <= 19 {
        assert(r->Ok_0@.bytes =~= seq![0x01u8, 0x81] + encode_utf8(name@) + Seq::new(
            (20 - encode_utf8(name@).len()) as nat,
            |i: int| 0u8,
        ) + seq![
            (len % 256) as u8,
            (len / 256 % 256) as u8,
            (len / 65536 % 256) as u8,
            (len / 16777216) as u8,
        ]);
    }
}

/// Opening a data file for writing: the name, then the length
pub proof fn file_open_write_data_request(
    nxt: &Nxt,
    name: &str,
    len: u32,
    r: Result<Request, Error>,
)
    requires
        call_ensures(Nxt::file_open_write_data, (nxt, name, len), r),
    ensures
        encode_utf8(name@).len() <= 19 ==> {
            &&& r matches Ok(req)
            &&& req@.opcode == Opcode::SystemOpenwritedata
            &&& req@.bytes == seq![0x01u8, 0x8b] + encode_utf8(name@) + Seq::new(
                (20 - encode_utf8(name@).len()) as nat,
                |i: int| 0u8,
            ) + seq![
                (len % 256) as u8,
                (len / 256 % 256) as u8,
                (len / 65536 % 256) as u8,
                (len / 16777216) as u8,
            ]
        },
        encode_utf8(name@).len() > 19 ==> r == Err::<Request, Error>(
            Error::Serialise("String too long"),
        ),
{
    if encode_utf8(name@).len() <= 19 {
        assert(r->Ok_0@.bytes =~= seq![0x01u8, 0x8b] + encode_utf8(name@) + Seq::new(
            (20 - encode_utf8(name@).len()) as nat,
            |i: int| 0u8,
        ) + seq![
            (len % 256) as u8,
            (len / 256 % 256) as u8,
            (len / 65536 % 256) as u8,
            (len / 16777216) as u8,
        ]);
    }
}

/// Opening a data file for appending, by name
pub proof fn file_open_append_data_request(nxt: &Nxt, name: &str, r: Result<Request, Error>)
    requires
        call_ensures(Nxt::file_open_append_data, (nxt, name), r),
    ensures
        encode_utf8(name@).len() <= 19 ==> {
            &&& r matches Ok(req)
            &&& req@.opcode == Opcode::SystemOpenappenddata
            &&& req@.bytes == seq![0x01u8, 0x8c] + encode_utf8(name@) + Seq::new(
                (20 - encode_utf8(name@).len()) as nat,
                |i: int| 0u8,
            )
        },
        encode_utf8(name@).len() > 19 ==> r == Err::<Request, Error>(
            Error::Serialise("String too long"),
        ),
{
    if encode_utf8(name@).len() <= 19 {
        assert(r->Ok_0@.bytes =~= seq![0x01u8, 0x8c] + encode_utf8(name@) + Seq::new(
            (20 - encode_utf8(name@).len()) as nat,
            |i: int| 0u8,
        ));
    }
}

/// Opening a file for reading, by name
pub proof fn file_open_read_request(nxt: &Nxt, name: &str, r: Result<Request, Error>)
    requires
        call_ensures(Nxt::file_open_read, (nxt, name), r),
    ensures
        encode_utf8(name@).len() <= 19 ==> {
            &&& r matches Ok(req)
            &&& req@.opcode == Opcode::SystemOpenread
            &&& req@.bytes == seq![0x01u8, 0x80] + encode_utf8(name@) + Seq::new(
                (20 - encode_utf8(name@).len()) as nat,
                |i: int| 0u8,
            )
        },
        encode_utf8(name@).len() > 19 ==> r == Err::<Request, Error>(
            Error::Serialise("String too long"),
        ),
{
    if encode_utf8(name@).len() <= 19 {
        assert(r->Ok_0@.bytes =~= seq![0x01u8, 0x80] + encode_utf8(name@) + Seq::new(
            (20 - encode_utf8(name@).len()) as nat,
            |i: int| 0u8,
        ));
    }
}

/// Deleting a file, by name
pub proof fn file_delete_request(nxt: &Nxt, name: &str, r: Result<Request, Error>)
    requires
        call_ensures(Nxt::file_delete, (nxt, name), r),
    ensures
        encode_utf8(name@).len() <= 19 ==> {
            &&& r matches Ok(req)
            &&& req@.opcode == Opcode::SystemDelete
            &&& req@.bytes == seq![0x01u8, 0x85] + encode_utf8(name@) + Seq::new(
                (20 - encode_utf8(name@).len()) as nat,
                |i: int| 0u8,
            )
        },
        encode_utf8(name@).len() > 19 ==> r == Err::<Request, Error>(
            Error::Serialise("String too long"),
        ),
{
    if encode_utf8(name@).len() <= 19 {
        assert(r->Ok_0@.bytes =~= seq![0x01u8, 0x85] + encode_utf8(name@) + Seq::new(
            (20 - encode_utf8(name@).len()) as nat,
            |i: int| 0u8,
        ));
    }
}

/// Opening a contiguous file for reading: the name, then the length
pub proof fn file_open_read_linear_request(
    nxt: &Nxt,
    name: &str,
    len: u32,
    r: Result<Request, Error>,
)
    requires
        call_ensures(Nxt::file_open_read_linear, (nxt, name, len), r),
    ensures
        encode_utf8(name@).len() <= 19 ==> {
            &&& r matches Ok(req)
            &&& req@.opcode == Opcode::SystemOpenreadlinear
            &&& req@.bytes == seq![0x01u8, 0x8a] + encode_utf8(name@) + Seq::new(
                (20 - encode_utf8(name@).len()) as nat,
                |i: int| 0u8,
            ) + seq![
                (len % 256) as u8,
                (len / 256 % 256) as u8,
                (len / 65536 % 256) as u8,
                (len / 16777216) as u8,
            ]
        },
        encode_utf8(name@).len() > 19 ==> r == Err::<Request, Error>(
            Error::Serialise("String too long"),
        ),
{
    if encode_utf8(name@).len() <= 19 {
        assert(r->Ok_0@.bytes =~= seq![0x01u8, 0x8a] + encode_utf8(name@) + Seq::new(
            (20 - encode_utf8(name@).len()) as nat,
            |i: int| 0u8,
        ) + seq![
            (len % 256) as u8,
            (len / 256 % 256) as u8,
            (len / 65536 % 256) as u8,
            (len / 16777216) as u8,
        ]);
    }
}

/// Opening a contiguous file for writing: the name, then the length
pub proof fn file_open_write_linear_request(
    nxt: &Nxt,
    name: &str,
    len: u32,
    r: Result<Request, Error>,
)
    requires
        call_ensures(Nxt::file_open_write_linear, (nxt, name, len), r),
    ensures
        encode_utf8(name@).len() <= 19 ==> {
            &&& r matches Ok(req)
            &&& req@.opcode == Opcode::SystemOpenwritelinear
            &&& req@.bytes == seq![0x01u8, 0x89] + encode_utf8(name@) + Seq::new(
                (20 - encode_utf8(name@).len()) as nat,
                |i: int| 0u8,
            ) + seq![
                (len % 256) as u8,
                (len / 256 % 256) as u8,
                (len / 65536 % 256) as u8,
                (len / 16777216) as u8,
            ]
        },
        encode_utf8(name@).len() > 19 ==> r == Err::<Request, Error>(
            Error::Serialise("String too long"),
        ),
{
    if encode_utf8(name@).len() <= 19 {
        assert(r->Ok_0@.bytes =~= seq![0x01u8, 0x89] + encode_utf8(name@) + Seq::new(
            (20 - encode_utf8(name@).len()) as nat,
            |i: int| 0u8,
        ) + seq![
            (len % 256) as u8,
            (len / 256 % 256) as u8,
            (len / 65536 % 256) as u8,
            (len / 16777216) as u8,
        ]);
    }
}

/// Finding the first file, by pattern
pub proof fn file_find_first_request(nxt: &Nxt, pattern: &str, r: Result<Request, Error>)
    requires
        call_ensures(Nxt::file_find_first, (nxt, pattern), r),
    ensures
        encode_utf8(pattern@).len() <= 19 ==> {
            &&& r matches Ok(req)
            &&& req@.opcode == Opcode::SystemFindfirst
            &&& req@.bytes == seq![0x01u8, 0x86] + encode_utf8(pattern@) + Seq::new(
                (20 - encode_utf8(pattern@).len()) as nat,
                |i: int| 0u8,
            )
        },
        encode_utf8(pattern@).len() > 19 ==> r == Err::<Request, Error>(
            Error::Serialise("String too long"),
        ),
{
    if encode_utf8(pattern@).len() <= 19 {
        assert(r->Ok_0@.bytes =~= seq![0x01u8, 0x86] + encode_utf8(pattern@) + Seq::new(
            (20 - encode_utf8(pattern@).len()) as nat,
            |i: int| 0u8,
        ));
    }
}

/// Finding the first module, by pattern
pub proof fn module_find_first_request(nxt: &Nxt, pattern: &str, r: Result<Request, Error>)
    requires
        call_ensures(Nxt::module_find_first, (nxt, pattern), r),
    ensures
        encode_utf8(pattern@).len() <= 19 ==> {
            &&& r matches Ok(req)
            &&& req@.opcode == Opcode::SystemFindfirstmodule
            &&& req@.bytes == seq![0x01u8, 0x90] + encode_utf8(pattern@) + Seq::new(
                (20 - encode_utf8(pattern@).len()) as nat,
                |i: int| 0u8,
            )
        },
        encode_utf8(pattern@).len() > 19 ==> r == Err::<Request, Error>(
            Error::Serialise("String too long"),
        ),
{
    if encode_utf8(pattern@).len() <= 19 {
        assert(r->Ok_0@.bytes =~= seq![0x01u8, 0x90] + encode_utf8(pattern@) + Seq::new(
            (20 - encode_utf8(pattern@).len()) as nat,
            |i: int| 0u8,
        ));
    }
}

/// Writing to a file: the handle, then the data in the order given; up to 61
/// bytes of data fit into a packet
pub proof fn file_write_request(
    nxt: &Nxt,
    handle: &FileHandle,
    data: &[u8],
    r: Result<Request, Error>,
)
    requires
        call_ensures(Nxt::file_write, (nxt, handle, data), r),
    ensures
        data@.len() <= 61 ==> (r matches Ok(req) && req@.opcode == Opcode::SystemWrite
            && req@.bytes == seq![0x01u8, 0x83, handle.handle] + data@),
        data@.len() > 61 ==> r == Err::<Request, Error>(Error::Serialise("Packet too long")),
{
    if data@.len() <= 61 {
        assert(r->Ok_0@.bytes =~= seq![0x01u8, 0x83, handle.handle] + data@);
    }
}

/// Closing a file, by handle
pub proof fn file_close_request(nxt: &Nxt, handle: &FileHandle, r: Result<Request, Error>)
    requires
        call_ensures(Nxt::file_close, (nxt, handle), r),
    ensures
        ({
            &&& r matches Ok(req)
            &&& req@.opcode == Opcode::SystemClose
            &&& req@.bytes == seq![0x01u8, 0x84, handle.handle]
        }),
{
}

/// Finding the next file, by handle
pub proof fn file_find_next_request(nxt: &Nxt, handle: &FindFileHandle, r: Result<Request, Error>)
    requires
        call_ensures(Nxt::file_find_next, (nxt, handle), r),
    ensures
        ({
            &&& r matches Ok(req)
            &&& req@.opcode == Opcode::SystemFindnext
            &&& req@.bytes == seq![0x01u8, 0x87, handle.handle]
        }),
{
}

/// Finding the next module, by handle
pub proof fn module_find_next_request(nxt: &Nxt, handle: &ModuleHandle, r: Result<Request, Error>)
    requires
        call_ensures(Nxt::module_find_next, (nxt, handle), r),
    ensures
        ({
            &&& r matches Ok(req)
            &&& req@.opcode == Opcode::SystemFindnextmodule
            &&& req@.bytes == seq![0x01u8, 0x91, handle.handle]
        }),
{
}

/// Closing a module, by handle
pub proof fn module_close_request(nxt: &Nxt, handle: &ModuleHandle, r: Result<Request, Error>)
    requires
        call_ensures(Nxt::module_close, (nxt, handle), r),
    ensures
        ({
            &&& r matches Ok(req)
            &&& req@.opcode == Opcode::SystemClosemodhandle
            &&& req@.bytes == seq![0x01u8, 0x92, handle.handle]
        }),
{
}

/// Reading from a file: the handle, then the number of bytes
pub proof fn file_read_request(nxt: &Nxt, handle: &FileHandle, len: u32, r: Result<Request, Error>)
    requires
        call_ensures(Nxt::file_read, (nxt, handle, len), r),
    ensures
        ({
            &&& r matches Ok(req)
            &&& req@.opcode == Opcode::SystemRead
            &&& req@.bytes == seq![
                0x01u8,
                0x82,
                handle.handle,
                (len % 256) as u8,
                (len / 256 % 256) as u8,
                (len / 65536 % 256) as u8,
                (len / 16777216) as u8,
            ]
        }),
{
}

/// Reading from an IO map: the module, the offset, then the number of bytes
pub proof fn read_io_map_request(
    nxt: &Nxt,
    mod_id: u32,
    offset: u16,
    count: u16,
    r: Result<Request, Error>,
)
    requires
        call_ensures(Nxt::read_io_map, (nxt, mod_id, offset, count), r),
    ensures
        ({
            &&& r matches Ok(req)
            &&& req@.opcode == Opcode::SystemIomapread
            &&& req@.bytes == seq![
                0x01u8,
                0x94,
                (mod_id % 256) as u8,
                (mod_id / 256 % 256) as u8,
                (mod_id / 65536 % 256) as u8,
                (mod_id / 16777216) as u8,
                (offset % 256) as u8,
                (offset / 256) as u8,
                (count % 256) as u8,
                (count / 256) as u8,
            ]
        }),
{
}

/// Writing to an IO map: the module, the offset, the length of the data, then
/// the data as it is; up to 54 bytes of data fit into a packet
pub proof fn write_io_map_request(
    nxt: &Nxt,
    mod_id: u32,
    offset: u16,
    data: &[u8],
    r: Result<Request, Error>,
)
    requires
        call_ensures(Nxt::write_io_map, (nxt, mod_id, offset, data), r),
    ensures
        data@.len() <= 54 ==> (r matches Ok(req) && req@.opcode == Opcode::SystemIomapwrite
            && req@.bytes == seq![
            0x01u8,
            0x95,
            (mod_id % 256) as u8,
            (mod_id / 256 % 256) as u8,
            (mod_id / 65536 % 256) as u8,
            (mod_id / 16777216) as u8,
            (offset % 256) as u8,
            (offset / 256) as u8,
            (data@.len() % 256) as u8,
            (data@.len() / 256) as u8,
        ] + data@),
        54 < data@.len() <= 65535 ==> r == Err::<Request, Error>(
            Error::Serialise("Packet too long"),
        ),
        data@.len() > 65535 ==> r == Err::<Request, Error>(Error::TryFromInt),
{
    if data@.len() <= 54 {
        assert(r->Ok_0@.bytes =~= seq![
            0x01u8,
            0x95,
            (mod_id % 256) as u8,
            (mod_id / 256 % 256) as u8,
            (mod_id / 65536 % 256) as u8,
            (mod_id / 16777216) as u8,
            (offset % 256) as u8,
            (offset / 256) as u8,
            (data@.len() % 256) as u8,
            (data@.len() / 256) as u8,
        ] + data@);
    }
}

/// Asking for the versions
pub proof fn get_firmware_version_request(nxt: &Nxt, r: Result<Request, Error>)
    requires
        call_ensures(Nxt::get_firmware_version, (nxt,), r),
    ensures
        ({
            &&& r matches Ok(req)
            &&& req@.opcode == Opcode::SystemVersions
            &&& req@.bytes == seq![0x01u8, 0x88]
        }),
{
}

/// Asking for the Bluetooth address
pub proof fn get_bt_addr_request(nxt: &Nxt, r: Result<Request, Error>)
    requires
        call_ensures(Nxt::get_bt_addr, (nxt,), r),
    ensures
        ({
            &&& r matches Ok(req)
            &&& req@.opcode == Opcode::SystemBtgetaddr
            &&& req@.bytes == seq![0x01u8, 0x9a]
        }),
{
}

/// Asking for the device information
pub proof fn get_device_info_request(nxt: &Nxt, r: Result<Request, Error>)
    requires
        call_ensures(Nxt::get_device_info, (nxt,), r),
    ensures
        ({
            &&& r matches Ok(req)
            &&& req@.opcode == Opcode::SystemDeviceinfo
            &&& req@.bytes == seq![0x01u8, 0x9b]
        }),
{
}

/// Deleting the user flash storage
pub proof fn delete_user_flash_request(nxt: &Nxt, r: Result<Request, Error>)
    requires
        call_ensures(Nxt::delete_user_flash, (nxt,), r),
    ensures
        ({
            &&& r matches Ok(req)
            &&& req@.opcode == Opcode::SystemDeleteuserflash
            &&& req@.bytes == seq![0x01u8, 0xa0]
        }),
{
}

/// Resetting the Bluetooth module
pub proof fn bluetooth_factory_reset_request(nxt: &Nxt, r: Result<Request, Error>)
    requires
        call_ensures(Nxt::bluetooth_factory_reset, (nxt,), r),
    ensures
        ({
            &&& r matches Ok(req)
            &&& req@.opcode == Opcode::SystemBtfactoryreset
            &&& req@.bytes == seq![0x01u8, 0xa4]
        }),
{
}

/// Booting: only if sure, and only with the phrase that the firmware wants
pub proof fn boot_request(nxt: &Nxt, sure: bool, r: Result<Request, Error>)
    requires
        call_ensures(Nxt::boot, (nxt, sure), r),
    ensures
        sure ==> (r matches Ok(req) && req@.opcode == Opcode::SystemBootcmd && req@.bytes == seq![
            0x01u8,
            0x97,
        ] + encode_utf8("Let's dance: SAMBA\0"@)),
        !sure ==> r == Err::<Request, Error>(
            Error::Serialise("Are you sure? This is not recoverable"),
        ),
{
}

/// Naming the brick: the name as it is, filled up with zero bytes to sixteen
/// bytes; a longer name is rejected
pub proof fn set_brick_name_request(nxt: &Nxt, name: &str, r: Result<Request, Error>)
    requires
        call_ensures(Nxt::set_brick_name, (nxt, name), r),
    ensures
        encode_utf8(name@).len() <= 15 ==> (r matches Ok(req) && req@.opcode
            == Opcode::SystemSetbrickname && req@.bytes == seq![0x01u8, 0x98] + encode_utf8(name@)
            + Seq::new((16 - encode_utf8(name@).len()) as nat, |i: int| 0u8)),
        encode_utf8(name@).len() > 15 ==> r == Err::<Request, Error>(
            Error::Serialise("String too long"),
        ),
{
    if encode_utf8(name@).len() <= 15 {
        assert(r->Ok_0@.bytes =~= seq![0x01u8, 0x98] + encode_utf8(name@) + Seq::new(
            (16 - encode_utf8(name@).len()) as nat,
            |i: int| 0u8,
        ));
    }
}

/// Asking for the length of a buffered command
pub proof fn poll_command_length_request(nxt: &Nxt, buf: BufType, r: Result<Request, Error>)
    requires
        call_ensures(Nxt::poll_command_length, (nxt, buf), r),
    ensures
        ({
            &&& r matches Ok(req)
            &&& req@.opcode == Opcode::SystemPollcmdlen
            &&& req@.bytes == seq![0x01u8, 0xa1, buf.code()]
        }),
{
}

/// Asking for a buffered command: the buffer, then the number of bytes
pub proof fn poll_command_request(nxt: &Nxt, buf: BufType, len: u8, r: Result<Request, Error>)
    requires
        call_ensures(Nxt::poll_command, (nxt, buf, len), r),
    ensures
        ({
            &&& r matches Ok(req)
            &&& req@.opcode == Opcode::SystemPollcmd
            &&& req@.bytes == seq![0x01u8, 0xa2, buf.code(), len]
        }),
{
}

/// Reading the display: as long as a chunk is missing, the next 32 bytes are
/// asked for, from where the last chunk ended; the data of the display
/// starts at offset 119. After 25 chunks the data is all that was received.
pub proof fn get_display_data_step(nxt: &Nxt, read: &DisplayRead, r: Result<DisplayStep, Error>)
    requires
        0 <= read.chunks() <= 25,
        call_ensures(Nxt::get_display_data, (nxt, read), r),
    ensures
        ({
            let offset = 119 + 32 * read.chunks();
            read.chunks() < 25 ==> (r matches Ok(DisplayStep::Send(req)) && req@.opcode
                == Opcode::SystemIomapread && req@.bytes == seq![
                0x01u8,
                0x94,
                0x01,
                0x00,
                0x0a,
                0x00,
                (offset % 256) as u8,
                (offset / 256) as u8,
                32,
                0,
            ])
        }),
        read.chunks() == 25 ==> (r matches Ok(DisplayStep::Complete(out)) && out@ == read@),
{
}

} // verus!
