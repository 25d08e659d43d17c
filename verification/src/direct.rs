//! Direct commands: programs, sounds, motors, sensors and mailboxes.

use crate::error::Error;
use crate::exchange::{sends, Request};
use crate::motor::{OutMode, OutPort, OutputState, RegulationMode, RunState};
use crate::nxt::{Nxt, MAX_INBOX_ID, MAX_MESSAGE_LEN};
use crate::opcode::Opcode;
use crate::protocol::{filename_field, Packet, MAX_FILENAME_LEN};
use crate::reply::{
    byte, counted_run, filename_len, input_values, long, output_state, short, text,
};
use crate::sensor::{InPort, InputValues, SensorMode, SensorType};
use crate::wire::{byte_of_bool, byte_of_i8, le16, le32};
use vstd::prelude::*;
use vstd::utf8::encode_utf8;

verus! {

impl Nxt {
    /// Retrieve the current battery level, in mV
    pub fn get_battery_level(&self) -> (r: Result<Request, Error>)
        ensures
            sends(r, Opcode::DirectGetBattLevel, seq![]),
    {
        let pkt = Packet::new(Opcode::DirectGetBattLevel);
        Request::send(&pkt)
    }

    /// Take the battery level out of the reply
    pub fn get_battery_level_reply(recv: Packet) -> (r: Result<u16, Error>)
        requires
            recv.wf(),
        ensures
            r == short(recv@.unread(), 0),
    {
        let mut recv = recv;
        recv.read_u16()
    }

    /// Start running the program with the specified name. The brick answers
    /// [`ERR_RC_ILLEGAL_VAL`] if the file does not exist.
    ///
    /// [`ERR_RC_ILLEGAL_VAL`]: crate::error::ERR_RC_ILLEGAL_VAL
    pub fn start_program(&self, name: &str) -> (r: Result<Request, Error>)
        ensures
            if encode_utf8(name@).len() <= MAX_FILENAME_LEN {
                sends(r, Opcode::DirectStartProgram, filename_field(name@))
            } else {
                r == Err::<Request, Error>(Error::Serialise("String too long"))
            },
    {
        let mut pkt = Packet::new(Opcode::DirectStartProgram);
        pkt.push_filename(name)?;
        Request::send(&pkt)
    }

    /// Stop the currently executing program. The brick answers
    /// [`ERR_NO_PROG`] if there is no program running.
    ///
    /// [`ERR_NO_PROG`]: crate::error::ERR_NO_PROG
    pub fn stop_program(&self) -> (r: Result<Request, Error>)
        ensures
            sends(r, Opcode::DirectStopProgram, seq![]),
    {
        let pkt = Packet::new(Opcode::DirectStopProgram);
        Request::send(&pkt)
    }

    /// Play the specified sound file, over and over if `loop_` is set. The
    /// brick answers [`ERR_RC_ILLEGAL_VAL`] if the file does not exist.
    ///
    /// [`ERR_RC_ILLEGAL_VAL`]: crate::error::ERR_RC_ILLEGAL_VAL
    pub fn play_sound(&self, file: &str, loop_: bool) -> (r: Result<Request, Error>)
        ensures
            if encode_utf8(file@).len() <= MAX_FILENAME_LEN {
                sends(r, Opcode::DirectPlaySoundFile, seq![byte_of_bool(loop_)] + filename_field(file@))
            } else {
                r == Err::<Request, Error>(Error::Serialise("String too long"))
            },
    {
        let mut pkt = Packet::new(Opcode::DirectPlaySoundFile);
        pkt.push_bool(loop_);
        pkt.push_filename(file)?;
        Request::send(&pkt)
    }

    /// Play the specified tone for the given duration
    pub fn play_tone(&self, freq: u16, duration_ms: u16) -> (r: Result<Request, Error>)
        ensures
            sends(r, Opcode::DirectPlayTone, le16(freq) + le16(duration_ms)),
    {
        let mut pkt = Packet::new(Opcode::DirectPlayTone);
        pkt.push_u16(freq);
        pkt.push_u16(duration_ms);
        Request::send(&pkt)
    }

    /// Set the output state for the given individual or compound port
    pub fn set_output_state(
        &self,
        port: OutPort,
        power: i8,
        mode: OutMode,
        regulation_mode: RegulationMode,
        turn_ratio: i8,
        run_state: RunState,
        tacho_limit: u32,
    ) -> (r: Result<Request, Error>)
        ensures
            sends(
                r,
                Opcode::DirectSetOutState,
                seq![
                    port.code(),
                    byte_of_i8(power),
                    mode.0,
                    regulation_mode.code(),
                    byte_of_i8(turn_ratio),
                    run_state.code(),
                ] + le32(tacho_limit),
            ),
    {
        let mut pkt = Packet::new(Opcode::DirectSetOutState);
        pkt.push_u8(port.code());
        pkt.push_i8(power);
        pkt.push_u8(mode.0);
        pkt.push_u8(regulation_mode.code());
        pkt.push_i8(turn_ratio);
        pkt.push_u8(run_state.code());
        pkt.push_u32(tacho_limit);
        assert(pkt@.data =~= seq![
            port.code(),
            byte_of_i8(power),
            mode.0,
            regulation_mode.code(),
            byte_of_i8(turn_ratio),
            run_state.code(),
        ] + le32(tacho_limit));
        Request::send(&pkt)
    }

    /// Set the given input to the specified mode
    pub fn set_input_mode(
        &self,
        port: InPort,
        sensor_type: SensorType,
        sensor_mode: SensorMode,
    ) -> (r: Result<Request, Error>)
        ensures
            sends(
                r,
                Opcode::DirectSetInMode,
                seq![port.code(), sensor_type.code(), sensor_mode.code()],
            ),
    {
        let mut pkt = Packet::new(Opcode::DirectSetInMode);
        pkt.push_u8(port.code());
        pkt.push_u8(sensor_type.code());
        pkt.push_u8(sensor_mode.code());
        assert(pkt@.data =~= seq![port.code(), sensor_type.code(), sensor_mode.code()]);
        Request::send(&pkt)
    }

    /// Retrieve the state of the specified output. The brick answers
    /// [`ERR_RC_ILLEGAL_VAL`] if the port is not a single port.
    ///
    /// [`ERR_RC_ILLEGAL_VAL`]: crate::error::ERR_RC_ILLEGAL_VAL
    pub fn get_output_state(&self, port: OutPort) -> (r: Result<Request, Error>)
        ensures
            sends(r, Opcode::DirectGetOutState, seq![port.code()]),
    {
        let mut pkt = Packet::new(Opcode::DirectGetOutState);
        pkt.push_u8(port.code());
        Request::send(&pkt)
    }

    /// Take the state of the output out of the reply
    pub fn get_output_state_reply(recv: Packet) -> (r: Result<OutputState, Error>)
        requires
            recv.wf(),
        ensures
            r == output_state(recv@.unread()),
    {
        let mut recv = recv;
        let port = OutPort::try_from(recv.read_u8()?)?;
        let power = recv.read_i8()?;
        let mode = OutMode::from(recv.read_u8()?);
        let regulation_mode = RegulationMode::try_from(recv.read_u8()?)?;
        let turn_ratio = recv.read_i8()?;
        let run_state = RunState::try_from(recv.read_u8()?)?;
        let tacho_limit = recv.read_u32()?;
        let tacho_count = recv.read_i32()?;
        let block_tacho_count = recv.read_i32()?;
        let rotation_count = recv.read_i32()?;
        Ok(
            OutputState {
                port,
                power,
                mode,
                regulation_mode,
                turn_ratio,
                run_state,
                tacho_limit,
                tacho_count,
                block_tacho_count,
                rotation_count,
            },
        )
    }

    /// Retrieve the state of the specified input port
    pub fn get_input_values(&self, port: InPort) -> (r: Result<Request, Error>)
        ensures
            sends(r, Opcode::DirectGetInVals, seq![port.code()]),
    {
        let mut pkt = Packet::new(Opcode::DirectGetInVals);
        pkt.push_u8(port.code());
        Request::send(&pkt)
    }

    /// Take the reading of the input out of the reply
    pub fn get_input_values_reply(recv: Packet) -> (r: Result<InputValues, Error>)
        requires
            recv.wf(),
        ensures
            r == input_values(recv@.unread()),
    {
        let mut recv = recv;
        let port = InPort::try_from(recv.read_u8()?)?;
        let valid = recv.read_bool()?;
        let calibrated = recv.read_bool()?;
        let sensor_type = SensorType::try_from(recv.read_u8()?)?;
        let sensor_mode = SensorMode::try_from(recv.read_u8()?)?;
        let raw_value = recv.read_u16()?;
        let normalised_value = recv.read_u16()?;
        let scaled_value = recv.read_i16()?;
        let calibrated_value = recv.read_i16()?;
        Ok(
            InputValues {
                port,
                valid,
                calibrated,
                sensor_type,
                sensor_mode,
                raw_value,
                normalised_value,
                scaled_value,
                calibrated_value,
            },
        )
    }

    /// Reset the scaled value of the specified input port, e.g. clear the
    /// edge or pulse counter
    pub fn reset_input_scaled_value(&self, port: InPort) -> (r: Result<Request, Error>)
        ensures
            sends(r, Opcode::DirectResetInVal, seq![port.code()]),
    {
        let mut pkt = Packet::new(Opcode::DirectResetInVal);
        pkt.push_u8(port.code());
        Request::send(&pkt)
    }

    /// Write a message to the specified inbox. Fails if the inbox ID is
    /// greater than [`MAX_INBOX_ID`] or if the message is longer than
    /// [`MAX_MESSAGE_LEN`] bytes.
    pub fn message_write(&self, inbox: u8, message: &[u8]) -> (r: Result<Request, Error>)
        ensures
            if inbox > MAX_INBOX_ID {
                r == Err::<Request, Error>(Error::Serialise("Invalid mailbox ID"))
            } else if message@.len() > MAX_MESSAGE_LEN {
                r == Err::<Request, Error>(Error::Serialise("Message too long (max 58 bytes)"))
            } else {
                sends(
                    r,
                    Opcode::DirectMessageWrite,
                    seq![inbox, (message@.len() + 1) as u8] + message@ + seq![0u8],
                )
            },
    {
        if inbox > MAX_INBOX_ID {
            return Err(Error::Serialise("Invalid mailbox ID"));
        }
        if message.len() > MAX_MESSAGE_LEN {
            return Err(Error::Serialise("Message too long (max 58 bytes)"));
        }
        let mut pkt = Packet::new(Opcode::DirectMessageWrite);
        pkt.push_u8(inbox);
        // data length has already been checked
        pkt.push_u8(message.len() as u8 + 1);
        pkt.push_slice(message);
        pkt.push_u8(0);
        assert(pkt@.data =~= seq![inbox, (message@.len() + 1) as u8] + message@ + seq![0u8]);
        Request::send(&pkt)
    }

    /// Reset the motor position counter. The brick answers
    /// [`ERR_RC_ILLEGAL_VAL`] if the port is not a single port.
    ///
    /// * `relative`:
    ///   * `true`: reset position relative to last motor control block
    ///   * `false`: reset position relative to start of last program
    ///
    /// [`ERR_RC_ILLEGAL_VAL`]: crate::error::ERR_RC_ILLEGAL_VAL
    pub fn reset_motor_position(
        &self,
        port: OutPort,
        relative: bool,
    ) -> (r: Result<Request, Error>)
        ensures
            sends(r, Opcode::DirectResetPosition, seq![port.code(), byte_of_bool(relative)]),
    {
        let mut pkt = Packet::new(Opcode::DirectResetPosition);
        pkt.push_u8(port.code());
        pkt.push_bool(relative);
        assert(pkt@.data =~= seq![port.code(), byte_of_bool(relative)]);
        Request::send(&pkt)
    }

    /// Stop playing the current sound file, if any
    pub fn stop_sound_playback(&self) -> (r: Result<Request, Error>)
        ensures
            sends(r, Opcode::DirectStopSound, seq![]),
    {
        let pkt = Packet::new(Opcode::DirectStopSound);
        Request::send(&pkt)
    }

    /// Reset the sleep timer and ask for the sleep timeout
    pub fn keep_alive(&self) -> (r: Result<Request, Error>)
        ensures
            sends(r, Opcode::DirectKeepAlive, seq![]),
    {
        let pkt = Packet::new(Opcode::DirectKeepAlive);
        Request::send(&pkt)
    }

    /// Take the sleep timeout out of the reply
    pub fn keep_alive_reply(recv: Packet) -> (r: Result<u32, Error>)
        requires
            recv.wf(),
        ensures
            r == long(recv@.unread(), 0),
    {
        let mut recv = recv;
        recv.read_u32()
    }

    /// Retrieve the status of the specified low speed port
    pub fn ls_get_status(&self, port: InPort) -> (r: Result<Request, Error>)
        ensures
            sends(r, Opcode::DirectLsGetStatus, seq![port.code()]),
    {
        let mut pkt = Packet::new(Opcode::DirectLsGetStatus);
        pkt.push_u8(port.code());
        Request::send(&pkt)
    }

    /// Take the status of the low speed port out of the reply
    pub fn ls_get_status_reply(recv: Packet) -> (r: Result<u8, Error>)
        requires
            recv.wf(),
        ensures
            r == byte(recv@.unread(), 0),
    {
        let mut recv = recv;
        recv.read_u8()
    }

    /// Write the provided data to the low speed bus on the given port and
    /// have the brick read the specified number of bytes in response. Fails
    /// if the data is longer than [`MAX_MESSAGE_LEN`] bytes.
    pub fn ls_write(
        &self,
        port: InPort,
        tx_data: &[u8],
        rx_bytes: u8,
    ) -> (r: Result<Request, Error>)
        ensures
            if tx_data@.len() > MAX_MESSAGE_LEN {
                r == Err::<Request, Error>(Error::Serialise("Data too long"))
            } else {
                sends(
                    r,
                    Opcode::DirectLsWrite,
                    seq![port.code(), tx_data@.len() as u8, rx_bytes] + tx_data@,
                )
            },
    {
        // unsure what limit should be here, go with max packet size for
        // now
        if tx_data.len() > MAX_MESSAGE_LEN {
            return Err(Error::Serialise("Data too long"));
        }
        let mut pkt = Packet::new(Opcode::DirectLsWrite);
        pkt.push_u8(port.code());
        // data length has already been checked
        pkt.push_u8(tx_data.len() as u8);
        pkt.push_u8(rx_bytes);
        pkt.push_slice(tx_data);
        assert(pkt@.data =~= seq![port.code(), tx_data@.len() as u8, rx_bytes] + tx_data@);
        Request::send(&pkt)
    }

    /// Read data from the low speed port
    pub fn ls_read(&self, port: InPort) -> (r: Result<Request, Error>)
        ensures
            sends(r, Opcode::DirectLsRead, seq![port.code()]),
    {
        let mut pkt = Packet::new(Opcode::DirectLsRead);
        pkt.push_u8(port.code());
        Request::send(&pkt)
    }

    /// Take the data read from the low speed port out of the reply
    pub fn ls_read_reply(recv: Packet) -> (r: Result<Vec<u8>, Error>)
        requires
            recv.wf(),
        ensures
            match counted_run(recv@.unread(), 0) {
                Ok(value) => r matches Ok(v) && v@ == value,
                Err(error) => r == Err::<Vec<u8>, Error>(error),
            },
    {
        let mut recv = recv;
        let len = recv.read_u8()?;
        recv.read_slice(len as usize)
    }

    /// Get the name of the currently running program. The brick answers
    /// [`ERR_NO_PROG`] if there is no program currently running.
    ///
    /// [`ERR_NO_PROG`]: crate::error::ERR_NO_PROG
    pub fn get_current_program_name(&self) -> (r: Result<Request, Error>)
        ensures
            sends(r, Opcode::DirectGetCurrProgram, seq![]),
    {
        let pkt = Packet::new(Opcode::DirectGetCurrProgram);
        Request::send(&pkt)
    }

    /// Take the name of the program out of the reply
    pub fn get_current_program_name_reply(recv: Packet) -> (r: Result<String, Error>)
        requires
            recv.wf(),
        ensures
            match text(recv@.unread(), 0, filename_len()) {
                Ok(value) => r matches Ok(v) && v@ == value,
                Err(error) => r == Err::<String, Error>(error),
            },
    {
        let mut recv = recv;
        recv.read_filename()
    }

    /// Read a message from the specified mailbox
    pub fn message_read(
        &self,
        remote_inbox: u8,
        local_inbox: u8,
        remove: bool,
    ) -> (r: Result<Request, Error>)
        ensures
            sends(
                r,
                Opcode::DirectMessageRead,
                seq![remote_inbox, local_inbox, byte_of_bool(remove)],
            ),
    {
        let mut pkt = Packet::new(Opcode::DirectMessageRead);
        pkt.push_u8(remote_inbox);
        pkt.push_u8(local_inbox);
        pkt.push_bool(remove);
        assert(pkt@.data =~= seq![remote_inbox, local_inbox, byte_of_bool(remove)]);
        Request::send(&pkt)
    }

    /// Take the message out of the reply
    pub fn message_read_reply(recv: Packet) -> (r: Result<Vec<u8>, Error>)
        requires
            recv.wf(),
        ensures
            match counted_run(recv@.unread(), 1) {
                Ok(value) => r matches Ok(v) && v@ == value,
                Err(error) => r == Err::<Vec<u8>, Error>(error),
            },
    {
        let mut recv = recv;
        let _local_inbox = recv.read_u8()?;
        let len = recv.read_u8()?;
        recv.read_slice(len as usize)
    }
}

} // verus!
