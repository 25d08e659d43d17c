//! Command codes.
//!
//! Commands come in two families. Direct commands drive the running
//! brick (motors, sensors, sounds, mailboxes); system commands deal with
//! files, modules and the brick itself.

use crate::error::Error;
use vstd::prelude::*;
use vstd::std_specs::convert::TryFromSpecImpl;

verus! {

/// Code of a command. A reply carries the code of the command that it answers.
#[derive(Debug, Clone, Copy, PartialEq, Eq, Structural)]
pub enum Opcode {
    /// Start a program
    DirectStartProgram,
    /// Stop the running program
    DirectStopProgram,
    /// Play a sound file
    DirectPlaySoundFile,
    /// Play a tone
    DirectPlayTone,
    /// Set the state of an output
    DirectSetOutState,
    /// Set the mode of an input
    DirectSetInMode,
    /// Get the state of an output
    DirectGetOutState,
    /// Get the reading of an input
    DirectGetInVals,
    /// Reset the scaled value of an input
    DirectResetInVal,
    /// Write to an inbox
    DirectMessageWrite,
    /// Reset a motor position
    DirectResetPosition,
    /// Get the battery level
    DirectGetBattLevel,
    /// Stop the sound
    DirectStopSound,
    /// Reset the sleep timer
    DirectKeepAlive,
    /// Get the status of a low speed port
    DirectLsGetStatus,
    /// Write to a low speed port
    DirectLsWrite,
    /// Read from a low speed port
    DirectLsRead,
    /// Get the name of the running program
    DirectGetCurrProgram,
    /// Read from an inbox
    DirectMessageRead,
    /// Open a file for reading
    SystemOpenread,
    /// Open a file for writing
    SystemOpenwrite,
    /// Read from an open file
    SystemRead,
    /// Write to an open file
    SystemWrite,
    /// Close a file
    SystemClose,
    /// Delete a file
    SystemDelete,
    /// Find the first matching file
    SystemFindfirst,
    /// Find the next matching file
    SystemFindnext,
    /// Get the firmware versions
    SystemVersions,
    /// Open a contiguous file for writing
    SystemOpenwritelinear,
    /// Open a contiguous file for reading
    SystemOpenreadlinear,
    /// Open a data file for writing
    SystemOpenwritedata,
    /// Open a data file for appending
    SystemOpenappenddata,
    /// Find the first matching module
    SystemFindfirstmodule,
    /// Find the next matching module
    SystemFindnextmodule,
    /// Close a module handle
    SystemClosemodhandle,
    /// Read from an IO map
    SystemIomapread,
    /// Write to an IO map
    SystemIomapwrite,
    /// Enter firmware update mode
    SystemBootcmd,
    /// Set the name of the brick
    SystemSetbrickname,
    /// Get the Bluetooth address
    SystemBtgetaddr,
    /// Get the device information
    SystemDeviceinfo,
    /// Delete the user flash storage
    SystemDeleteuserflash,
    /// Get the length of a buffered command
    SystemPollcmdlen,
    /// Get a buffered command
    SystemPollcmd,
    /// Reset the Bluetooth module
    SystemBtfactoryreset,
}

/// The command that `code` stands for on the wire, if any.
pub open spec fn opcode_of(code: u8) -> Option<Opcode> {
    match code {
        0x00 => Some(Opcode::DirectStartProgram),
        0x01 => Some(Opcode::DirectStopProgram),
        0x02 => Some(Opcode::DirectPlaySoundFile),
        0x03 => Some(Opcode::DirectPlayTone),
        0x04 => Some(Opcode::DirectSetOutState),
        0x05 => Some(Opcode::DirectSetInMode),
        0x06 => Some(Opcode::DirectGetOutState),
        0x07 => Some(Opcode::DirectGetInVals),
        0x08 => Some(Opcode::DirectResetInVal),
        0x09 => Some(Opcode::DirectMessageWrite),
        0x0a => Some(Opcode::DirectResetPosition),
        0x0b => Some(Opcode::DirectGetBattLevel),
        0x0c => Some(Opcode::DirectStopSound),
        0x0d => Some(Opcode::DirectKeepAlive),
        0x0e => Some(Opcode::DirectLsGetStatus),
        0x0f => Some(Opcode::DirectLsWrite),
        0x10 => Some(Opcode::DirectLsRead),
        0x11 => Some(Opcode::DirectGetCurrProgram),
        0x13 => Some(Opcode::DirectMessageRead),
        0x80 => Some(Opcode::SystemOpenread),
        0x81 => Some(Opcode::SystemOpenwrite),
        0x82 => Some(Opcode::SystemRead),
        0x83 => Some(Opcode::SystemWrite),
        0x84 => Some(Opcode::SystemClose),
        0x85 => Some(Opcode::SystemDelete),
        0x86 => Some(Opcode::SystemFindfirst),
        0x87 => Some(Opcode::SystemFindnext),
        0x88 => Some(Opcode::SystemVersions),
        0x89 => Some(Opcode::SystemOpenwritelinear),
        0x8a => Some(Opcode::SystemOpenreadlinear),
        0x8b => Some(Opcode::SystemOpenwritedata),
        0x8c => Some(Opcode::SystemOpenappenddata),
        0x90 => Some(Opcode::SystemFindfirstmodule),
        0x91 => Some(Opcode::SystemFindnextmodule),
        0x92 => Some(Opcode::SystemClosemodhandle),
        0x94 => Some(Opcode::SystemIomapread),
        0x95 => Some(Opcode::SystemIomapwrite),
        0x97 => Some(Opcode::SystemBootcmd),
        0x98 => Some(Opcode::SystemSetbrickname),
        0x9a => Some(Opcode::SystemBtgetaddr),
        0x9b => Some(Opcode::SystemDeviceinfo),
        0xa0 => Some(Opcode::SystemDeleteuserflash),
        0xa1 => Some(Opcode::SystemPollcmdlen),
        0xa2 => Some(Opcode::SystemPollcmd),
        0xa4 => Some(Opcode::SystemBtfactoryreset),
        _ => None,
    }
}

impl Opcode {
    /// The byte that stands for this command on the wire.
    pub open spec fn spec_code(self) -> u8 {
        match self {
            Opcode::DirectStartProgram => 0x00,
            Opcode::DirectStopProgram => 0x01,
            Opcode::DirectPlaySoundFile => 0x02,
            Opcode::DirectPlayTone => 0x03,
            Opcode::DirectSetOutState => 0x04,
            Opcode::DirectSetInMode => 0x05,
            Opcode::DirectGetOutState => 0x06,
            Opcode::DirectGetInVals => 0x07,
            Opcode::DirectResetInVal => 0x08,
            Opcode::DirectMessageWrite => 0x09,
            Opcode::DirectResetPosition => 0x0a,
            Opcode::DirectGetBattLevel => 0x0b,
            Opcode::DirectStopSound => 0x0c,
            Opcode::DirectKeepAlive => 0x0d,
            Opcode::DirectLsGetStatus => 0x0e,
            Opcode::DirectLsWrite => 0x0f,
            Opcode::DirectLsRead => 0x10,
            Opcode::DirectGetCurrProgram => 0x11,
            Opcode::DirectMessageRead => 0x13,
            Opcode::SystemOpenread => 0x80,
            Opcode::SystemOpenwrite => 0x81,
            Opcode::SystemRead => 0x82,
            Opcode::SystemWrite => 0x83,
            Opcode::SystemClose => 0x84,
            Opcode::SystemDelete => 0x85,
            Opcode::SystemFindfirst => 0x86,
            Opcode::SystemFindnext => 0x87,
            Opcode::SystemVersions => 0x88,
            Opcode::SystemOpenwritelinear => 0x89,
            Opcode::SystemOpenreadlinear => 0x8a,
            Opcode::SystemOpenwritedata => 0x8b,
            Opcode::SystemOpenappenddata => 0x8c,
            Opcode::SystemFindfirstmodule => 0x90,
            Opcode::SystemFindnextmodule => 0x91,
            Opcode::SystemClosemodhandle => 0x92,
            Opcode::SystemIomapread => 0x94,
            Opcode::SystemIomapwrite => 0x95,
            Opcode::SystemBootcmd => 0x97,
            Opcode::SystemSetbrickname => 0x98,
            Opcode::SystemBtgetaddr => 0x9a,
            Opcode::SystemDeviceinfo => 0x9b,
            Opcode::SystemDeleteuserflash => 0xa0,
            Opcode::SystemPollcmdlen => 0xa1,
            Opcode::SystemPollcmd => 0xa2,
            Opcode::SystemBtfactoryreset => 0xa4,
        }
    }

    /// Return the byte that stands for this command on the wire.
    #[verifier::when_used_as_spec(spec_code)]
    pub fn code(self) -> (code: u8)
        ensures
            code == self.spec_code(),
    {
        match self {
            Opcode::DirectStartProgram => 0x00,
            Opcode::DirectStopProgram => 0x01,
            Opcode::DirectPlaySoundFile => 0x02,
            Opcode::DirectPlayTone => 0x03,
            Opcode::DirectSetOutState => 0x04,
            Opcode::DirectSetInMode => 0x05,
            Opcode::DirectGetOutState => 0x06,
            Opcode::DirectGetInVals => 0x07,
            Opcode::DirectResetInVal => 0x08,
            Opcode::DirectMessageWrite => 0x09,
            Opcode::DirectResetPosition => 0x0a,
            Opcode::DirectGetBattLevel => 0x0b,
            Opcode::DirectStopSound => 0x0c,
            Opcode::DirectKeepAlive => 0x0d,
            Opcode::DirectLsGetStatus => 0x0e,
            Opcode::DirectLsWrite => 0x0f,
            Opcode::DirectLsRead => 0x10,
            Opcode::DirectGetCurrProgram => 0x11,
            Opcode::DirectMessageRead => 0x13,
            Opcode::SystemOpenread => 0x80,
            Opcode::SystemOpenwrite => 0x81,
            Opcode::SystemRead => 0x82,
            Opcode::SystemWrite => 0x83,
            Opcode::SystemClose => 0x84,
            Opcode::SystemDelete => 0x85,
            Opcode::SystemFindfirst => 0x86,
            Opcode::SystemFindnext => 0x87,
            Opcode::SystemVersions => 0x88,
            Opcode::SystemOpenwritelinear => 0x89,
            Opcode::SystemOpenreadlinear => 0x8a,
            Opcode::SystemOpenwritedata => 0x8b,
            Opcode::SystemOpenappenddata => 0x8c,
            Opcode::SystemFindfirstmodule => 0x90,
            Opcode::SystemFindnextmodule => 0x91,
            Opcode::SystemClosemodhandle => 0x92,
            Opcode::SystemIomapread => 0x94,
            Opcode::SystemIomapwrite => 0x95,
            Opcode::SystemBootcmd => 0x97,
            Opcode::SystemSetbrickname => 0x98,
            Opcode::SystemBtgetaddr => 0x9a,
            Opcode::SystemDeviceinfo => 0x9b,
            Opcode::SystemDeleteuserflash => 0xa0,
            Opcode::SystemPollcmdlen => 0xa1,
            Opcode::SystemPollcmd => 0xa2,
            Opcode::SystemBtfactoryreset => 0xa4,
        }
    }
}

impl TryFrom<u8> for Opcode {
    type Error = Error;

    fn try_from(code: u8) -> (r: Result<Opcode, Error>) {
        match code {
            0x00 => Ok(Opcode::DirectStartProgram),
            0x01 => Ok(Opcode::DirectStopProgram),
            0x02 => Ok(Opcode::DirectPlaySoundFile),
            0x03 => Ok(Opcode::DirectPlayTone),
            0x04 => Ok(Opcode::DirectSetOutState),
            0x05 => Ok(Opcode::DirectSetInMode),
            0x06 => Ok(Opcode::DirectGetOutState),
            0x07 => Ok(Opcode::DirectGetInVals),
            0x08 => Ok(Opcode::DirectResetInVal),
            0x09 => Ok(Opcode::DirectMessageWrite),
            0x0a => Ok(Opcode::DirectResetPosition),
            0x0b => Ok(Opcode::DirectGetBattLevel),
            0x0c => Ok(Opcode::DirectStopSound),
            0x0d => Ok(Opcode::DirectKeepAlive),
            0x0e => Ok(Opcode::DirectLsGetStatus),
            0x0f => Ok(Opcode::DirectLsWrite),
            0x10 => Ok(Opcode::DirectLsRead),
            0x11 => Ok(Opcode::DirectGetCurrProgram),
            0x13 => Ok(Opcode::DirectMessageRead),
            0x80 => Ok(Opcode::SystemOpenread),
            0x81 => Ok(Opcode::SystemOpenwrite),
            0x82 => Ok(Opcode::SystemRead),
            0x83 => Ok(Opcode::SystemWrite),
            0x84 => Ok(Opcode::SystemClose),
            0x85 => Ok(Opcode::SystemDelete),
            0x86 => Ok(Opcode::SystemFindfirst),
            0x87 => Ok(Opcode::SystemFindnext),
            0x88 => Ok(Opcode::SystemVersions),
            0x89 => Ok(Opcode::SystemOpenwritelinear),
            0x8a => Ok(Opcode::SystemOpenreadlinear),
            0x8b => Ok(Opcode::SystemOpenwritedata),
            0x8c => Ok(Opcode::SystemOpenappenddata),
            0x90 => Ok(Opcode::SystemFindfirstmodule),
            0x91 => Ok(Opcode::SystemFindnextmodule),
            0x92 => Ok(Opcode::SystemClosemodhandle),
            0x94 => Ok(Opcode::SystemIomapread),
            0x95 => Ok(Opcode::SystemIomapwrite),
            0x97 => Ok(Opcode::SystemBootcmd),
            0x98 => Ok(Opcode::SystemSetbrickname),
            0x9a => Ok(Opcode::SystemBtgetaddr),
            0x9b => Ok(Opcode::SystemDeviceinfo),
            0xa0 => Ok(Opcode::SystemDeleteuserflash),
            0xa1 => Ok(Opcode::SystemPollcmdlen),
            0xa2 => Ok(Opcode::SystemPollcmd),
            0xa4 => Ok(Opcode::SystemBtfactoryreset),
            _ => Err(Error::Parse("Invalid opcode")),
        }
    }
}

impl TryFromSpecImpl<u8> for Opcode {
    open spec fn obeys_try_from_spec() -> bool {
        true
    }

    open spec fn try_from_spec(code: u8) -> Result<Opcode, Error> {
        match opcode_of(code) {
            Some(value) => Ok(value),
            None => Err(Error::Parse("Invalid opcode")),
        }
    }
}

/// First byte of a direct command that asks for a reply.
pub const DIRECT_COMMAND: u8 = 0x00;

/// First byte of a system command that asks for a reply.
pub const SYSTEM_COMMAND: u8 = 0x01;

/// First byte of a reply.
pub const REPLY: u8 = 0x02;

impl Opcode {
    /// Whether this is a system command: those have the top bit set.
    pub open spec fn is_system(self) -> bool {
        self.spec_code() >= 0x80
    }

    /// The byte that opens a packet with this command.
    pub open spec fn spec_command_type(self) -> u8 {
        if self.is_system() {
            SYSTEM_COMMAND
        } else {
            DIRECT_COMMAND
        }
    }

    /// Return the byte that opens a packet with this command.
    #[verifier::when_used_as_spec(spec_command_type)]
    pub fn command_type(self) -> (byte: u8)
        ensures
            byte == self.spec_command_type(),
    {
        if self.code() >= 0x80 {
            SYSTEM_COMMAND
        } else {
            DIRECT_COMMAND
        }
    }
}

} // verus!
