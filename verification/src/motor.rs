//! Motor control: output ports, modes and the state of an output.

use crate::error::Error;
use vstd::prelude::*;
use vstd::std_specs::convert::{FromSpecImpl, TryFromSpecImpl};
use vstd::std_specs::ops::BitOrSpecImpl;

verus! {

/// Tachometer limit that lets a motor run until told otherwise.
pub const RUN_FOREVER: u32 = 0;

/// Output port, either a single motor or a group of motors.
#[derive(Debug, Clone, Copy, PartialEq, Eq, Structural)]
pub enum OutPort {
    /// Port A
    A,
    /// Port B
    B,
    /// Port C
    C,
    /// Ports A and B
    AB,
    /// Ports A and C
    AC,
    /// Ports B and C
    BC,
    /// All three ports
    ABC,
}

/// The output port that `code` stands for on the wire, if any.
pub open spec fn out_port_of(code: u8) -> Option<OutPort> {
    match code {
        0x00 => Some(OutPort::A),
        0x01 => Some(OutPort::B),
        0x02 => Some(OutPort::C),
        0x03 => Some(OutPort::AB),
        0x04 => Some(OutPort::AC),
        0x05 => Some(OutPort::BC),
        0x06 => Some(OutPort::ABC),
        _ => None,
    }
}

impl OutPort {
    /// The byte that stands for this output port on the wire.
    pub open spec fn spec_code(self) -> u8 {
        match self {
            OutPort::A => 0x00,
            OutPort::B => 0x01,
            OutPort::C => 0x02,
            OutPort::AB => 0x03,
            OutPort::AC => 0x04,
            OutPort::BC => 0x05,
            OutPort::ABC => 0x06,
        }
    }

    /// Return the byte that stands for this output port on the wire.
    #[verifier::when_used_as_spec(spec_code)]
    pub fn code(self) -> (code: u8)
        ensures
            code == self.spec_code(),
    {
        match self {
            OutPort::A => 0x00,
            OutPort::B => 0x01,
            OutPort::C => 0x02,
            OutPort::AB => 0x03,
            OutPort::AC => 0x04,
            OutPort::BC => 0x05,
            OutPort::ABC => 0x06,
        }
    }
}

impl TryFrom<u8> for OutPort {
    type Error = Error;

    fn try_from(code: u8) -> (r: Result<OutPort, Error>) {
        match code {
            0x00 => Ok(OutPort::A),
            0x01 => Ok(OutPort::B),
            0x02 => Ok(OutPort::C),
            0x03 => Ok(OutPort::AB),
            0x04 => Ok(OutPort::AC),
            0x05 => Ok(OutPort::BC),
            0x06 => Ok(OutPort::ABC),
            _ => Err(Error::Parse("Invalid output port")),
        }
    }
}

impl TryFromSpecImpl<u8> for OutPort {
    open spec fn obeys_try_from_spec() -> bool {
        true
    }

    open spec fn try_from_spec(code: u8) -> Result<OutPort, Error> {
        match out_port_of(code) {
            Some(value) => Ok(value),
            None => Err(Error::Parse("Invalid output port")),
        }
    }
}

/// Output mode flags. Single flags are combined with `|`.
#[derive(Debug, Clone, Copy, PartialEq, Eq, Structural)]
pub struct OutMode(pub u8);

impl OutMode {
    /// No flag set: the motor coasts
    pub fn idle() -> (mode: OutMode)
        ensures
            mode == OutMode(0x00),
    {
        OutMode(0x00)
    }

    /// Power the motor
    pub fn on() -> (mode: OutMode)
        ensures
            mode == OutMode(0x01),
    {
        OutMode(0x01)
    }

    /// Brake electronically when the power is off
    pub fn brake() -> (mode: OutMode)
        ensures
            mode == OutMode(0x02),
    {
        OutMode(0x02)
    }

    /// Regulate the motor as the [`RegulationMode`] says
    pub fn regulated() -> (mode: OutMode)
        ensures
            mode == OutMode(0x04),
    {
        OutMode(0x04)
    }
}

impl std::ops::BitOr<OutMode> for OutMode {
    type Output = OutMode;

    fn bitor(self, other: OutMode) -> (mode: OutMode) {
        OutMode(self.0 | other.0)
    }
}

impl BitOrSpecImpl<OutMode> for OutMode {
    open spec fn obeys_bitor_spec() -> bool {
        true
    }

    open spec fn bitor_req(self, other: OutMode) -> bool {
        true
    }

    open spec fn bitor_spec(self, other: OutMode) -> OutMode {
        OutMode(self.0 | other.0)
    }
}

impl From<u8> for OutMode {
    fn from(bits: u8) -> (mode: OutMode) {
        OutMode(bits)
    }
}

impl FromSpecImpl<u8> for OutMode {
    open spec fn obeys_from_spec() -> bool {
        true
    }

    open spec fn from_spec(bits: u8) -> OutMode {
        OutMode(bits)
    }
}

/// What a regulated motor is regulated for.
#[derive(Debug, Clone, Copy, PartialEq, Eq, Structural)]
pub enum RegulationMode {
    /// No regulation
    Idle,
    /// Hold the speed
    Speed,
    /// Keep two motors in step
    Sync,
}

/// The regulation mode that `code` stands for on the wire, if any.
pub open spec fn regulation_mode_of(code: u8) -> Option<RegulationMode> {
    match code {
        0x00 => Some(RegulationMode::Idle),
        0x01 => Some(RegulationMode::Speed),
        0x02 => Some(RegulationMode::Sync),
        _ => None,
    }
}

impl RegulationMode {
    /// The byte that stands for this regulation mode on the wire.
    pub open spec fn spec_code(self) -> u8 {
        match self {
            RegulationMode::Idle => 0x00,
            RegulationMode::Speed => 0x01,
            RegulationMode::Sync => 0x02,
        }
    }

    /// Return the byte that stands for this regulation mode on the wire.
    #[verifier::when_used_as_spec(spec_code)]
    pub fn code(self) -> (code: u8)
        ensures
            code == self.spec_code(),
    {
        match self {
            RegulationMode::Idle => 0x00,
            RegulationMode::Speed => 0x01,
            RegulationMode::Sync => 0x02,
        }
    }
}

impl TryFrom<u8> for RegulationMode {
    type Error = Error;

    fn try_from(code: u8) -> (r: Result<RegulationMode, Error>) {
        match code {
            0x00 => Ok(RegulationMode::Idle),
            0x01 => Ok(RegulationMode::Speed),
            0x02 => Ok(RegulationMode::Sync),
            _ => Err(Error::Parse("Invalid regulation mode")),
        }
    }
}

impl TryFromSpecImpl<u8> for RegulationMode {
    open spec fn obeys_try_from_spec() -> bool {
        true
    }

    open spec fn try_from_spec(code: u8) -> Result<RegulationMode, Error> {
        match regulation_mode_of(code) {
            Some(value) => Ok(value),
            None => Err(Error::Parse("Invalid regulation mode")),
        }
    }
}

impl Default for RegulationMode {
    fn default() -> (mode: RegulationMode)
        ensures
            mode == RegulationMode::Idle,
    {
        RegulationMode::Idle
    }
}

/// What a motor is doing.
#[derive(Debug, Clone, Copy, PartialEq, Eq, Structural)]
pub enum RunState {
    /// Not running
    Idle,
    /// Speeding up
    RampUp,
    /// Running at constant power
    Running,
    /// Slowing down
    RampDown,
}

/// The run state that `code` stands for on the wire, if any.
pub open spec fn run_state_of(code: u8) -> Option<RunState> {
    match code {
        0x00 => Some(RunState::Idle),
        0x10 => Some(RunState::RampUp),
        0x20 => Some(RunState::Running),
        0x40 => Some(RunState::RampDown),
        _ => None,
    }
}

impl RunState {
    /// The byte that stands for this run state on the wire.
    pub open spec fn spec_code(self) -> u8 {
        match self {
            RunState::Idle => 0x00,
            RunState::RampUp => 0x10,
            RunState::Running => 0x20,
            RunState::RampDown => 0x40,
        }
    }

    /// Return the byte that stands for this run state on the wire.
    #[verifier::when_used_as_spec(spec_code)]
    pub fn code(self) -> (code: u8)
        ensures
            code == self.spec_code(),
    {
        match self {
            RunState::Idle => 0x00,
            RunState::RampUp => 0x10,
            RunState::Running => 0x20,
            RunState::RampDown => 0x40,
        }
    }
}

impl TryFrom<u8> for RunState {
    type Error = Error;

    fn try_from(code: u8) -> (r: Result<RunState, Error>) {
        match code {
            0x00 => Ok(RunState::Idle),
            0x10 => Ok(RunState::RampUp),
            0x20 => Ok(RunState::Running),
            0x40 => Ok(RunState::RampDown),
            _ => Err(Error::Parse("Invalid run state")),
        }
    }
}

impl TryFromSpecImpl<u8> for RunState {
    open spec fn obeys_try_from_spec() -> bool {
        true
    }

    open spec fn try_from_spec(code: u8) -> Result<RunState, Error> {
        match run_state_of(code) {
            Some(value) => Ok(value),
            None => Err(Error::Parse("Invalid run state")),
        }
    }
}

/// State of an output port as reported by the brick.
#[derive(Debug, Clone, Copy, PartialEq, Eq, Structural)]
pub struct OutputState {
    /// The port
    pub port: OutPort,
    /// Power set point, -100 to 100
    pub power: i8,
    /// Mode flags
    pub mode: OutMode,
    /// Regulation mode
    pub regulation_mode: RegulationMode,
    /// Turn ratio, -100 to 100
    pub turn_ratio: i8,
    /// Run state
    pub run_state: RunState,
    /// Current limit on a movement in progress, if any
    pub tacho_limit: u32,
    /// Count since the last reset of the motor counter
    pub tacho_count: i32,
    /// Position relative to the last programmed movement
    pub block_tacho_count: i32,
    /// Position relative to the last reset of the rotation sensor
    pub rotation_count: i32,
}

} // verus!
