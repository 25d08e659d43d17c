//! Sensors: input ports, sensor types and modes, and input readings.

use crate::error::Error;
use vstd::prelude::*;
use vstd::std_specs::convert::TryFromSpecImpl;

verus! {

/// Input port.
#[derive(Debug, Clone, Copy, PartialEq, Eq, Structural)]
pub enum InPort {
    /// Port 1
    S1,
    /// Port 2
    S2,
    /// Port 3
    S3,
    /// Port 4
    S4,
}

/// The input port that `code` stands for on the wire, if any.
pub open spec fn in_port_of(code: u8) -> Option<InPort> {
    match code {
        0x00 => Some(InPort::S1),
        0x01 => Some(InPort::S2),
        0x02 => Some(InPort::S3),
        0x03 => Some(InPort::S4),
        _ => None,
    }
}

impl InPort {
    /// The byte that stands for this input port on the wire.
    pub open spec fn spec_code(self) -> u8 {
        match self {
            InPort::S1 => 0x00,
            InPort::S2 => 0x01,
            InPort::S3 => 0x02,
            InPort::S4 => 0x03,
        }
    }

    /// Return the byte that stands for this input port on the wire.
    #[verifier::when_used_as_spec(spec_code)]
    pub fn code(self) -> (code: u8)
        ensures
            code == self.spec_code(),
    {
        match self {
            InPort::S1 => 0x00,
            InPort::S2 => 0x01,
            InPort::S3 => 0x02,
            InPort::S4 => 0x03,
        }
    }
}

impl TryFrom<u8> for InPort {
    type Error = Error;

    fn try_from(code: u8) -> (r: Result<InPort, Error>) {
        match code {
            0x00 => Ok(InPort::S1),
            0x01 => Ok(InPort::S2),
            0x02 => Ok(InPort::S3),
            0x03 => Ok(InPort::S4),
            _ => Err(Error::Parse("Invalid input port")),
        }
    }
}

impl TryFromSpecImpl<u8> for InPort {
    open spec fn obeys_try_from_spec() -> bool {
        true
    }

    open spec fn try_from_spec(code: u8) -> Result<InPort, Error> {
        match in_port_of(code) {
            Some(value) => Ok(value),
            None => Err(Error::Parse("Invalid input port")),
        }
    }
}

/// Kind of sensor attached to an input port.
#[derive(Debug, Clone, Copy, PartialEq, Eq, Structural)]
pub enum SensorType {
    /// No sensor
    NoSensor,
    /// Touch sensor
    Switch,
    /// Temperature sensor
    Temperature,
    /// RCX light sensor
    Reflection,
    /// Rotation sensor
    Angle,
    /// Light sensor, lamp on
    LightActive,
    /// Light sensor, lamp off
    LightInactive,
    /// Sound sensor, unadjusted
    SoundDb,
    /// Sound sensor, adjusted for the human ear
    SoundDba,
    /// Custom sensor
    Custom,
    /// Digital sensor
    LowSpeed,
    /// Digital sensor powered with 9 V
    LowSpeed9V,
    /// High speed port
    HighSpeed,
    /// Colour sensor telling colours apart
    ColourFull,
    /// Colour sensor, red lamp
    ColourRed,
    /// Colour sensor, green lamp
    ColourGreen,
    /// Colour sensor, blue lamp
    ColourBlue,
    /// Colour sensor, lamp off
    ColourNone,
}

/// The sensor type that `code` stands for on the wire, if any.
pub open spec fn sensor_type_of(code: u8) -> Option<SensorType> {
    match code {
        0x00 => Some(SensorType::NoSensor),
        0x01 => Some(SensorType::Switch),
        0x02 => Some(SensorType::Temperature),
        0x03 => Some(SensorType::Reflection),
        0x04 => Some(SensorType::Angle),
        0x05 => Some(SensorType::LightActive),
        0x06 => Some(SensorType::LightInactive),
        0x07 => Some(SensorType::SoundDb),
        0x08 => Some(SensorType::SoundDba),
        0x09 => Some(SensorType::Custom),
        0x0a => Some(SensorType::LowSpeed),
        0x0b => Some(SensorType::LowSpeed9V),
        0x0c => Some(SensorType::HighSpeed),
        0x0d => Some(SensorType::ColourFull),
        0x0e => Some(SensorType::ColourRed),
        0x0f => Some(SensorType::ColourGreen),
        0x10 => Some(SensorType::ColourBlue),
        0x11 => Some(SensorType::ColourNone),
        _ => None,
    }
}

impl SensorType {
    /// The byte that stands for this sensor type on the wire.
    pub open spec fn spec_code(self) -> u8 {
        match self {
            SensorType::NoSensor => 0x00,
            SensorType::Switch => 0x01,
            SensorType::Temperature => 0x02,
            SensorType::Reflection => 0x03,
            SensorType::Angle => 0x04,
            SensorType::LightActive => 0x05,
            SensorType::LightInactive => 0x06,
            SensorType::SoundDb => 0x07,
            SensorType::SoundDba => 0x08,
            SensorType::Custom => 0x09,
            SensorType::LowSpeed => 0x0a,
            SensorType::LowSpeed9V => 0x0b,
            SensorType::HighSpeed => 0x0c,
            SensorType::ColourFull => 0x0d,
            SensorType::ColourRed => 0x0e,
            SensorType::ColourGreen => 0x0f,
            SensorType::ColourBlue => 0x10,
            SensorType::ColourNone => 0x11,
        }
    }

    /// Return the byte that stands for this sensor type on the wire.
    #[verifier::when_used_as_spec(spec_code)]
    pub fn code(self) -> (code: u8)
        ensures
            code == self.spec_code(),
    {
        match self {
            SensorType::NoSensor => 0x00,
            SensorType::Switch => 0x01,
            SensorType::Temperature => 0x02,
            SensorType::Reflection => 0x03,
            SensorType::Angle => 0x04,
            SensorType::LightActive => 0x05,
            SensorType::LightInactive => 0x06,
            SensorType::SoundDb => 0x07,
            SensorType::SoundDba => 0x08,
            SensorType::Custom => 0x09,
            SensorType::LowSpeed => 0x0a,
            SensorType::LowSpeed9V => 0x0b,
            SensorType::HighSpeed => 0x0c,
            SensorType::ColourFull => 0x0d,
            SensorType::ColourRed => 0x0e,
            SensorType::ColourGreen => 0x0f,
            SensorType::ColourBlue => 0x10,
            SensorType::ColourNone => 0x11,
        }
    }
}

impl TryFrom<u8> for SensorType {
    type Error = Error;

    fn try_from(code: u8) -> (r: Result<SensorType, Error>) {
        match code {
            0x00 => Ok(SensorType::NoSensor),
            0x01 => Ok(SensorType::Switch),
            0x02 => Ok(SensorType::Temperature),
            0x03 => Ok(SensorType::Reflection),
            0x04 => Ok(SensorType::Angle),
            0x05 => Ok(SensorType::LightActive),
            0x06 => Ok(SensorType::LightInactive),
            0x07 => Ok(SensorType::SoundDb),
            0x08 => Ok(SensorType::SoundDba),
            0x09 => Ok(SensorType::Custom),
            0x0a => Ok(SensorType::LowSpeed),
            0x0b => Ok(SensorType::LowSpeed9V),
            0x0c => Ok(SensorType::HighSpeed),
            0x0d => Ok(SensorType::ColourFull),
            0x0e => Ok(SensorType::ColourRed),
            0x0f => Ok(SensorType::ColourGreen),
            0x10 => Ok(SensorType::ColourBlue),
            0x11 => Ok(SensorType::ColourNone),
            _ => Err(Error::Parse("Invalid sensor type")),
        }
    }
}

impl TryFromSpecImpl<u8> for SensorType {
    open spec fn obeys_try_from_spec() -> bool {
        true
    }

    open spec fn try_from_spec(code: u8) -> Result<SensorType, Error> {
        match sensor_type_of(code) {
            Some(value) => Ok(value),
            None => Err(Error::Parse("Invalid sensor type")),
        }
    }
}

/// How the raw reading of a sensor is scaled.
#[derive(Debug, Clone, Copy, PartialEq, Eq, Structural)]
pub enum SensorMode {
    /// Raw value
    Raw,
    /// True or false
    Bool,
    /// Number of edges
    TransitionCount,
    /// Number of pulses
    PeriodCount,
    /// Percentage of the full scale
    PctFullScale,
    /// Degrees Celsius
    Celsius,
    /// Degrees Fahrenheit
    Fahrenheit,
    /// Sixteenths of a turn
    AngleSteps,
}

/// The sensor mode that `code` stands for on the wire, if any.
pub open spec fn sensor_mode_of(code: u8) -> Option<SensorMode> {
    match code {
        0x00 => Some(SensorMode::Raw),
        0x20 => Some(SensorMode::Bool),
        0x40 => Some(SensorMode::TransitionCount),
        0x60 => Some(SensorMode::PeriodCount),
        0x80 => Some(SensorMode::PctFullScale),
        0xa0 => Some(SensorMode::Celsius),
        0xc0 => Some(SensorMode::Fahrenheit),
        0xe0 => Some(SensorMode::AngleSteps),
        _ => None,
    }
}

impl SensorMode {
    /// The byte that stands for this sensor mode on the wire.
    pub open spec fn spec_code(self) -> u8 {
        match self {
            SensorMode::Raw => 0x00,
            SensorMode::Bool => 0x20,
            SensorMode::TransitionCount => 0x40,
            SensorMode::PeriodCount => 0x60,
            SensorMode::PctFullScale => 0x80,
            SensorMode::Celsius => 0xa0,
            SensorMode::Fahrenheit => 0xc0,
            SensorMode::AngleSteps => 0xe0,
        }
    }

    /// Return the byte that stands for this sensor mode on the wire.
    #[verifier::when_used_as_spec(spec_code)]
    pub fn code(self) -> (code: u8)
        ensures
            code == self.spec_code(),
    {
        match self {
            SensorMode::Raw => 0x00,
            SensorMode::Bool => 0x20,
            SensorMode::TransitionCount => 0x40,
            SensorMode::PeriodCount => 0x60,
            SensorMode::PctFullScale => 0x80,
            SensorMode::Celsius => 0xa0,
            SensorMode::Fahrenheit => 0xc0,
            SensorMode::AngleSteps => 0xe0,
        }
    }
}

impl TryFrom<u8> for SensorMode {
    type Error = Error;

    fn try_from(code: u8) -> (r: Result<SensorMode, Error>) {
        match code {
            0x00 => Ok(SensorMode::Raw),
            0x20 => Ok(SensorMode::Bool),
            0x40 => Ok(SensorMode::TransitionCount),
            0x60 => Ok(SensorMode::PeriodCount),
            0x80 => Ok(SensorMode::PctFullScale),
            0xa0 => Ok(SensorMode::Celsius),
            0xc0 => Ok(SensorMode::Fahrenheit),
            0xe0 => Ok(SensorMode::AngleSteps),
            _ => Err(Error::Parse("Invalid sensor mode")),
        }
    }
}

impl TryFromSpecImpl<u8> for SensorMode {
    open spec fn obeys_try_from_spec() -> bool {
        true
    }

    open spec fn try_from_spec(code: u8) -> Result<SensorMode, Error> {
        match sensor_mode_of(code) {
            Some(value) => Ok(value),
            None => Err(Error::Parse("Invalid sensor mode")),
        }
    }
}

/// Reading of an input port as reported by the brick.
#[derive(Debug, Clone, Copy, PartialEq, Eq, Structural)]
pub struct InputValues {
    /// The port
    pub port: InPort,
    /// Whether the reading is valid
    pub valid: bool,
    /// Whether a calibration exists for the sensor
    pub calibrated: bool,
    /// Type of the sensor
    pub sensor_type: SensorType,
    /// Mode of the sensor
    pub sensor_mode: SensorMode,
    /// Raw analogue to digital value
    pub raw_value: u16,
    /// Value normalised for the sensor type
    pub normalised_value: u16,
    /// Value scaled for the sensor mode
    pub scaled_value: i16,
    /// Value scaled according to the calibration
    pub calibrated_value: i16,
}

} // verus!
