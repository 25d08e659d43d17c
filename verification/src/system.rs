//! Files, modules, device information and firmware versions.

use vstd::prelude::*;

verus! {

/// Which of the USB command buffers to poll.
#[derive(Debug, Clone, Copy, PartialEq, Eq, Structural)]
pub enum BufType {
    /// Poll buffer
    Poll,
    /// High speed buffer
    HighSpeed,
}

impl BufType {
    /// The byte that stands for this buffer on the wire.
    pub open spec fn spec_code(self) -> u8 {
        match self {
            BufType::Poll => 0x00,
            BufType::HighSpeed => 0x01,
        }
    }

    /// Return the byte that stands for this buffer on the wire.
    #[verifier::when_used_as_spec(spec_code)]
    pub fn code(self) -> (code: u8)
        ensures
            code == self.spec_code(),
    {
        match self {
            BufType::Poll => 0x00,
            BufType::HighSpeed => 0x01,
        }
    }
}

/// Versions of the communication protocol and of the firmware.
#[derive(Debug, Clone, Copy, PartialEq, Eq)]
pub struct FwVersion {
    /// Protocol version, major then minor
    pub prot: (u8, u8),
    /// Firmware version, major then minor
    pub fw: (u8, u8),
}

/// An open file.
#[derive(Debug, Clone, Copy, PartialEq, Eq, Structural)]
pub struct FileHandle {
    /// Handle number
    pub handle: u8,
    /// Length of the file
    pub len: u32,
}

/// State of a search for files, together with the match found.
#[derive(Debug, PartialEq, Eq)]
pub struct FindFileHandle {
    /// Handle number
    pub handle: u8,
    /// Name of the file found
    pub name: String,
    /// Length of the file found
    pub len: u32,
}

/// What a [`FindFileHandle`] holds, with text as a sequence of characters.
#[verifier::ext_equal]
pub struct FindFileView {
    pub handle: u8,
    pub name: Seq<char>,
    pub len: u32,
}

impl View for FindFileHandle {
    type V = FindFileView;

    open spec fn view(&self) -> FindFileView {
        FindFileView {
            handle: self.handle,
            name: self.name@,
            len: self.len,
        }
    }
}

/// State of a search for modules, together with the match found.
#[derive(Debug, PartialEq, Eq)]
pub struct ModuleHandle {
    /// Handle number
    pub handle: u8,
    /// Name of the module found
    pub name: String,
    /// Module ID
    pub id: u32,
    /// Size of the module
    pub len: u32,
    /// Size of the IO map of the module
    pub iomap_len: u16,
}

/// What a [`ModuleHandle`] holds, with text as a sequence of characters.
#[verifier::ext_equal]
pub struct ModuleView {
    pub handle: u8,
    pub name: Seq<char>,
    pub id: u32,
    pub len: u32,
    pub iomap_len: u16,
}

impl View for ModuleHandle {
    type V = ModuleView;

    open spec fn view(&self) -> ModuleView {
        ModuleView {
            handle: self.handle,
            name: self.name@,
            id: self.id,
            len: self.len,
            iomap_len: self.iomap_len,
        }
    }
}

/// General information on a brick.
#[derive(Debug, PartialEq, Eq)]
pub struct DeviceInfo {
    /// Name of the brick
    pub name: String,
    /// Bluetooth address
    pub bt_addr: [u8; 6],
    /// Signal strength of the connected bricks
    pub signal_strength: (u8, u8, u8, u8),
    /// Free flash memory, in bytes
    pub flash: u32,
}

/// What a [`DeviceInfo`] holds, with text as a sequence of characters.
#[verifier::ext_equal]
pub struct DeviceInfoView {
    pub name: Seq<char>,
    pub bt_addr: Seq<u8>,
    pub signal_strength: (u8, u8, u8, u8),
    pub flash: u32,
}

impl View for DeviceInfo {
    type V = DeviceInfoView;

    open spec fn view(&self) -> DeviceInfoView {
        DeviceInfoView {
            name: self.name@,
            bt_addr: self.bt_addr@,
            signal_strength: self.signal_strength,
            flash: self.flash,
        }
    }
}

} // verus!
