//! System commands on the brick as a whole.

use crate::error::Error;
use crate::exchange::{sends, Request};
use crate::nxt::{Nxt, MAX_NAME_LEN};
use crate::opcode::Opcode;
use crate::protocol::Packet;
use crate::reply::{byte, counted_run, device_info, firmware_version, run};
use crate::system::{BufType, DeviceInfo, FwVersion};
use crate::wire::text_field;
use vstd::prelude::*;
use vstd::utf8::{encode_utf8, is_ascii_chars_encode_utf8};

verus! {

impl Nxt {
    /// Read firmware versions from the NXT brick
    pub fn get_firmware_version(&self) -> (r: Result<Request, Error>)
        ensures
            sends(r, Opcode::SystemVersions, seq![]),
    {
        let pkt = Packet::new(Opcode::SystemVersions);
        Request::send(&pkt)
    }

    /// Take the firmware versions out of the reply
    pub fn get_firmware_version_reply(recv: Packet) -> (r: Result<FwVersion, Error>)
        requires
            recv.wf(),
        ensures
            r == firmware_version(recv@.unread()),
    {
        let mut recv = recv;
        let prot_min = recv.read_u8()?;
        let prot_maj = recv.read_u8()?;
        let fw_min = recv.read_u8()?;
        let fw_maj = recv.read_u8()?;
        Ok(FwVersion { prot: (prot_maj, prot_min), fw: (fw_maj, fw_min) })
    }

    /// Enter firmware update mode - warning, this is not recoverable without
    /// loading new firmware. Fails unless `sure` is set.
    pub fn boot(&self, sure: bool) -> (r: Result<Request, Error>)
        ensures
            if sure {
                sends(r, Opcode::SystemBootcmd, encode_utf8("Let's dance: SAMBA\0"@))
            } else {
                r == Err::<Request, Error>(Error::Serialise("Are you sure? This is not recoverable"))
            },
    {
        if !sure {
            return Err(Error::Serialise("Are you sure? This is not recoverable"));
        }
        let mut pkt = Packet::new(Opcode::SystemBootcmd);
        let phrase = "Let's dance: SAMBA\0";
        proof {
            reveal_strlit("Let's dance: SAMBA\0");
            is_ascii_chars_encode_utf8(phrase@);
        }
        pkt.push_slice(phrase.as_bytes());
        Request::send(&pkt)
    }

    /// Take the four bytes of the answer out of the reply
    pub fn boot_reply(recv: Packet) -> (r: Result<Vec<u8>, Error>)
        requires
            recv.wf(),
        ensures
            match run(recv@.unread(), 0, 4) {
                Ok(value) => r matches Ok(v) && v@ == value,
                Err(error) => r == Err::<Vec<u8>, Error>(error),
            },
    {
        let mut recv = recv;
        recv.read_slice(4)
    }

    /// Set the NXT brick's name to the provided value. Fails if the name is
    /// longer than [`MAX_NAME_LEN`] bytes.
    pub fn set_brick_name(&self, name: &str) -> (r: Result<Request, Error>)
        ensures
            if encode_utf8(name@).len() <= MAX_NAME_LEN {
                sends(r, Opcode::SystemSetbrickname, text_field(name@, MAX_NAME_LEN as int))
            } else {
                r == Err::<Request, Error>(Error::Serialise("String too long"))
            },
    {
        let mut pkt = Packet::new(Opcode::SystemSetbrickname);
        pkt.push_str(name, MAX_NAME_LEN)?;
        Request::send(&pkt)
    }

    /// Retrieve the Bluetooth address of the brick
    pub fn get_bt_addr(&self) -> (r: Result<Request, Error>)
        ensures
            sends(r, Opcode::SystemBtgetaddr, seq![]),
    {
        let pkt = Packet::new(Opcode::SystemBtgetaddr);
        Request::send(&pkt)
    }

    /// Take the Bluetooth address out of the reply
    pub fn get_bt_addr_reply(recv: Packet) -> (r: Result<[u8; 6], Error>)
        requires
            recv.wf(),
        ensures
            match run(recv@.unread(), 0, 6) {
                Ok(value) => r matches Ok(v) && v@ == value,
                Err(error) => r == Err::<[u8; 6], Error>(error),
            },
    {
        let mut recv = recv;
        let a = recv.read_slice(6)?;
        let addr = [a[0], a[1], a[2], a[3], a[4], a[5]];
        assert(addr@ =~= a@);
        Ok(addr)
    }

    /// Retrieve general device information from the brick:
    /// * Brick name
    /// * Bluetooth address
    /// * Signal strength of connected bricks
    /// * Available flash memory
    pub fn get_device_info(&self) -> (r: Result<Request, Error>)
        ensures
            sends(r, Opcode::SystemDeviceinfo, seq![]),
    {
        let pkt = Packet::new(Opcode::SystemDeviceinfo);
        Request::send(&pkt)
    }

    /// Take the device information out of the reply
    pub fn get_device_info_reply(recv: Packet) -> (r: Result<DeviceInfo, Error>)
        requires
            recv.wf(),
        ensures
            match device_info(recv@.unread()) {
                Ok(value) => r matches Ok(v) && v@ == value,
                Err(error) => r == Err::<DeviceInfo, Error>(error),
            },
    {
        let mut recv = recv;
        let name = recv.read_string(MAX_NAME_LEN)?;
        let bt_addr = [
            recv.read_u8()?,
            recv.read_u8()?,
            recv.read_u8()?,
            recv.read_u8()?,
            recv.read_u8()?,
            recv.read_u8()?,
        ];
        // unused
        recv.read_u8()?;
        let signal_strength = (
            recv.read_u8()?,
            recv.read_u8()?,
            recv.read_u8()?,
            recv.read_u8()?,
        );
        let flash = recv.read_u32()?;
        Ok(DeviceInfo { name, bt_addr, signal_strength, flash })
    }

    /// Delete user flash storage
    pub fn delete_user_flash(&self) -> (r: Result<Request, Error>)
        ensures
            sends(r, Opcode::SystemDeleteuserflash, seq![]),
    {
        let pkt = Packet::new(Opcode::SystemDeleteuserflash);
        Request::send(&pkt)
    }

    /// Ask for the length of the command in the given USB buffer
    pub fn poll_command_length(&self, buf: BufType) -> (r: Result<Request, Error>)
        ensures
            sends(r, Opcode::SystemPollcmdlen, seq![buf.code()]),
    {
        let mut pkt = Packet::new(Opcode::SystemPollcmdlen);
        pkt.push_u8(buf.code());
        Request::send(&pkt)
    }

    /// Take the length of the command out of the reply
    pub fn poll_command_length_reply(recv: Packet) -> (r: Result<u8, Error>)
        requires
            recv.wf(),
        ensures
            r == byte(recv@.unread(), 1),
    {
        let mut recv = recv;
        let _buf_num = recv.read_u8()?;
        recv.read_u8()
    }

    /// Ask for `len` bytes of the command in the given USB buffer
    pub fn poll_command(&self, buf: BufType, len: u8) -> (r: Result<Request, Error>)
        ensures
            sends(r, Opcode::SystemPollcmd, seq![buf.code(), len]),
    {
        let mut pkt = Packet::new(Opcode::SystemPollcmd);
        pkt.push_u8(buf.code());
        pkt.push_u8(len);
        assert(pkt@.data =~= seq![buf.code(), len]);
        Request::send(&pkt)
    }

    /// Take the bytes of the command out of the reply
    pub fn poll_command_reply(recv: Packet) -> (r: Result<Vec<u8>, Error>)
        requires
            recv.wf(),
        ensures
            match counted_run(recv@.unread(), 1) {
                Ok(value) => r matches Ok(v) && v@ == value,
                Err(error) => r == Err::<Vec<u8>, Error>(error),
            },
    {
        let mut recv = recv;
        let _buf = recv.read_u8()?;
        let len = recv.read_u8()?;
        recv.read_slice(len as usize)
    }

    /// Factory reset the bluetooth module
    pub fn bluetooth_factory_reset(&self) -> (r: Result<Request, Error>)
        ensures
            sends(r, Opcode::SystemBtfactoryreset, seq![]),
    {
        let pkt = Packet::new(Opcode::SystemBtfactoryreset);
        Request::send(&pkt)
    }
}

} // verus!
