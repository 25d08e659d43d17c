//! System commands on modules and their IO maps.

use crate::error::Error;
use crate::exchange::{sends, sends_if_fits, Request};
use crate::nxt::Nxt;
use crate::opcode::Opcode;
use crate::protocol::{filename_field, Packet, MAX_FILENAME_LEN};
use crate::reply::{filename_len, found_module, long_counted_run, short};
use crate::system::ModuleHandle;
use crate::wire::{le16, le32};
use vstd::prelude::*;
use vstd::utf8::encode_utf8;

verus! {

impl Nxt {
    /// Search for a module matching the specified pattern and return a
    /// handle to the search state
    pub fn module_find_first(&self, pattern: &str) -> (r: Result<Request, Error>)
        ensures
            if encode_utf8(pattern@).len() <= MAX_FILENAME_LEN {
                sends(r, Opcode::SystemFindfirstmodule, filename_field(pattern@))
            } else {
                r == Err::<Request, Error>(Error::Serialise("String too long"))
            },
    {
        let mut pkt = Packet::new(Opcode::SystemFindfirstmodule);
        pkt.push_filename(pattern)?;
        Request::send(&pkt)
    }

    /// Take the first match out of the reply
    pub fn module_find_first_reply(recv: Packet) -> (r: Result<ModuleHandle, Error>)
        requires
            recv.wf(),
        ensures
            match found_module(recv@.unread()) {
                Ok(value) => r matches Ok(v) && v@ == value,
                Err(error) => r == Err::<ModuleHandle, Error>(error),
            },
    {
        let mut recv = recv;
        let ghost d = recv@.unread();
        let handle = recv.read_u8()?;
        let ghost end = 1 + filename_len();
        assert(d.len() >= end ==> recv@.unread().subrange(0, end - 1) =~= d.subrange(1, end));
        let name = recv.read_filename()?;
        let id = recv.read_u32()?;
        let len = recv.read_u32()?;
        let iomap_len = recv.read_u16()?;
        Ok(ModuleHandle { handle, name, id, len, iomap_len })
    }

    /// Take a search handle and ask for the next match; the brick refuses
    /// if there are no further matches
    pub fn module_find_next(&self, handle: &ModuleHandle) -> (r: Result<Request, Error>)
        ensures
            sends(r, Opcode::SystemFindnextmodule, seq![handle.handle]),
    {
        let mut pkt = Packet::new(Opcode::SystemFindnextmodule);
        pkt.push_u8(handle.handle);
        Request::send(&pkt)
    }

    /// Take the next match out of the reply
    pub fn module_find_next_reply(recv: Packet) -> (r: Result<ModuleHandle, Error>)
        requires
            recv.wf(),
        ensures
            match found_module(recv@.unread()) {
                Ok(value) => r matches Ok(v) && v@ == value,
                Err(error) => r == Err::<ModuleHandle, Error>(error),
            },
    {
        let mut recv = recv;
        let ghost d = recv@.unread();
        let handle = recv.read_u8()?;
        let ghost end = 1 + filename_len();
        assert(d.len() >= end ==> recv@.unread().subrange(0, end - 1) =~= d.subrange(1, end));
        let name = recv.read_filename()?;
        let id = recv.read_u32()?;
        let len = recv.read_u32()?;
        let iomap_len = recv.read_u16()?;
        Ok(ModuleHandle { handle, name, id, len, iomap_len })
    }

    /// Close the provided module handle
    pub fn module_close(&self, handle: &ModuleHandle) -> (r: Result<Request, Error>)
        ensures
            sends(r, Opcode::SystemClosemodhandle, seq![handle.handle]),
    {
        let mut pkt = Packet::new(Opcode::SystemClosemodhandle);
        pkt.push_u8(handle.handle);
        Request::send(&pkt)
    }

    /// Read `count` bytes from the IO map belonging to the specified module
    /// at the given offset
    pub fn read_io_map(&self, mod_id: u32, offset: u16, count: u16) -> (r: Result<Request, Error>)
        ensures
            sends(r, Opcode::SystemIomapread, le32(mod_id) + le16(offset) + le16(count)),
    {
        let mut pkt = Packet::new(Opcode::SystemIomapread);
        pkt.push_u32(mod_id);
        pkt.push_u16(offset);
        pkt.push_u16(count);
        Request::send(&pkt)
    }

    /// Take the data read from the IO map out of the reply
    pub fn read_io_map_reply(recv: Packet) -> (r: Result<Vec<u8>, Error>)
        requires
            recv.wf(),
        ensures
            match long_counted_run(recv@.unread(), 4) {
                Ok(value) => r matches Ok(v) && v@ == value,
                Err(error) => r == Err::<Vec<u8>, Error>(error),
            },
    {
        let mut recv = recv;
        let _mod_id = recv.read_u32()?;
        let len = recv.read_u16()?;
        recv.read_slice(len as usize)
    }

    /// Write the provided data into the IO map belonging to the specified
    /// module at the given offset. Fails if the length of the data is not a
    /// 16-bit number, or else if the data does not fit into a packet.
    pub fn write_io_map(
        &self,
        mod_id: u32,
        offset: u16,
        data: &[u8],
    ) -> (r: Result<Request, Error>)
        ensures
            if data@.len() > u16::MAX {
                r == Err::<Request, Error>(Error::TryFromInt)
            } else {
                sends_if_fits(
                    r,
                    Opcode::SystemIomapwrite,
                    le32(mod_id) + le16(offset) + le16(data@.len() as u16) + data@,
                )
            },
    {
        let mut pkt = Packet::new(Opcode::SystemIomapwrite);
        pkt.push_u32(mod_id);
        pkt.push_u16(offset);
        match u16::try_from(data.len()) {
            Ok(len) => pkt.push_u16(len),
            Err(_) => return Err(Error::TryFromInt),
        }
        pkt.push_slice(data);
        Request::send(&pkt)
    }

    /// Take the number of bytes written out of the reply
    pub fn write_io_map_reply(recv: Packet) -> (r: Result<u16, Error>)
        requires
            recv.wf(),
        ensures
            r == short(recv@.unread(), 4),
    {
        let mut recv = recv;
        let _mod_id = recv.read_u32()?;
        recv.read_u16()
    }
}

} // verus!
