//! System commands on files.

use crate::error::Error;
use crate::exchange::{sends, sends_if_fits, Request};
use crate::nxt::Nxt;
use crate::opcode::Opcode;
use crate::protocol::{filename_field, Packet, MAX_FILENAME_LEN};
use crate::reply::{counted_run, file_handle, filename_len, found_file, long, new_file_handle};
use crate::system::{FileHandle, FindFileHandle};
use crate::wire::le32;
use vstd::prelude::*;
use vstd::utf8::encode_utf8;

verus! {

impl Nxt {
    /// Open the specified file for writing and return its handle
    pub fn file_open_write(&self, name: &str, len: u32) -> (r: Result<Request, Error>)
        ensures
            if encode_utf8(name@).len() <= MAX_FILENAME_LEN {
                sends(r, Opcode::SystemOpenwrite, filename_field(name@) + le32(len))
            } else {
                r == Err::<Request, Error>(Error::Serialise("String too long"))
            },
    {
        let mut pkt = Packet::new(Opcode::SystemOpenwrite);
        pkt.push_filename(name)?;
        pkt.push_u32(len);
        Request::send(&pkt)
    }

    /// Take the handle out of the reply; `len` is the length that the file
    /// was opened with
    pub fn file_open_write_reply(recv: Packet, len: u32) -> (r: Result<FileHandle, Error>)
        requires
            recv.wf(),
        ensures
            r == new_file_handle(recv@.unread(), len),
    {
        let mut recv = recv;
        let handle = recv.read_u8()?;
        Ok(FileHandle { handle, len })
    }

    /// Write the provided data to the previously opened file. Fails if the
    /// data does not fit into a packet.
    pub fn file_write(&self, handle: &FileHandle, data: &[u8]) -> (r: Result<Request, Error>)
        ensures
            sends_if_fits(r, Opcode::SystemWrite, seq![handle.handle] + data@),
    {
        let mut pkt = Packet::new(Opcode::SystemWrite);
        pkt.push_u8(handle.handle);
        pkt.push_slice(data);
        Request::send(&pkt)
    }

    /// Take the number of bytes written out of the reply
    pub fn file_write_reply(recv: Packet) -> (r: Result<u32, Error>)
        requires
            recv.wf(),
        ensures
            r == long(recv@.unread(), 1),
    {
        let mut recv = recv;
        let _handle = recv.read_u8()?;
        recv.read_u32()
    }

    /// Open the specified file in `write data` mode and return its handle
    pub fn file_open_write_data(&self, name: &str, len: u32) -> (r: Result<Request, Error>)
        ensures
            if encode_utf8(name@).len() <= MAX_FILENAME_LEN {
                sends(r, Opcode::SystemOpenwritedata, filename_field(name@) + le32(len))
            } else {
                r == Err::<Request, Error>(Error::Serialise("String too long"))
            },
    {
        let mut pkt = Packet::new(Opcode::SystemOpenwritedata);
        pkt.push_filename(name)?;
        pkt.push_u32(len);
        Request::send(&pkt)
    }

    /// Take the handle out of the reply; `len` is the length that the file
    /// was opened with
    pub fn file_open_write_data_reply(recv: Packet, len: u32) -> (r: Result<FileHandle, Error>)
        requires
            recv.wf(),
        ensures
            r == new_file_handle(recv@.unread(), len),
    {
        let mut recv = recv;
        let handle = recv.read_u8()?;
        Ok(FileHandle { handle, len })
    }

    /// Open the specified file in `append` mode and return its handle
    pub fn file_open_append_data(&self, name: &str) -> (r: Result<Request, Error>)
        ensures
            if encode_utf8(name@).len() <= MAX_FILENAME_LEN {
                sends(r, Opcode::SystemOpenappenddata, filename_field(name@))
            } else {
                r == Err::<Request, Error>(Error::Serialise("String too long"))
            },
    {
        let mut pkt = Packet::new(Opcode::SystemOpenappenddata);
        pkt.push_filename(name)?;
        Request::send(&pkt)
    }

    /// Take the handle and the length of the file out of the reply
    pub fn file_open_append_data_reply(recv: Packet) -> (r: Result<FileHandle, Error>)
        requires
            recv.wf(),
        ensures
            r == file_handle(recv@.unread()),
    {
        let mut recv = recv;
        let handle = recv.read_u8()?;
        let len = recv.read_u32()?;
        Ok(FileHandle { handle, len })
    }

    /// Close the specified file handle
    pub fn file_close(&self, handle: &FileHandle) -> (r: Result<Request, Error>)
        ensures
            sends(r, Opcode::SystemClose, seq![handle.handle]),
    {
        let mut pkt = Packet::new(Opcode::SystemClose);
        pkt.push_u8(handle.handle);
        Request::send(&pkt)
    }

    /// Open the specified file for reading and return its handle
    pub fn file_open_read(&self, name: &str) -> (r: Result<Request, Error>)
        ensures
            if encode_utf8(name@).len() <= MAX_FILENAME_LEN {
                sends(r, Opcode::SystemOpenread, filename_field(name@))
            } else {
                r == Err::<Request, Error>(Error::Serialise("String too long"))
            },
    {
        let mut pkt = Packet::new(Opcode::SystemOpenread);
        pkt.push_filename(name)?;
        Request::send(&pkt)
    }

    /// Take the handle and the length of the file out of the reply
    pub fn file_open_read_reply(recv: Packet) -> (r: Result<FileHandle, Error>)
        requires
            recv.wf(),
        ensures
            r == file_handle(recv@.unread()),
    {
        let mut recv = recv;
        let handle = recv.read_u8()?;
        let len = recv.read_u32()?;
        Ok(FileHandle { handle, len })
    }

    /// Read data from the previously opened file
    pub fn file_read(&self, handle: &FileHandle, len: u32) -> (r: Result<Request, Error>)
        ensures
            sends(r, Opcode::SystemRead, seq![handle.handle] + le32(len)),
    {
        let mut pkt = Packet::new(Opcode::SystemRead);
        pkt.push_u8(handle.handle);
        pkt.push_u32(len);
        Request::send(&pkt)
    }

    /// Take the data read from the file out of the reply
    pub fn file_read_reply(recv: Packet) -> (r: Result<Vec<u8>, Error>)
        requires
            recv.wf(),
        ensures
            match counted_run(recv@.unread(), 1) {
                Ok(value) => r matches Ok(v) && v@ == value,
                Err(error) => r == Err::<Vec<u8>, Error>(error),
            },
    {
        let mut recv = recv;
        let _handle = recv.read_u8()?;
        let len = recv.read_u8()?;
        recv.read_slice(len as usize)
    }

    /// Delete the named file
    pub fn file_delete(&self, name: &str) -> (r: Result<Request, Error>)
        ensures
            if encode_utf8(name@).len() <= MAX_FILENAME_LEN {
                sends(r, Opcode::SystemDelete, filename_field(name@))
            } else {
                r == Err::<Request, Error>(Error::Serialise("String too long"))
            },
    {
        let mut pkt = Packet::new(Opcode::SystemDelete);
        pkt.push_filename(name)?;
        Request::send(&pkt)
    }

    /// Search for a file matching the specified pattern and return a handle
    /// to the search state
    pub fn file_find_first(&self, pattern: &str) -> (r: Result<Request, Error>)
        ensures
            if encode_utf8(pattern@).len() <= MAX_FILENAME_LEN {
                sends(r, Opcode::SystemFindfirst, filename_field(pattern@))
            } else {
                r == Err::<Request, Error>(Error::Serialise("String too long"))
            },
    {
        let mut pkt = Packet::new(Opcode::SystemFindfirst);
        pkt.push_filename(pattern)?;
        Request::send(&pkt)
    }

    /// Take the first match out of the reply
    pub fn file_find_first_reply(recv: Packet) -> (r: Result<FindFileHandle, Error>)
        requires
            recv.wf(),
        ensures
            match found_file(recv@.unread()) {
                Ok(value) => r matches Ok(v) && v@ == value,
                Err(error) => r == Err::<FindFileHandle, Error>(error),
            },
    {
        let mut recv = recv;
        let ghost d = recv@.unread();
        let handle = recv.read_u8()?;
        let ghost end = 1 + filename_len();
        assert(d.len() >= end ==> recv@.unread().subrange(0, end - 1) =~= d.subrange(1, end));
        let name = recv.read_filename()?;
        let len = recv.read_u32()?;
        Ok(FindFileHandle { handle, name, len })
    }

    /// Take a search handle and ask for the next match; the brick refuses
    /// if there are no further matches
    pub fn file_find_next(&self, handle: &FindFileHandle) -> (r: Result<Request, Error>)
        ensures
            sends(r, Opcode::SystemFindnext, seq![handle.handle]),
    {
        let mut pkt = Packet::new(Opcode::SystemFindnext);
        pkt.push_u8(handle.handle);
        Request::send(&pkt)
    }

    /// Take the next match out of the reply
    pub fn file_find_next_reply(recv: Packet) -> (r: Result<FindFileHandle, Error>)
        requires
            recv.wf(),
        ensures
            match found_file(recv@.unread()) {
                Ok(value) => r matches Ok(v) && v@ == value,
                Err(error) => r == Err::<FindFileHandle, Error>(error),
            },
    {
        let mut recv = recv;
        let ghost d = recv@.unread();
        let handle = recv.read_u8()?;
        let ghost end = 1 + filename_len();
        assert(d.len() >= end ==> recv@.unread().subrange(0, end - 1) =~= d.subrange(1, end));
        let name = recv.read_filename()?;
        let len = recv.read_u32()?;
        Ok(FindFileHandle { handle, name, len })
    }

    /// Open the specified contiguous file for reading. For internal use only
    pub fn file_open_read_linear(&self, name: &str, len: u32) -> (r: Result<Request, Error>)
        ensures
            if encode_utf8(name@).len() <= MAX_FILENAME_LEN {
                sends(r, Opcode::SystemOpenreadlinear, filename_field(name@) + le32(len))
            } else {
                r == Err::<Request, Error>(Error::Serialise("String too long"))
            },
    {
        let mut pkt = Packet::new(Opcode::SystemOpenreadlinear);
        pkt.push_filename(name)?;
        pkt.push_u32(len);
        Request::send(&pkt)
    }

    /// Take the handle out of the reply; `len` is the length that the file
    /// was opened with
    pub fn file_open_read_linear_reply(recv: Packet, len: u32) -> (r: Result<FileHandle, Error>)
        requires
            recv.wf(),
        ensures
            r == new_file_handle(recv@.unread(), len),
    {
        let mut recv = recv;
        let handle = recv.read_u8()?;
        Ok(FileHandle { handle, len })
    }

    /// Open the specified contiguous file for writing. For internal use only
    pub fn file_open_write_linear(&self, name: &str, len: u32) -> (r: Result<Request, Error>)
        ensures
            if encode_utf8(name@).len() <= MAX_FILENAME_LEN {
                sends(r, Opcode::SystemOpenwritelinear, filename_field(name@) + le32(len))
            } else {
                r == Err::<Request, Error>(Error::Serialise("String too long"))
            },
    {
        let mut pkt = Packet::new(Opcode::SystemOpenwritelinear);
        pkt.push_filename(name)?;
        pkt.push_u32(len);
        Request::send(&pkt)
    }

    /// Take the handle out of the reply; `len` is the length that the file
    /// was opened with
    pub fn file_open_write_linear_reply(recv: Packet, len: u32) -> (r: Result<FileHandle, Error>)
        requires
            recv.wf(),
        ensures
            r == new_file_handle(recv@.unread(), len),
    {
        let mut recv = recv;
        let handle = recv.read_u8()?;
        Ok(FileHandle { handle, len })
    }
}

} // verus!
