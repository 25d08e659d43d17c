//! Reading the contents of the LCD screen.
//!
//! The screen does not fit into one packet, so it is read in chunks from
//! the IO map of the display module.

use crate::error::Error;
use crate::exchange::{request, sends, Request};
use crate::nxt::Nxt;
use crate::opcode::Opcode;
use crate::wire::{le16, le32};
use vstd::prelude::*;

verus! {

/// Module ID of the display (tested on the NBC enhanced firmware, may
/// differ for the official LEGO firmware)
pub const MOD_DISPLAY: u32 = 0xa0001;

/// Offset of the display data into the display iomap struct; consult
/// the firmware source for details
pub const DISPLAY_DATA_OFFSET: u16 = 119;

/// Width of NXT LCD screen in pixels
pub const DISPLAY_WIDTH: usize = 100;

/// Height of NXT LCD screen in pixels
pub const DISPLAY_HEIGHT: usize = 64;

/// Length of the display data: the LCD pixels, eight to a byte
pub const DISPLAY_DATA_LEN: usize = DISPLAY_WIDTH * DISPLAY_HEIGHT / 8;

/// Chunk size to use when requesting display data from NXT. Due to the
/// packet size restriction the display must be refreshed in chunks.
pub const DISPLAY_DATA_CHUNK_SIZE: u16 = 32;

/// Number of chunks required to retrieve the complete display data
pub const DISPLAY_NUM_CHUNKS: u16 = DISPLAY_DATA_LEN as u16 / DISPLAY_DATA_CHUNK_SIZE;

/// The payload that asks for the given chunk.
pub open spec fn chunk_payload(chunk: int) -> Seq<u8> {
    le32(MOD_DISPLAY) + le16((DISPLAY_DATA_OFFSET + chunk * DISPLAY_DATA_CHUNK_SIZE) as u16) + le16(
        DISPLAY_DATA_CHUNK_SIZE,
    )
}

/// Display data that is being read chunk by chunk.
#[derive(Debug)]
pub struct DisplayRead {
    out: [u8; DISPLAY_DATA_LEN],
    chunk_idx: u16,
}

/// The view of a display read is the data received so far.
impl View for DisplayRead {
    type V = Seq<u8>;

    closed spec fn view(&self) -> Seq<u8> {
        self.out@.take(self.chunk_idx * DISPLAY_DATA_CHUNK_SIZE)
    }
}

impl DisplayRead {
    /// Number of chunks received so far.
    pub closed spec fn chunks(&self) -> int {
        self.chunk_idx as int
    }

    /// There are no more chunks than make up the screen, and all the
    /// chunks received are complete.
    pub open spec fn wf(&self) -> bool {
        &&& 0 <= self.chunks() <= DISPLAY_NUM_CHUNKS
        &&& self@.len() == self.chunks() * DISPLAY_DATA_CHUNK_SIZE
    }

    /// A display read that has not received anything yet
    pub fn new() -> (read: DisplayRead)
        ensures
            read.wf(),
            read.chunks() == 0,
            read@ == Seq::<u8>::empty(),
    {
        DisplayRead { out: [0; DISPLAY_DATA_LEN], chunk_idx: 0 }
    }

    /// Whether all chunks have been received
    pub fn is_complete(&self) -> (complete: bool)
        requires
            self.wf(),
        ensures
            complete == (self.chunks() == DISPLAY_NUM_CHUNKS),
    {
        self.chunk_idx == DISPLAY_NUM_CHUNKS
    }

    /// Ask for the next chunk
    pub fn request(&self, nxt: &Nxt) -> (r: Result<Request, Error>)
        requires
            self.wf(),
            self.chunks() < DISPLAY_NUM_CHUNKS,
        ensures
            sends(r, Opcode::SystemIomapread, chunk_payload(self.chunks())),
    {
        nxt.read_io_map(
            MOD_DISPLAY,
            DISPLAY_DATA_OFFSET + self.chunk_idx * DISPLAY_DATA_CHUNK_SIZE,
            DISPLAY_DATA_CHUNK_SIZE,
        )
    }

    /// Add the next chunk, as taken out of the reply by
    /// [`Nxt::read_io_map_reply`]
    pub fn push_chunk(&mut self, data: &[u8])
        requires
            old(self).wf(),
            old(self).chunks() < DISPLAY_NUM_CHUNKS,
            data@.len() == DISPLAY_DATA_CHUNK_SIZE,
        ensures
            final(self).wf(),
            final(self).chunks() == old(self).chunks() + 1,
            final(self)@ == old(self)@ + data@,
    {
        let start: usize = self.chunk_idx as usize * DISPLAY_DATA_CHUNK_SIZE as usize;
        let ghost before = self@;
        let mut i: usize = 0;
        while i < data.len()
            invariant
                data@.len() == DISPLAY_DATA_CHUNK_SIZE,
                self.chunk_idx == old(self).chunk_idx,
                self.chunk_idx < DISPLAY_NUM_CHUNKS,
                start == self.chunk_idx * DISPLAY_DATA_CHUNK_SIZE,
                before.len() == start,
                0 <= i <= data@.len(),
                self.out@.take(start + i) == before + data@.take(i as int),
            decreases data@.len() - i,
        {
            let ghost out = self.out@;
            self.out[start + i] = data[i];
            assert(self.out@ == out.update(start + i, data@[i as int]));
            assert(self.out@.take(start + i + 1) =~= out.take(start + i).push(data@[i as int]));
            assert(before + data@.take(i + 1) =~= (before + data@.take(i as int)).push(
                data@[i as int],
            ));
            i += 1;
        }
        assert(data@.take(i as int) =~= data@);
        self.chunk_idx += 1;
    }

    /// The complete display data
    pub fn finish(&self) -> (out: [u8; DISPLAY_DATA_LEN])
        requires
            self.wf(),
            self.chunks() == DISPLAY_NUM_CHUNKS,
        ensures
            out@ == self@,
    {
        assert(self.out@.take(DISPLAY_DATA_LEN as int) =~= self.out@);
        self.out
    }
}

/// What to do next about a display read.
#[derive(Debug)]
pub enum DisplayStep {
    /// Send the request, and add the chunk in its reply
    Send(Request),
    /// Nothing: this is the complete display data
    Complete([u8; DISPLAY_DATA_LEN]),
}

impl Nxt {
    /// Retrieve the contents of the LCD screen, given what has been read of
    /// them so far: ask for the next chunk as long as there is one, and
    /// give the data once there is none. Begin with [`DisplayRead::new`].
    pub fn get_display_data(&self, read: &DisplayRead) -> (r: Result<DisplayStep, Error>)
        requires
            read.wf(),
        ensures
            if read.chunks() < DISPLAY_NUM_CHUNKS {
                r matches Ok(DisplayStep::Send(req)) && req@ == request(
                    Opcode::SystemIomapread,
                    chunk_payload(read.chunks()),
                )
            } else {
                r matches Ok(DisplayStep::Complete(out)) && out@ == read@
            },
    {
        if read.is_complete() {
            Ok(DisplayStep::Complete(read.finish()))
        } else {
            Ok(DisplayStep::Send(read.request(self)?))
        }
    }
}

} // verus!
