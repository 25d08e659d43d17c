//! Errors reported by this crate.

use vstd::prelude::*;

verus! {

/// Status byte: data contains out-of-range values.
pub const ERR_RC_ILLEGAL_VAL: u8 = 0xc0;

/// Status byte: no active program.
pub const ERR_NO_PROG: u8 = 0xec;

/// Everything that can go wrong while talking to a brick, apart from
/// failures of the transport itself.
#[derive(Debug, Clone, Copy, PartialEq, Eq)]
pub enum Error {
    /// The command cannot be put into a packet
    Serialise(&'static str),
    /// The received bytes do not have the expected shape
    Parse(&'static str),
    /// A length does not fit into its field on the wire
    TryFromInt,
    /// The transport took fewer (or more) bytes than were handed to it
    Write,
    /// The reply belongs to a different command
    ReplyMismatch,
    /// The brick refused the command; the status byte says why
    Status(u8),
}

} // verus!
