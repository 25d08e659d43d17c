//! The brick.

use crate::error::Error;
use crate::protocol::Packet;
use crate::reply::device_info;
use vstd::prelude::*;

verus! {

/// Maximum length of a USB message
pub const MAX_MESSAGE_LEN: usize = 58;

/// Length of the brick name field
pub const MAX_NAME_LEN: usize = 15;

/// Largest inbox ID for inter-brick messaging
pub const MAX_INBOX_ID: u8 = 19;

/// Main interface to this crate: an `Nxt` knows the commands of a
/// programmable brick.
///
/// Each command is a method that gives the [`Request`] to be sent. Where
/// the reply carries data, the function of the same name with `_reply`
/// appended takes that data out of the reply.
///
/// [`Request`]: crate::exchange::Request
pub struct Nxt {
    name: String,
}

/// The view of a brick is its name.
impl View for Nxt {
    type V = Seq<char>;

    closed spec fn view(&self) -> Seq<char> {
        self.name@
    }
}

impl Clone for Nxt {
    fn clone(&self) -> (nxt: Nxt)
        ensures
            nxt@ == self@,
    {
        Nxt { name: self.name.clone() }
    }
}

impl Nxt {
    /// A brick that has not told its name yet
    pub fn unnamed() -> (nxt: Nxt)
        ensures
            nxt@ == Seq::<char>::empty(),
    {
        Nxt { name: String::new() }
    }

    /// Initialise a brick from its answer to [`Nxt::get_device_info`]
    pub fn init(recv: Packet) -> (r: Result<Nxt, Error>)
        requires
            recv.wf(),
        ensures
            match device_info(recv@.unread()) {
                Ok(info) => r matches Ok(nxt) && nxt@ == info.name,
                Err(error) => r == Err::<Nxt, Error>(error),
            },
    {
        let mut nxt = Nxt::unnamed();
        let info = Nxt::get_device_info_reply(recv)?;
        nxt.name = info.name;
        Ok(nxt)
    }

    /// Return the name of the NXT brick
    #[must_use]
    pub fn name(&self) -> (name: &str)
        ensures
            name@ == self@,
    {
        self.name.as_str()
    }
}

} // verus!
