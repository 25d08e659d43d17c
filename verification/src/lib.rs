//! Commands and replies of the LEGO Mindstorms NXT brick.
//!
//! A command is a method of [`Nxt`] that gives a [`Request`]. Write the
//! bytes of the request to the brick, tell [`Request::sent`] how many were
//! taken, and hand the bytes of the answer to [`Awaiting::recv`]. Where
//! the reply carries data, the function named after the command with
//! `_reply` appended takes it out.
//!
//! [`Request::sent`]: exchange::Request::sent
//! [`Awaiting::recv`]: exchange::Awaiting::recv

pub use display::{DISPLAY_DATA_LEN, DISPLAY_HEIGHT, DISPLAY_WIDTH};
pub use error::Error;
pub use exchange::Request;
pub use nxt::{Nxt, MAX_INBOX_ID, MAX_MESSAGE_LEN};

pub mod brick;
pub mod command_laws;
pub mod direct;
pub mod display;
pub mod error;
pub mod exchange;
pub mod files;
pub mod laws;
pub mod modules;
pub mod motor;
pub mod nxt;
pub mod opcode;
pub mod protocol;
pub mod reply;
pub mod reply_laws;
pub mod sensor;
pub mod system;
pub mod wire;
pub mod wire_laws;
