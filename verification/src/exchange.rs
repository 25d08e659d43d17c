//! One exchange with the brick: a command goes out, a reply comes back.
//!
//! This module takes all decisions of an exchange and does no I/O. The
//! owner of the link writes the bytes of a [`Request`], reports how many
//! were taken, and hands the bytes of the answer to [`Awaiting::recv`].

use crate::error::Error;
use crate::opcode::Opcode;
use crate::protocol::{
    command_bytes, parsed, status_result, truncated, Packet, HEADER_LEN, MAX_PACKET_LEN,
};
use vstd::prelude::*;

verus! {

/// A command that is ready to be written to the link.
#[derive(Debug)]
pub struct Request {
    bytes: Vec<u8>,
    opcode: Opcode,
}

/// What a [`Request`] holds: the bytes to be written and the command that
/// the reply has to answer.
#[verifier::ext_equal]
pub struct RequestView {
    pub bytes: Seq<u8>,
    pub opcode: Opcode,
}

impl View for Request {
    type V = RequestView;

    closed spec fn view(&self) -> RequestView {
        RequestView { bytes: self.bytes@, opcode: self.opcode }
    }
}

/// A command that has been written to the link and not been answered yet.
#[derive(Debug)]
pub struct Awaiting {
    opcode: Opcode,
}

impl View for Awaiting {
    type V = Opcode;

    closed spec fn view(&self) -> Opcode {
        self.opcode
    }
}

/// The request that carries the given command and payload.
pub open spec fn request(opcode: Opcode, payload: Seq<u8>) -> RequestView {
    RequestView { bytes: command_bytes(opcode, payload), opcode }
}

/// `r` is the request that carries the given command and payload.
pub open spec fn sends(r: Result<Request, Error>, opcode: Opcode, payload: Seq<u8>) -> bool {
    r matches Ok(req) && req@ == request(opcode, payload)
}

/// `r` is the request that carries the given command and payload, or the
/// refusal to send a payload that does not fit into a packet.
pub open spec fn sends_if_fits(
    r: Result<Request, Error>,
    opcode: Opcode,
    payload: Seq<u8>,
) -> bool {
    if payload.len() + HEADER_LEN <= MAX_PACKET_LEN {
        sends(r, opcode, payload)
    } else {
        r == Err::<Request, Error>(Error::Serialise("Packet too long"))
    }
}

/// What the answer to a command amounts to: the payload of the reply, if
/// the packet is a reply, the brick did not refuse the command, and the
/// reply is to this command. The first of these that fails decides on the
/// error.
pub open spec fn reply_payload(opcode: Opcode, bytes: Seq<u8>) -> Result<Seq<u8>, Error> {
    match parsed(bytes) {
        Err(error) => Err(error),
        Ok((answered, data)) => if data.len() == 0 {
            Err(truncated())
        } else if status_result(data[0]) is Err {
            Err(status_result(data[0])->Err_0)
        } else if answered != opcode {
            Err(Error::ReplyMismatch)
        } else {
            Ok(data.skip(1))
        },
    }
}

impl Request {
    /// Turn a packet into a request. Fails if it is too long to be sent.
    pub fn send(pkt: &Packet) -> (r: Result<Request, Error>)
        ensures
            sends_if_fits(r, pkt@.opcode, pkt@.data),
    {
        let bytes = pkt.serialise()?;
        Ok(Request { bytes, opcode: pkt.opcode() })
    }

    /// The bytes to be written to the link.
    pub fn bytes(&self) -> (bytes: &[u8])
        ensures
            bytes@ == self@.bytes,
    {
        self.bytes.as_slice()
    }

    /// Go on to wait for the reply. Fails if the link did not take exactly
    /// the bytes of the request.
    pub fn sent(self, written: usize) -> (r: Result<Awaiting, Error>)
        ensures
            if written == self@.bytes.len() {
                r matches Ok(awaiting) && awaiting@ == self@.opcode
            } else {
                r == Err::<Awaiting, Error>(Error::Write)
            },
    {
        if written == self.bytes.len() {
            Ok(Awaiting { opcode: self.opcode })
        } else {
            Err(Error::Write)
        }
    }
}

impl Awaiting {
    /// Check the answer, and give the reply with its payload still unread.
    pub fn recv(self, buf: &[u8]) -> (r: Result<Packet, Error>)
        ensures
            match reply_payload(self@, buf@) {
                Ok(payload) => r matches Ok(reply) && reply.wf() && reply@.opcode == self@
                    && reply@.unread() == payload,
                Err(error) => r == Err::<Packet, Error>(error),
            },
    {
        let mut reply = Packet::parse(buf)?;
        let ghost data = reply@.data;
        assert(reply@.unread() =~= data);
        reply.check_status()?;
        if reply.opcode() == self.opcode {
            assert(reply@.unread() =~= data.skip(1));
            Ok(reply)
        } else {
            Err(Error::ReplyMismatch)
        }
    }
}

} // verus!
