//! The unit the frame reader produces: one event code together with the
//! payload buffer it owns.

use vstd::prelude::*;
use crate::codes::EventCode;

verus! {

/// One completed event frame: a recognized event code and the payload
/// delivered with it. Its payload length is exactly what the frame's
/// length byte announced; the buffer is owned by the packet.
#[derive(Debug)]
pub struct EventPacket {
    code: EventCode,
    parameters: Vec<u8>,
}

impl EventPacket {
    /// The event code of this packet.
    pub closed spec fn spec_code(self) -> EventCode {
        self.code
    }

    /// The payload bytes of this packet.
    pub closed spec fn spec_parameters(self) -> Seq<u8> {
        self.parameters@
    }

    /// Assemble a packet from an event code and an owned payload buffer.
    pub fn new(code: EventCode, parameters: Vec<u8>) -> (r: EventPacket)
        ensures
            r.spec_code() == code,
            r.spec_parameters() == parameters@,
    {
        EventPacket { code, parameters }
    }

    /// The event code of this packet.
    pub fn event_code(&self) -> (r: EventCode)
        ensures
            r == self.spec_code(),
    {
        self.code
    }

    /// The payload bytes of this packet.
    pub fn parameters(&self) -> (r: &Vec<u8>)
        ensures
            r@ == self.spec_parameters(),
    {
        &self.parameters
    }

    /// Give up the packet for its payload buffer alone.
    pub fn into_parameters(self) -> (r: Vec<u8>)
        ensures
            r@ == self.spec_parameters(),
    {
        self.parameters
    }
}

} // verus!
