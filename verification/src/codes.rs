//! Packet-type and event-code vocabulary: closed enumerations of wire values
//! with validated numeric conversion.

use vstd::prelude::*;

verus! {

/// Error returned when a wire byte does not name a member of one of the
/// closed enumerations (packet types, event codes, opcode groups).
#[derive(Copy, Clone, PartialEq, Eq, Structural, Debug)]
pub struct ConversionError;

/// Wire-level packet classes. Exactly the wire bytes
/// 0x01, 0x02, 0x03, 0x04 and 0xFF name a packet type; every other byte is an
/// invalid conversion.
#[derive(Copy, Clone, PartialEq, Eq, Structural, Debug, Hash)]
pub enum PacketType {
    Command,
    ACLData,
    SCOData,
    Event,
    Vendor,
}

impl PacketType {
    /// The numeric wire value of this packet class.
    pub open spec fn spec_u8(self) -> u8 {
        match self {
            PacketType::Command => 0x01,
            PacketType::ACLData => 0x02,
            PacketType::SCOData => 0x03,
            PacketType::Event => 0x04,
            PacketType::Vendor => 0xFF,
        }
    }

    /// Which packet type, if any, a wire byte names.
    pub open spec fn spec_try_from(value: u8) -> Option<PacketType> {
        if value == 0x01 {
            Some(PacketType::Command)
        } else if value == 0x02 {
            Some(PacketType::ACLData)
        } else if value == 0x03 {
            Some(PacketType::SCOData)
        } else if value == 0x04 {
            Some(PacketType::Event)
        } else if value == 0xFF {
            Some(PacketType::Vendor)
        } else {
            None
        }
    }

    /// Lossless conversion to the 8-bit wire value.
    pub fn to_u8(self) -> (r: u8)
        ensures
            r == self.spec_u8(),
    {
        match self {
            PacketType::Command => 0x01,
            PacketType::ACLData => 0x02,
            PacketType::SCOData => 0x03,
            PacketType::Event => 0x04,
            PacketType::Vendor => 0xFF,
        }
    }

    /// Lossless conversion to a 32-bit value (the width of the filter's
    /// type mask).
    pub fn to_u32(self) -> (r: u32)
        ensures
            r == self.spec_u8() as u32,
    {
        self.to_u8() as u32
    }

    /// Validated conversion from a wire byte: total by rejection.
    pub fn try_from(value: u8) -> (r: Result<PacketType, ConversionError>)
        ensures
            r is Ok <==> PacketType::spec_try_from(value) is Some,
            r matches Ok(pt) ==> PacketType::spec_try_from(value) == Some(pt),
    {
        if value == 0x01 {
            Ok(PacketType::Command)
        } else if value == 0x02 {
            Ok(PacketType::ACLData)
        } else if value == 0x03 {
            Ok(PacketType::SCOData)
        } else if value == 0x04 {
            Ok(PacketType::Event)
        } else if value == 0xFF {
            Ok(PacketType::Vendor)
        } else {
            Err(ConversionError)
        }
    }
}

/// Conversion between a packet type and its wire byte round-trips: every
/// packet type maps to a byte that names it again, and every byte that names
/// a packet type is the wire value of that type.
pub proof fn lemma_packet_type_round_trip()
    ensures
        forall|pt: PacketType| PacketType::spec_try_from(#[trigger] pt.spec_u8()) == Some(pt),
        forall|b: u8| #[trigger] PacketType::spec_try_from(b) matches Some(pt) ==> pt.spec_u8() == b,
{
    assert forall|pt: PacketType| PacketType::spec_try_from(#[trigger] pt.spec_u8()) == Some(pt) by {
        match pt {
            PacketType::Command => {},
            PacketType::ACLData => {},
            PacketType::SCOData => {},
            PacketType::Event => {},
            PacketType::Vendor => {},
        }
    }
}

/// One recognized 8-bit event code. The codes used with the controller
/// filter must index its 64-bit event mask, so the recognized codes are
/// exactly 0x01 through 0x3F; byte 0x00 and bytes of 64 and above are
/// invalid conversions.
#[derive(Copy, Clone, PartialEq, Eq, Structural, Debug, Hash)]
pub struct EventCode {
    code: u8,
}

/// Whether a wire byte names a recognized event code.
pub open spec fn spec_event_code_valid(value: u8) -> bool {
    1 <= value < 64
}

impl EventCode {
    /// The numeric wire value of this event code.
    pub closed spec fn spec_code(self) -> u8 {
        self.code
    }

    /// Every event code constructed by this module carries a recognized
    /// wire value.
    pub open spec fn wf(self) -> bool {
        spec_event_code_valid(self.spec_code())
    }

    /// Validated conversion from a wire byte: total by rejection.
    pub fn try_from(value: u8) -> (r: Result<EventCode, ConversionError>)
        ensures
            r is Ok <==> spec_event_code_valid(value),
            r matches Ok(c) ==> c.spec_code() == value && c.wf(),
    {
        if 1 <= value && value < 64 {
            Ok(EventCode { code: value })
        } else {
            Err(ConversionError)
        }
    }

    /// Lossless conversion to the 8-bit wire value.
    pub fn to_u8(self) -> (r: u8)
        ensures
            r == self.spec_code(),
    {
        self.code
    }

    /// The completion-signaling code carried by a command-complete event.
    pub fn command_complete() -> (r: EventCode)
        ensures
            r.spec_code() == 0x0E,
            r.wf(),
    {
        EventCode { code: 0x0E }
    }

    /// The completion-signaling code carried by a command-status event.
    pub fn command_status() -> (r: EventCode)
        ensures
            r.spec_code() == 0x0F,
            r.wf(),
    {
        EventCode { code: 0x0F }
    }
}

} // verus!
