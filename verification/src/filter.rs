//! The controller event filter: which packet types, which event codes and
//! which command opcode the controller should surface, with its fixed
//! 14-byte little-endian wire layout.

use vstd::prelude::*;
use crate::codes::{EventCode, PacketType};
use crate::opcode::{lemma_opcode_pack_unpack, spec_opcode_valid, Opcode};
use vstd::bytes::{
    lemma_auto_spec_u16_to_from_le_bytes, lemma_auto_spec_u32_to_from_le_bytes,
    spec_u16_from_le_bytes, spec_u16_to_le_bytes, spec_u32_from_le_bytes, spec_u32_to_le_bytes,
    u16_to_le_bytes, u32_from_le_bytes, u32_to_le_bytes,
};
use vstd::slice::slice_subrange;

verus! {

/// The fixed length of the packed filter: four bytes of type mask, two
/// four-byte event-mask words, two bytes of opcode.
pub const FILTER_LEN: usize = 14;

/// Whether bit `n` of a 32-bit mask word is set.
pub open spec fn bit32(x: u32, n: u32) -> bool
    recommends
        n < 32,
{
    (x >> n) & 1 == 1
}

proof fn lemma_set_bit(x: u32, b: u32)
    by (bit_vector)
    requires
        b < 32,
    ensures
        forall|n: u32| n < 32 ==> #[trigger] bit32(x | 1u32 << b, n) == (n == b || bit32(x, n)),
{
}

proof fn lemma_clear_bit(x: u32, b: u32)
    by (bit_vector)
    requires
        b < 32,
    ensures
        forall|n: u32|
            n < 32 ==> #[trigger] bit32(x & !(1u32 << b), n) == (n != b && bit32(x, n)),
{
}

proof fn lemma_test_bit(x: u32, b: u32)
    by (bit_vector)
    requires
        b < 32,
    ensures
        (x & (1u32 << b) != 0) == bit32(x, b),
{
}

proof fn lemma_zero_bits()
    by (bit_vector)
    ensures
        forall|n: u32| n < 32 ==> !(#[trigger] bit32(0u32, n)),
{
}

/// Controller-side configuration restricting which packet types (one bit
/// per packet-type value, range 0 to 31), which event codes (bit `n` of the
/// low word for code `n` below 32, bit `n - 32` of the high word for codes
/// 32 to 63) and which single command opcode are surfaced to the host.
#[derive(Copy, Clone, PartialEq, Eq, Structural, Debug, Hash)]
pub struct Filter {
    type_mask: u32,
    event_mask_low: u32,
    event_mask_high: u32,
    opcode: Opcode,
}

impl Filter {
    /// The 32-bit packet-type mask word.
    pub closed spec fn spec_type_mask(self) -> u32 {
        self.type_mask
    }

    /// The low 32-bit event-mask word (event codes 0 to 31).
    pub closed spec fn spec_event_mask_low(self) -> u32 {
        self.event_mask_low
    }

    /// The high 32-bit event-mask word (event codes 32 to 63).
    pub closed spec fn spec_event_mask_high(self) -> u32 {
        self.event_mask_high
    }

    /// The opcode of the single command of interest.
    pub closed spec fn spec_opcode(self) -> Opcode {
        self.opcode
    }

    /// Whether the packet type with numeric value `code` is surfaced.
    pub open spec fn type_enabled(self, code: u32) -> bool
        recommends
            code < 32,
    {
        bit32(self.spec_type_mask(), code)
    }

    /// Whether the event code with numeric value `code` is surfaced.
    pub open spec fn event_enabled(self, code: u32) -> bool
        recommends
            code < 64,
    {
        if code < 32 {
            bit32(self.spec_event_mask_low(), code)
        } else {
            bit32(self.spec_event_mask_high(), (code - 32) as u32)
        }
    }

    /// The filter's opcode field holds a recognized group.
    pub open spec fn wf(self) -> bool {
        self.spec_opcode().wf()
    }

    /// The packed 14-byte little-endian wire form.
    pub closed spec fn spec_pack(self) -> Seq<u8> {
        spec_u32_to_le_bytes(self.type_mask) + spec_u32_to_le_bytes(self.event_mask_low)
            + spec_u32_to_le_bytes(self.event_mask_high) + spec_u16_to_le_bytes(
            self.opcode.spec_u16(),
        )
    }

    /// What unpacking a byte string yields: a filter exactly when the
    /// input is 14 bytes long and its last two bytes decode to a valid
    /// opcode.
    pub closed spec fn spec_unpack(bytes: Seq<u8>) -> Option<Filter> {
        if bytes.len() != FILTER_LEN {
            None
        } else {
            match Opcode::spec_unpack(bytes.subrange(12, 14)) {
                Ok(op) => Some(
                    Filter {
                        type_mask: spec_u32_from_le_bytes(bytes.subrange(0, 4)),
                        event_mask_low: spec_u32_from_le_bytes(bytes.subrange(4, 8)),
                        event_mask_high: spec_u32_from_le_bytes(bytes.subrange(8, 12)),
                        opcode: op,
                    },
                ),
                Err(_) => None,
            }
        }
    }

    /// Serialize to the fixed 14-byte little-endian layout: bytes 0 to 3
    /// the type mask, 4 to 7 the low event-mask word, 8 to 11 the high
    /// event-mask word, 12 to 13 the opcode, each little-endian. Always
    /// succeeds.
    pub fn pack(&self) -> (r: Vec<u8>)
        ensures
            r@ == self.spec_pack(),
            r@.len() == FILTER_LEN,
            r@.subrange(0, 4) == spec_u32_to_le_bytes(self.spec_type_mask()),
            r@.subrange(4, 8) == spec_u32_to_le_bytes(self.spec_event_mask_low()),
            r@.subrange(8, 12) == spec_u32_to_le_bytes(self.spec_event_mask_high()),
            r@.subrange(12, 14) == spec_u16_to_le_bytes(self.spec_opcode().spec_u16()),
    {
        proof {
            lemma_auto_spec_u32_to_from_le_bytes();
            lemma_auto_spec_u16_to_from_le_bytes();
        }
        let mut out = u32_to_le_bytes(self.type_mask);
        let mut low = u32_to_le_bytes(self.event_mask_low);
        let mut high = u32_to_le_bytes(self.event_mask_high);
        let mut op = u16_to_le_bytes(self.opcode.to_u16());
        out.append(&mut low);
        out.append(&mut high);
        out.append(&mut op);
        proof {
            assert(out@.subrange(0, 4) =~= spec_u32_to_le_bytes(self.spec_type_mask()));
            assert(out@.subrange(4, 8) =~= spec_u32_to_le_bytes(self.spec_event_mask_low()));
            assert(out@.subrange(8, 12) =~= spec_u32_to_le_bytes(self.spec_event_mask_high()));
            assert(out@.subrange(12, 14) =~= spec_u16_to_le_bytes(self.spec_opcode().spec_u16()));
        }
        out
    }

    /// Parse the fixed 14-byte little-endian layout; yields nothing on any
    /// other length and nothing when the embedded opcode does not decode
    /// validly. Each field of the result is decoded from its fixed
    /// subrange: the type mask from bytes 0 to 3, the low and high
    /// event-mask words from bytes 4 to 7 and 8 to 11, the opcode from
    /// bytes 12 to 13.
    pub fn unpack(bytes: &[u8]) -> (r: Option<Filter>)
        ensures
            r == Filter::spec_unpack(bytes@),
            bytes@.len() != FILTER_LEN ==> r is None,
            bytes@.len() == FILTER_LEN ==> ((r is Some) <==> spec_opcode_valid(
                spec_u16_from_le_bytes(bytes@.subrange(12, 14)),
            )),
            r matches Some(f) ==> {
                &&& f.wf()
                &&& f.spec_type_mask() == spec_u32_from_le_bytes(bytes@.subrange(0, 4))
                &&& f.spec_event_mask_low() == spec_u32_from_le_bytes(bytes@.subrange(4, 8))
                &&& f.spec_event_mask_high() == spec_u32_from_le_bytes(bytes@.subrange(8, 12))
                &&& f.spec_opcode().spec_u16() == spec_u16_from_le_bytes(bytes@.subrange(12, 14))
            },
    {
        if bytes.len() != FILTER_LEN {
            return None;
        }
        let op = match Opcode::unpack(slice_subrange(bytes, 12, 14)) {
            Ok(op) => op,
            Err(_) => {
                return None;
            },
        };
        let f = Filter {
            type_mask: u32_from_le_bytes(slice_subrange(bytes, 0, 4)),
            event_mask_low: u32_from_le_bytes(slice_subrange(bytes, 4, 8)),
            event_mask_high: u32_from_le_bytes(slice_subrange(bytes, 8, 12)),
            opcode: op,
        };
        proof {
            assert(Filter::spec_unpack(bytes@) == Some(f));
        }
        Some(f)
    }

    /// Set the event-mask bit of one event code; every other bit and every
    /// other field is unchanged.
    pub fn enable_event(&mut self, event: EventCode)
        requires
            event.spec_code() < 64,
        ensures
            forall|c: u32|
                c < 64 ==> #[trigger] final(self).event_enabled(c) == (c == event.spec_code()
                    as u32 || old(self).event_enabled(c)),
            final(self).spec_type_mask() == old(self).spec_type_mask(),
            final(self).spec_opcode() == old(self).spec_opcode(),
    {
        let code = event.to_u8() as u32;
        if code < 32 {
            proof {
                lemma_set_bit(self.event_mask_low, code);
            }
            self.event_mask_low = self.event_mask_low | (1u32 << code);
        } else {
            proof {
                lemma_set_bit(self.event_mask_high, (code - 32) as u32);
            }
            self.event_mask_high = self.event_mask_high | (1u32 << (code - 32));
        }
    }

    /// Clear the event-mask bit of one event code; every other bit and
    /// every other field is unchanged.
    pub fn disable_event(&mut self, event: EventCode)
        requires
            event.spec_code() < 64,
        ensures
            forall|c: u32|
                c < 64 ==> #[trigger] final(self).event_enabled(c) == (c != event.spec_code()
                    as u32 && old(self).event_enabled(c)),
            final(self).spec_type_mask() == old(self).spec_type_mask(),
            final(self).spec_opcode() == old(self).spec_opcode(),
    {
        let code = event.to_u8() as u32;
        if code < 32 {
            proof {
                lemma_clear_bit(self.event_mask_low, code);
            }
            self.event_mask_low = self.event_mask_low & !(1u32 << code);
        } else {
            proof {
                lemma_clear_bit(self.event_mask_high, (code - 32) as u32);
            }
            self.event_mask_high = self.event_mask_high & !(1u32 << (code - 32));
        }
    }

    /// Test the event-mask bit of one event code.
    pub fn get_event(&self, event: EventCode) -> (r: bool)
        requires
            event.spec_code() < 64,
        ensures
            r == self.event_enabled(event.spec_code() as u32),
    {
        let code = event.to_u8() as u32;
        if code < 32 {
            proof {
                lemma_test_bit(self.event_mask_low, code);
            }
            (self.event_mask_low & (1u32 << code)) != 0
        } else {
            proof {
                lemma_test_bit(self.event_mask_high, (code - 32) as u32);
            }
            (self.event_mask_high & (1u32 << (code - 32))) != 0
        }
    }

    /// Set the type-mask bit of one packet type; every other bit and every
    /// other field is unchanged. The packet-type value must be below 32 to
    /// index the 32-bit mask.
    pub fn enable_type(&mut self, packet_type: PacketType)
        requires
            packet_type.spec_u8() < 32,
        ensures
            forall|c: u32|
                c < 32 ==> #[trigger] final(self).type_enabled(c) == (c == packet_type.spec_u8()
                    as u32 || old(self).type_enabled(c)),
            final(self).spec_event_mask_low() == old(self).spec_event_mask_low(),
            final(self).spec_event_mask_high() == old(self).spec_event_mask_high(),
            final(self).spec_opcode() == old(self).spec_opcode(),
    {
        let code = packet_type.to_u32();
        proof {
            lemma_set_bit(self.type_mask, code);
        }
        self.type_mask = self.type_mask | (1u32 << code);
    }

    /// Clear the type-mask bit of one packet type; every other bit and
    /// every other field is unchanged.
    pub fn disable_type(&mut self, packet_type: PacketType)
        requires
            packet_type.spec_u8() < 32,
        ensures
            forall|c: u32|
                c < 32 ==> #[trigger] final(self).type_enabled(c) == (c != packet_type.spec_u8()
                    as u32 && old(self).type_enabled(c)),
            final(self).spec_event_mask_low() == old(self).spec_event_mask_low(),
            final(self).spec_event_mask_high() == old(self).spec_event_mask_high(),
            final(self).spec_opcode() == old(self).spec_opcode(),
    {
        let code = packet_type.to_u32();
        proof {
            lemma_clear_bit(self.type_mask, code);
        }
        self.type_mask = self.type_mask & !(1u32 << code);
    }

    /// Test the type-mask bit of one packet type.
    pub fn get_type(&self, packet_type: PacketType) -> (r: bool)
        requires
            packet_type.spec_u8() < 32,
        ensures
            r == self.type_enabled(packet_type.spec_u8() as u32),
    {
        let code = packet_type.to_u32();
        proof {
            lemma_test_bit(self.type_mask, code);
        }
        (self.type_mask & (1u32 << code)) != 0
    }

    /// Read the opcode of the single command of interest.
    pub fn opcode(&self) -> (r: Opcode)
        ensures
            r == self.spec_opcode(),
    {
        self.opcode
    }

    /// Mutable access to the opcode field; the mask words are unchanged by
    /// whatever the caller writes through the returned reference.
    pub fn opcode_mut(&mut self) -> (r: &mut Opcode)
        ensures
            *r == old(self).spec_opcode(),
            final(self).spec_opcode() == *final(r),
            final(self).spec_type_mask() == old(self).spec_type_mask(),
            final(self).spec_event_mask_low() == old(self).spec_event_mask_low(),
            final(self).spec_event_mask_high() == old(self).spec_event_mask_high(),
    {
        &mut self.opcode
    }
}

impl Default for Filter {
    /// The default filter is all-zero: no packet types, no events, the
    /// all-zero no-operation opcode.
    fn default() -> (r: Filter)
        ensures
            forall|c: u32| c < 32 ==> !(#[trigger] r.type_enabled(c)),
            forall|c: u32| c < 64 ==> !(#[trigger] r.event_enabled(c)),
            r.spec_opcode().spec_u16() == 0,
            r.wf(),
    {
        proof {
            lemma_zero_bits();
        }
        Filter {
            type_mask: 0,
            event_mask_low: 0,
            event_mask_high: 0,
            opcode: Opcode::nop(),
        }
    }
}

/// Enabling an event code makes exactly that code observable, and
/// disabling it afterwards clears exactly that code again; every other
/// event bit, on either side of the boundary between the two mask words at
/// code 32, is unchanged throughout. `f1` is `f0` with `e` enabled and
/// `f2` is `f1` with `e` disabled, as `enable_event` and `disable_event`
/// leave them.
pub proof fn lemma_event_toggle(f0: Filter, f1: Filter, f2: Filter, e: u32, other: u32)
    requires
        e < 64,
        other < 64,
        other != e,
        forall|c: u32|
            c < 64 ==> #[trigger] f1.event_enabled(c) == (c == e || f0.event_enabled(c)),
        forall|c: u32|
            c < 64 ==> #[trigger] f2.event_enabled(c) == (c != e && f1.event_enabled(c)),
    ensures
        f1.event_enabled(e),
        !f2.event_enabled(e),
        f1.event_enabled(other) == f0.event_enabled(other),
        f2.event_enabled(other) == f0.event_enabled(other),
{
}

/// Packing a filter and unpacking the result reproduces an equal filter,
/// for any combination of masks and opcode.
pub proof fn lemma_filter_pack_unpack(f: Filter)
    requires
        f.wf(),
    ensures
        Filter::spec_unpack(f.spec_pack()) == Some(f),
{
    lemma_auto_spec_u32_to_from_le_bytes();
    lemma_auto_spec_u16_to_from_le_bytes();
    let s = f.spec_pack();
    assert(s.len() == 14);
    assert(s.subrange(0, 4) =~= spec_u32_to_le_bytes(f.spec_type_mask()));
    assert(s.subrange(4, 8) =~= spec_u32_to_le_bytes(f.spec_event_mask_low()));
    assert(s.subrange(8, 12) =~= spec_u32_to_le_bytes(f.spec_event_mask_high()));
    assert(s.subrange(12, 14) =~= spec_u16_to_le_bytes(f.spec_opcode().spec_u16()));
    lemma_opcode_pack_unpack(f.spec_opcode());
    assert(f == (Filter {
        type_mask: f.spec_type_mask(),
        event_mask_low: f.spec_event_mask_low(),
        event_mask_high: f.spec_event_mask_high(),
        opcode: f.spec_opcode(),
    }));
}

} // verus!
