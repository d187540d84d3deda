//! The 16-bit command opcode: a 6-bit group field and a 10-bit command
//! field, with validated decoding from its little-endian wire form.

use vstd::prelude::*;
use crate::codes::ConversionError;

verus! {

/// Whether a 6-bit group field of an opcode names a recognized command
/// group.
pub open spec fn spec_opcode_group_valid(group: u16) -> bool {
    ||| group == 0x00
    ||| group == 0x01
    ||| group == 0x02
    ||| group == 0x03
    ||| group == 0x04
    ||| group == 0x05
    ||| group == 0x06
    ||| group == 0x08
    ||| group == 0x3F
}

/// Whether a 16-bit wire value decodes to a valid opcode: its upper six bits
/// must name a recognized command group.
pub open spec fn spec_opcode_valid(value: u16) -> bool {
    spec_opcode_group_valid(value / 0x400)
}

/// A 16-bit identifier naming a specific command type. The upper six bits
/// name the command group, the lower ten bits the command within it; only
/// values whose group field is recognized are constructed.
#[derive(Copy, Clone, PartialEq, Eq, Structural, Debug, Hash)]
pub struct Opcode {
    value: u16,
}

impl Opcode {
    /// The packed 16-bit wire value.
    pub closed spec fn spec_u16(self) -> u16 {
        self.value
    }

    /// An opcode carries a recognized group field.
    pub open spec fn wf(self) -> bool {
        spec_opcode_valid(self.spec_u16())
    }

    /// The no-operation opcode, all-zero: group 0, command 0.
    pub fn nop() -> (r: Opcode)
        ensures
            r.spec_u16() == 0,
            r.wf(),
    {
        Opcode { value: 0 }
    }

    /// Validated conversion from a packed 16-bit value: succeeds exactly
    /// when the group field is recognized.
    pub fn try_from_u16(value: u16) -> (r: Result<Opcode, ConversionError>)
        ensures
            r is Ok <==> spec_opcode_valid(value),
            r matches Ok(o) ==> o.spec_u16() == value && o.wf(),
    {
        let group = value / 0x400;
        if group == 0x00 || group == 0x01 || group == 0x02 || group == 0x03 || group == 0x04
            || group == 0x05 || group == 0x06 || group == 0x08 || group == 0x3F {
            Ok(Opcode { value })
        } else {
            Err(ConversionError)
        }
    }

    /// Assemble an opcode from its group and command fields; fails on an
    /// unrecognized group or an oversized command field.
    pub fn new(group: u16, command: u16) -> (r: Result<Opcode, ConversionError>)
        ensures
            r is Ok <==> spec_opcode_group_valid(group) && command < 0x400,
            r matches Ok(o) ==> o.spec_u16() == group * 0x400 + command && o.wf(),
    {
        if command >= 0x400 {
            return Err(ConversionError);
        }
        if group == 0x00 || group == 0x01 || group == 0x02 || group == 0x03 || group == 0x04
            || group == 0x05 || group == 0x06 || group == 0x08 || group == 0x3F {
            let value = group * 0x400 + command;
            assert(value / 0x400 == group) by (nonlinear_arith)
                requires
                    command < 0x400,
                    group <= 0x3F,
                    value == group * 0x400 + command,
            ;
            Ok(Opcode { value })
        } else {
            Err(ConversionError)
        }
    }

    /// The packed 16-bit wire value.
    pub fn to_u16(self) -> (r: u16)
        ensures
            r == self.spec_u16(),
    {
        self.value
    }

    /// Decode an opcode from two little-endian wire bytes; any other length
    /// or an unrecognized group field is an invalid conversion.
    pub fn unpack(bytes: &[u8]) -> (r: Result<Opcode, ConversionError>)
        ensures
            r == Opcode::spec_unpack(bytes@),
            bytes@.len() == 2 ==> (r is Ok <==> spec_opcode_valid(
                vstd::bytes::spec_u16_from_le_bytes(bytes@),
            )),
            r matches Ok(o) ==> bytes@.len() == 2 && o.spec_u16()
                == vstd::bytes::spec_u16_from_le_bytes(bytes@) && o.wf(),
    {
        if bytes.len() != 2 {
            return Err(ConversionError);
        }
        let value = vstd::bytes::u16_from_le_bytes(bytes);
        let r = Opcode::try_from_u16(value);
        proof {
            let s = Opcode::spec_unpack(bytes@);
            match r {
                Ok(o) => {
                    assert(o == (Opcode { value }));
                    assert(s == Ok::<Opcode, ConversionError>(Opcode { value }));
                },
                Err(e) => {
                    assert(e == ConversionError);
                    assert(s == Err::<Opcode, ConversionError>(ConversionError));
                },
            }
        }
        r
    }

    /// What decoding two little-endian wire bytes yields.
    pub closed spec fn spec_unpack(bytes: Seq<u8>) -> Result<Opcode, ConversionError> {
        if bytes.len() != 2 {
            Err(ConversionError)
        } else if spec_opcode_valid(vstd::bytes::spec_u16_from_le_bytes(bytes)) {
            Ok(Opcode { value: vstd::bytes::spec_u16_from_le_bytes(bytes) })
        } else {
            Err(ConversionError)
        }
    }
}

/// A valid opcode survives the trip through its packed little-endian wire
/// form: encoding its 16-bit value as two bytes and decoding them again
/// yields the same opcode.
pub proof fn lemma_opcode_pack_unpack(o: Opcode)
    requires
        o.wf(),
    ensures
        Opcode::spec_unpack(vstd::bytes::spec_u16_to_le_bytes(o.spec_u16())) == Ok::<
            Opcode,
            ConversionError,
        >(o),
{
    vstd::bytes::lemma_auto_spec_u16_to_from_le_bytes();
    let bytes = vstd::bytes::spec_u16_to_le_bytes(o.spec_u16());
    assert(bytes.len() == 2);
    assert(vstd::bytes::spec_u16_from_le_bytes(bytes) == o.spec_u16());
    assert(o == (Opcode { value: o.spec_u16() }));
}

impl Default for Opcode {
    /// The default opcode is the all-zero no-operation opcode.
    fn default() -> (r: Opcode)
        ensures
            r.spec_u16() == 0,
            r.wf(),
    {
        Opcode::nop()
    }
}

} // verus!
