//! The data model: registers, opcodes, operands and decoded instructions.

use vstd::prelude::*;
use super::tables::{address_base, address_index};

verus! {

/// The sixteen register names of the 8086 that the decoder can produce.
#[derive(Clone, Copy, Debug, PartialEq, Eq, Structural)]
pub enum Register {
    AX,
    AL,
    AH,
    BX,
    BL,
    BH,
    CX,
    CL,
    CH,
    DX,
    DL,
    DH,
    DI,
    SI,
    SP,
    BP,
}

/// An operation. `WILDCARD` stands for the group pattern `100000sw`, whose
/// operation is named by the reg field of the following byte; it never
/// appears in a decoded instruction.
#[derive(Clone, Copy, Debug, PartialEq, Eq, Structural)]
pub enum Opcode {
    ADD,
    ADC,
    SUB,
    MOV,
    WILDCARD,
}

/// How the opcode byte lays out its fields.
#[derive(Clone, Copy, Debug, PartialEq, Eq, Structural)]
pub enum InstructionKind {
    FourBitOpcode,
    SixBitOpcode,
    ImmediateToAccumulator,
}

/// The addressing mode held in the top two bits of the second byte.
#[derive(Clone, Copy, Debug, PartialEq, Eq, Structural)]
pub enum Mode {
    /// Memory operand without displacement.
    Memory0,
    /// Memory operand with a sign-extended 8-bit displacement.
    Memory8,
    /// Memory operand with a 16-bit displacement.
    Memory16,
    /// Register operand.
    Register,
}

/// Width that a memory destination states when its source is an immediate.
#[derive(Clone, Copy, Debug, PartialEq, Eq, Structural)]
pub enum ExplicitSize {
    Word,
    Byte,
}

/// An immediate value, tagged with the width and signedness it was read as.
#[derive(Clone, Copy, Debug, PartialEq, Eq, Structural)]
pub enum RawData {
    U8(u8),
    U16(u16),
    I8(i8),
}

/// A register operand, or a memory operand given by base register, optional
/// index register and optional displacement.
#[derive(Clone, Copy, Debug, PartialEq, Eq, Structural)]
pub enum FieldEncoding {
    Reg(Register),
    Indexed(Register, Option<Register>, Option<i16>),
}

/// One operand of an instruction, with its optional size marker.
#[derive(Clone, Copy, Debug, PartialEq, Eq, Structural)]
pub enum FieldOrRawData {
    FieldEncoding(FieldEncoding, Option<ExplicitSize>),
    RawData(RawData, Option<ExplicitSize>),
}

/// Why a decode pass stopped. `offset` counts the bytes of the pass that
/// precede the instruction at which it stopped.
#[derive(Clone, Copy, Debug, PartialEq, Eq, Structural)]
pub enum DecodeError {
    /// The leading byte matches no opcode pattern.
    UnrecognizedOpcode { byte: u8, offset: usize },
    /// The reg field after a group opcode names no operation.
    UnrecognizedGroupOpcode { selector: u8, offset: usize },
    /// The input ends inside an instruction.
    TruncatedInstruction { offset: usize },
}

/// A decoded instruction: operation, destination, source.
#[derive(Clone, Copy, Debug)]
pub struct DecodedMemField {
    pub opcode: Opcode,
    pub field_one: FieldOrRawData,
    pub field_two: FieldOrRawData,
}

impl PartialEq for DecodedMemField {
    fn eq(&self, other: &Self) -> (equal: bool) {
        if self.opcode != other.opcode {
            return false;
        } else if self.field_one != other.field_one {
            return false;
        } else if self.field_two != other.field_two {
            return false;
        }
        true
    }
}

impl vstd::std_specs::cmp::PartialEqSpecImpl for DecodedMemField {
    open spec fn obeys_eq_spec() -> bool {
        true
    }

    open spec fn eq_spec(&self, other: &Self) -> bool {
        &&& self.opcode == other.opcode
        &&& self.field_one == other.field_one
        &&& self.field_two == other.field_two
    }
}

impl FieldEncoding {
    /// Whether the operand is a memory operand.
    pub open spec fn is_memory(self) -> bool {
        self is Indexed
    }

    /// Whether the operand is a register, or a memory operand whose base
    /// and index are a row of the effective-address table.
    pub open spec fn well_formed(self) -> bool {
        match self {
            FieldEncoding::Reg(_) => true,
            FieldEncoding::Indexed(base, index, _) => exists|rm: u8|
                rm <= 7 && base == #[trigger] address_base(rm) && index == address_index(rm),
        }
    }
}

impl DecodedMemField {
    /// What holds of every instruction that decoding gives: the operation
    /// is named; the destination is a register or a memory operand from the
    /// effective-address table, never an immediate; the source is a
    /// register, such a memory operand, or an immediate; and a size marker
    /// stands on the destination exactly where that is a memory operand and
    /// the source an immediate, and nowhere else.
    pub open spec fn well_formed(self) -> bool {
        &&& self.opcode != Opcode::WILDCARD
        &&& self.field_one matches FieldOrRawData::FieldEncoding(destination, marker)
        &&& destination.well_formed()
        &&& (marker is Some <==> destination.is_memory() && self.field_two is RawData)
        &&& match self.field_two {
            FieldOrRawData::FieldEncoding(source, size) => source.well_formed() && size is None,
            FieldOrRawData::RawData(_, size) => size is None,
        }
    }
}

} // verus!
