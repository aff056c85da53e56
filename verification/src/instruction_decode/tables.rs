//! The fixed tables of the encoding: opcode patterns, the register table
//! and the effective-address templates.

use vstd::prelude::*;
use super::model::{FieldEncoding, InstructionKind, Opcode, Register};

verus! {

/// The layout that a leading byte selects, if it matches a pattern.
///
/// Patterns are tried from the longest to the shortest: the top seven bits
/// `0000010`, `0001010`, `0010110`; then the top six bits `000000`,
/// `100000`, `100010`; then the top four bits `1011`.
pub open spec fn kind_of(byte: u8) -> Option<InstructionKind> {
    if byte / 2 == 2 || byte / 2 == 10 || byte / 2 == 22 {
        Some(InstructionKind::ImmediateToAccumulator)
    } else if byte / 4 == 0 || byte / 4 == 32 || byte / 4 == 34 {
        Some(InstructionKind::SixBitOpcode)
    } else if byte / 16 == 11 {
        Some(InstructionKind::FourBitOpcode)
    } else {
        None
    }
}

/// The operation that a leading byte selects, if it matches a pattern. The
/// group pattern `100000` gives `WILDCARD`.
pub open spec fn opcode_of(byte: u8) -> Option<Opcode> {
    if byte / 2 == 2 {
        Some(Opcode::ADD)
    } else if byte / 2 == 10 {
        Some(Opcode::ADC)
    } else if byte / 2 == 22 {
        Some(Opcode::SUB)
    } else if byte / 4 == 0 {
        Some(Opcode::ADD)
    } else if byte / 4 == 32 {
        Some(Opcode::WILDCARD)
    } else if byte / 4 == 34 {
        Some(Opcode::MOV)
    } else if byte / 16 == 11 {
        Some(Opcode::MOV)
    } else {
        None
    }
}

/// The operation that the reg field names after a group opcode.
pub open spec fn group_opcode(reg: u8) -> Option<Opcode> {
    if reg == 0 {
        Some(Opcode::ADD)
    } else if reg == 2 {
        Some(Opcode::ADC)
    } else if reg == 5 {
        Some(Opcode::SUB)
    } else {
        None
    }
}

/// The register that a three-bit index names: a byte register where `w` is
/// 0, a word register where it is 1.
pub open spec fn register_table(index: u8, w: u8) -> Register {
    if w == 0 {
        match index {
            0 => Register::AL,
            1 => Register::CL,
            2 => Register::DL,
            3 => Register::BL,
            4 => Register::AH,
            5 => Register::CH,
            6 => Register::DH,
            _ => Register::BH,
        }
    } else {
        match index {
            0 => Register::AX,
            1 => Register::CX,
            2 => Register::DX,
            3 => Register::BX,
            4 => Register::SP,
            5 => Register::BP,
            6 => Register::SI,
            _ => Register::DI,
        }
    }
}

/// The base register of the effective address that an r/m index selects.
pub open spec fn address_base(rm: u8) -> Register {
    match rm {
        0 => Register::BX,
        1 => Register::BX,
        2 => Register::BP,
        3 => Register::BP,
        4 => Register::SI,
        5 => Register::DI,
        6 => Register::BP,
        _ => Register::BX,
    }
}

/// The index register of the effective address that an r/m index selects.
pub open spec fn address_index(rm: u8) -> Option<Register> {
    match rm {
        0 => Some(Register::SI),
        1 => Some(Register::DI),
        2 => Some(Register::SI),
        3 => Some(Register::DI),
        _ => None,
    }
}

/// The memory operand that an r/m index selects, with its displacement.
/// Index 6 is `BP` in every mode; no direct address is modelled.
pub open spec fn effective_address(rm: u8, disp: Option<i16>) -> FieldEncoding {
    FieldEncoding::Indexed(address_base(rm), address_index(rm), disp)
}

/// A leading byte selects an operation exactly when it selects a layout.
pub proof fn lemma_opcode_iff_kind(byte: u8)
    ensures
        opcode_of(byte) is Some <==> kind_of(byte) is Some,
        opcode_of(byte) == Some(Opcode::WILDCARD) ==> kind_of(byte) == Some(
            InstructionKind::SixBitOpcode,
        ),
{
}

/// No byte matches two patterns, so the order in which they are tried
/// changes no result.
pub proof fn lemma_patterns_disjoint(byte: u8)
    ensures
        (byte / 2 == 2 || byte / 2 == 10 || byte / 2 == 22) ==> !(byte / 4 == 0 || byte / 4 == 32
            || byte / 4 == 34) && byte / 16 != 11,
        (byte / 4 == 0 || byte / 4 == 32 || byte / 4 == 34) ==> byte / 16 != 11,
{
}

} // verus!
