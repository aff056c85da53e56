//! What a byte sequence decodes to, as mathematical functions on `Seq<u8>`.
//!
//! `step` reads one instruction off the front of a sequence; `run` repeats
//! it until the sequence is used up or a step fails.

use vstd::prelude::*;
use super::fields::{
    direction_bit, mode_of, reg_bits, rm_bits, short_register_bits, short_width_bit,
    sign_extended, signed_byte, signed_word_le, width_bit, word_le,
};
use super::model::{
    DecodeError, DecodedMemField, ExplicitSize, FieldEncoding, FieldOrRawData, InstructionKind,
    Mode, Opcode, RawData, Register,
};
use super::tables::{effective_address, group_opcode, kind_of, opcode_of, register_table};

verus! {

/// The result of reading one instruction off the front of a byte sequence.
pub enum Step {
    /// The first `len` bytes encode `instruction`.
    Decoded { instruction: DecodedMemField, len: nat },
    /// No instruction could be read; `consumed` bytes were taken before
    /// that was known.
    Failed { error: DecodeError, consumed: nat },
}

/// The result of a decode pass over a byte sequence.
pub struct Outcome {
    /// The instructions decoded, in input order.
    pub instructions: Seq<DecodedMemField>,
    /// The number of bytes taken from the input.
    pub consumed: nat,
    /// The reason the pass stopped early, if it did.
    pub error: Option<DecodeError>,
}

/// Number of bytes of an immediate.
pub open spec fn immediate_len(wide: bool) -> nat {
    if wide {
        2
    } else {
        1
    }
}

/// The unsigned immediate that starts at `at`: two bytes, low byte first,
/// where `wide`, else one byte.
pub open spec fn immediate_at(s: Seq<u8>, at: int, wide: bool) -> RawData {
    if wide {
        RawData::U16(word_le(s[at], s[at + 1]))
    } else {
        RawData::U8(s[at])
    }
}

/// Number of displacement bytes that a mode calls for.
pub open spec fn displacement_len(mode: Mode) -> nat {
    match mode {
        Mode::Memory0 => 0,
        Mode::Memory8 => 1,
        Mode::Memory16 => 2,
        Mode::Register => 0,
    }
}

/// The displacement that starts at `at`, as the mode reads it.
pub open spec fn displacement_at(s: Seq<u8>, at: int, mode: Mode) -> Option<i16> {
    match mode {
        Mode::Memory0 => None,
        Mode::Memory8 => Some(sign_extended(s[at])),
        Mode::Memory16 => Some(signed_word_le(s[at], s[at + 1])),
        Mode::Register => None,
    }
}

/// The operand that the r/m field stands for: a register in register mode,
/// else the effective address with the displacement found after the second
/// byte.
pub open spec fn rm_operand(s: Seq<u8>, w: u8) -> FieldEncoding {
    let mode = mode_of(s[1]);
    match mode {
        Mode::Register => FieldEncoding::Reg(register_table(rm_bits(s[1]), w)),
        _ => effective_address(rm_bits(s[1]), displacement_at(s, 2, mode)),
    }
}

/// The failure of a step on input that ends too early: all of it is taken.
pub open spec fn truncated(s: Seq<u8>, offset: usize) -> Step {
    Step::Failed { error: DecodeError::TruncatedInstruction { offset }, consumed: s.len() }
}

/// Immediate to accumulator, `opcode w` followed by the immediate: two
/// bytes into `AX` where W is 1, one signed byte into `AL` where it is 0.
pub open spec fn accumulator_step(opcode: Opcode, s: Seq<u8>, offset: usize) -> Step {
    let wide = width_bit(s[0]) == 1;
    let len = 1 + immediate_len(wide);
    if s.len() < len {
        truncated(s, offset)
    } else if wide {
        Step::Decoded {
            instruction: DecodedMemField {
                opcode,
                field_one: FieldOrRawData::FieldEncoding(FieldEncoding::Reg(Register::AX), None),
                field_two: FieldOrRawData::RawData(RawData::U16(word_le(s[1], s[2])), None),
            },
            len,
        }
    } else {
        Step::Decoded {
            instruction: DecodedMemField {
                opcode,
                field_one: FieldOrRawData::FieldEncoding(FieldEncoding::Reg(Register::AL), None),
                field_two: FieldOrRawData::RawData(RawData::I8(signed_byte(s[1])), None),
            },
            len,
        }
    }
}

/// Immediate to register, `1011 w reg` followed by the unsigned immediate.
pub open spec fn register_immediate_step(opcode: Opcode, s: Seq<u8>, offset: usize) -> Step {
    let w = short_width_bit(s[0]);
    let len = 1 + immediate_len(w == 1);
    if s.len() < len {
        truncated(s, offset)
    } else {
        Step::Decoded {
            instruction: DecodedMemField {
                opcode,
                field_one: FieldOrRawData::FieldEncoding(
                    FieldEncoding::Reg(register_table(short_register_bits(s[0]), w)),
                    None,
                ),
                field_two: FieldOrRawData::RawData(immediate_at(s, 1, w == 1), None),
            },
            len,
        }
    }
}

/// Register or memory with register, `opcode d w`, `mod reg r/m`, then the
/// displacement. The reg operand is the destination where D is 1, the r/m
/// operand where D is 0.
pub open spec fn register_memory_step(opcode: Opcode, s: Seq<u8>, offset: usize) -> Step {
    let w = width_bit(s[0]);
    let len = 2 + displacement_len(mode_of(s[1]));
    if s.len() < len {
        truncated(s, offset)
    } else {
        let reg = FieldOrRawData::FieldEncoding(
            FieldEncoding::Reg(register_table(reg_bits(s[1]), w)),
            None,
        );
        let rm = FieldOrRawData::FieldEncoding(rm_operand(s, w), None);
        Step::Decoded {
            instruction: if direction_bit(s[0]) == 1 {
                DecodedMemField { opcode, field_one: reg, field_two: rm }
            } else {
                DecodedMemField { opcode, field_one: rm, field_two: reg }
            },
            len,
        }
    }
}

/// Whether the immediate of a group instruction takes two bytes: W is 1 and
/// S is 0.
pub open spec fn group_immediate_is_wide(first: u8) -> bool {
    width_bit(first) == 1 && direction_bit(first) == 0
}

/// Immediate to register or memory, `100000 s w`, `mod op r/m`, then the
/// displacement, then the immediate. The reg field names the operation. The
/// r/m operand is the destination; where it is a memory operand it carries
/// the size of the immediate as it was read.
pub open spec fn group_step(s: Seq<u8>, offset: usize) -> Step {
    let selector = reg_bits(s[1]);
    let mode = mode_of(s[1]);
    let wide = group_immediate_is_wide(s[0]);
    let at = 2 + displacement_len(mode);
    let len = at + immediate_len(wide);
    if group_opcode(selector) is None {
        Step::Failed {
            error: DecodeError::UnrecognizedGroupOpcode { selector, offset },
            consumed: 2,
        }
    } else if s.len() < len {
        truncated(s, offset)
    } else {
        Step::Decoded {
            instruction: DecodedMemField {
                opcode: group_opcode(selector)->0,
                field_one: FieldOrRawData::FieldEncoding(
                    rm_operand(s, width_bit(s[0])),
                    if mode == Mode::Register {
                        None
                    } else if wide {
                        Some(ExplicitSize::Word)
                    } else {
                        Some(ExplicitSize::Byte)
                    },
                ),
                field_two: FieldOrRawData::RawData(immediate_at(s, at as int, wide), None),
            },
            len,
        }
    }
}

/// An instruction with a six-bit opcode and a second byte: the group where
/// the opcode byte selects `WILDCARD`, else register or memory with
/// register.
pub open spec fn six_bit_step(opcode: Opcode, s: Seq<u8>, offset: usize) -> Step {
    if s.len() < 2 {
        truncated(s, offset)
    } else if opcode == Opcode::WILDCARD {
        group_step(s, offset)
    } else {
        register_memory_step(opcode, s, offset)
    }
}

/// Reads one instruction off the front of `s`. `offset` is the position of
/// `s[0]` in the pass and goes into the error.
///
/// An unmatched leading byte fails once that byte is taken; a group
/// selector that names no operation fails once the second byte is taken;
/// input that ends inside the instruction fails with all of it taken.
pub open spec fn step(s: Seq<u8>, offset: usize) -> Step {
    if s.len() == 0 {
        truncated(s, offset)
    } else {
        match (opcode_of(s[0]), kind_of(s[0])) {
            (Some(opcode), Some(InstructionKind::ImmediateToAccumulator)) => accumulator_step(
                opcode,
                s,
                offset,
            ),
            (Some(opcode), Some(InstructionKind::FourBitOpcode)) => register_immediate_step(
                opcode,
                s,
                offset,
            ),
            (Some(opcode), Some(InstructionKind::SixBitOpcode)) => six_bit_step(
                opcode,
                s,
                offset,
            ),
            _ => Step::Failed {
                error: DecodeError::UnrecognizedOpcode { byte: s[0], offset },
                consumed: 1,
            },
        }
    }
}

/// Decodes `s` from the front, instruction by instruction, until it is used
/// up or a step fails. `offset` is the position of `s[0]` in the pass.
pub open spec fn run(s: Seq<u8>, offset: usize) -> Outcome
    decreases s.len(),
{
    if s.len() == 0 {
        Outcome { instructions: Seq::empty(), consumed: 0, error: None }
    } else {
        match step(s, offset) {
            Step::Decoded { instruction, len } => {
                proof {
                    lemma_step_bounds(s, offset);
                }
                let rest = run(s.skip(len as int), (offset + len) as usize);
                Outcome {
                    instructions: seq![instruction] + rest.instructions,
                    consumed: len + rest.consumed,
                    error: rest.error,
                }
            },
            Step::Failed { error, consumed } => Outcome {
                instructions: Seq::empty(),
                consumed,
                error: Some(error),
            },
        }
    }
}

/// A step never takes more than there is, and a decoded instruction takes
/// between one and six bytes.
pub proof fn lemma_step_bounds(s: Seq<u8>, offset: usize)
    requires
        s.len() > 0,
    ensures
        match step(s, offset) {
            Step::Decoded { instruction, len } => 1 <= len <= 6 && len <= s.len(),
            Step::Failed { error, consumed } => 1 <= consumed <= s.len(),
        },
{
}

/// A pass over input whose first step decodes an instruction is that
/// instruction followed by the pass over the rest.
pub proof fn lemma_run_after_decoded(s: Seq<u8>, offset: usize)
    requires
        s.len() > 0,
        step(s, offset) is Decoded,
    ensures
        ({
            let len = step(s, offset)->len;
            let rest = run(s.skip(len as int), (offset + len) as usize);
            &&& run(s, offset).instructions == seq![step(s, offset)->instruction]
                + rest.instructions
            &&& run(s, offset).consumed == len + rest.consumed
            &&& run(s, offset).error == rest.error
        }),
{
}

/// A pass over input whose first step fails decodes nothing and reports
/// that failure.
pub proof fn lemma_run_after_failed(s: Seq<u8>, offset: usize)
    requires
        s.len() > 0,
        step(s, offset) is Failed,
    ensures
        run(s, offset).instructions == Seq::<DecodedMemField>::empty(),
        run(s, offset).consumed == step(s, offset)->consumed,
        run(s, offset).error == Some(step(s, offset)->error),
{
}

} // verus!
