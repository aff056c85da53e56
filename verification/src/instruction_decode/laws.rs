//! Properties of decoding that hold for every input.

use vstd::prelude::*;
use super::fields::{direction_bit, mode_of, reg_bits, rm_bits, width_bit};
use super::model::{DecodeError, FieldEncoding, FieldOrRawData, InstructionKind, Mode, Opcode};
use super::semantics::{lemma_step_bounds, run, step, Outcome, Step};
use super::tables::{address_base, kind_of, opcode_of, register_table};

verus! {

/// Every instruction that a step decodes is well formed.
pub proof fn lemma_step_well_formed(s: Seq<u8>, offset: usize)
    ensures
        step(s, offset) matches Step::Decoded { instruction, .. } ==> instruction.well_formed(),
{
    if s.len() >= 2 {
        let rm = rm_bits(s[1]);
        assert(rm <= 7);
        assert(address_base(rm) == address_base(rm));
    }
}

/// Every instruction that a pass decodes is well formed.
pub proof fn lemma_run_well_formed(s: Seq<u8>, offset: usize)
    ensures
        forall|i: int|
            0 <= i < run(s, offset).instructions.len() ==> (#[trigger] run(
                s,
                offset,
            ).instructions[i]).well_formed(),
    decreases s.len(),
{
    if s.len() > 0 {
        lemma_step_bounds(s, offset);
        lemma_step_well_formed(s, offset);
        if let Step::Decoded { instruction, len } = step(s, offset) {
            lemma_run_well_formed(s.skip(len as int), (offset + len) as usize);
        }
    }
}

/// A pass takes no more bytes than it is given; it takes all of them
/// exactly when it ends without error or inside a truncated instruction.
pub proof fn lemma_run_consumed(s: Seq<u8>, offset: usize)
    ensures
        run(s, offset).consumed <= s.len(),
        run(s, offset).error is None ==> run(s, offset).consumed == s.len(),
        run(s, offset).error matches Some(DecodeError::TruncatedInstruction { .. }) ==> run(
            s,
            offset,
        ).consumed == s.len(),
    decreases s.len(),
{
    if s.len() > 0 {
        lemma_step_bounds(s, offset);
        if let Step::Decoded { instruction, len } = step(s, offset) {
            lemma_run_consumed(s.skip(len as int), (offset + len) as usize);
        }
    }
}

/// A step fails on the leading byte exactly when that byte matches no
/// opcode pattern, and then reports that byte.
pub proof fn lemma_unrecognized_opcode(s: Seq<u8>, offset: usize)
    requires
        s.len() > 0,
    ensures
        kind_of(s[0]) is None <==> step(s, offset) matches Step::Failed {
            error: DecodeError::UnrecognizedOpcode { .. },
            ..
        },
        kind_of(s[0]) is None ==> step(s, offset) == (Step::Failed {
            error: DecodeError::UnrecognizedOpcode { byte: s[0], offset },
            consumed: 1,
        }),
        kind_of(s[0]) is None ==> run(s, offset) == (Outcome {
            instructions: Seq::empty(),
            consumed: 1,
            error: Some(DecodeError::UnrecognizedOpcode { byte: s[0], offset }),
        }),
{
}

/// The opcode byte with its D bit inverted.
pub open spec fn with_direction_flipped(first: u8) -> u8 {
    if direction_bit(first) == 1 {
        (first - 2) as u8
    } else {
        (first + 2) as u8
    }
}

/// In a two-byte register-to-register instruction, inverting the D bit
/// exchanges destination and source and changes nothing else: the
/// operation and the two registers stay.
pub proof fn lemma_direction_swaps_operands(first: u8, second: u8)
    requires
        kind_of(first) == Some(InstructionKind::SixBitOpcode),
        opcode_of(first) != Some(Opcode::WILDCARD),
        mode_of(second) == Mode::Register,
    ensures
        ({
            let one = run(seq![first, second], 0);
            let other = run(seq![with_direction_flipped(first), second], 0);
            let reg = FieldOrRawData::FieldEncoding(
                FieldEncoding::Reg(register_table(reg_bits(second), width_bit(first))),
                None,
            );
            let rm = FieldOrRawData::FieldEncoding(
                FieldEncoding::Reg(register_table(rm_bits(second), width_bit(first))),
                None,
            );
            &&& one.error is None && other.error is None
            &&& one.consumed == 2 && other.consumed == 2
            &&& one.instructions.len() == 1 && other.instructions.len() == 1
            &&& one.instructions[0].opcode == other.instructions[0].opcode
            &&& one.instructions[0].field_one == other.instructions[0].field_two
            &&& one.instructions[0].field_two == other.instructions[0].field_one
            &&& one.instructions[0].field_one == if direction_bit(first) == 1 {
                reg
            } else {
                rm
            }
            &&& one.instructions[0].field_two == if direction_bit(first) == 1 {
                rm
            } else {
                reg
            }
        }),
{
    let flipped = with_direction_flipped(first);
    let s = seq![first, second];
    let t = seq![flipped, second];
    assert(first / 4 == flipped / 4 && first % 2 == flipped % 2 && (first / 2) % 2 != (flipped / 2)
        % 2);
    assert(s.skip(2) =~= Seq::<u8>::empty());
    assert(t.skip(2) =~= Seq::<u8>::empty());
    reveal_with_fuel(run, 2);
}

} // verus!
