//! The decoder: an input queue of bytes and the instructions decoded so far.

use std::collections::VecDeque;
use vstd::prelude::*;
use super::cursor::{next_byte, read_displacement, read_immediate};
use super::fields::{
    direction_flag, reg_field, rm_field, short_register_field, short_width_flag,
    signed_from_byte, width_flag,
};
use super::laws::lemma_run_well_formed;
use super::model::{
    DecodeError, DecodedMemField, ExplicitSize, FieldEncoding, FieldOrRawData, InstructionKind,
    Mode, Opcode, RawData, Register,
};
use super::render::{dump_text, push_binary};
use super::semantics::{
    accumulator_step, displacement_at, displacement_len, immediate_at, immediate_len,
    lemma_run_after_decoded, lemma_run_after_failed, lemma_step_bounds,
    register_immediate_step, run, six_bit_step, step, Outcome, Step,
};
use super::tables::{effective_address, group_opcode, kind_of, opcode_of, register_table};

verus! {

/// A decode pass in progress: what is still to be read and what has been
/// decoded.
pub struct Decoder {
    /// The bytes still to decode, next byte first.
    pub instruction_queue: VecDeque<u8>,
    /// The instructions decoded so far, in input order.
    pub intermediate_repr: Vec<DecodedMemField>,
}

/// How a decoder stands after one step on the input `s`: a decoded
/// instruction is appended and its bytes are gone from the queue; a failed
/// step appends nothing and leaves the queue without the bytes it took.
spec fn stepped(
    before: Decoder,
    s: Seq<u8>,
    outcome: Step,
    result: Result<(), DecodeError>,
    after: Decoder,
) -> bool {
    match outcome {
        Step::Decoded { instruction, len } => {
            &&& result is Ok
            &&& after.intermediate_repr@ == before.intermediate_repr@.push(instruction)
            &&& after.instruction_queue@ == s.skip(len as int)
        },
        Step::Failed { error, consumed } => {
            &&& result == Err::<(), DecodeError>(error)
            &&& after.intermediate_repr@ == before.intermediate_repr@
            &&& after.instruction_queue@ == s.skip(consumed as int)
        },
    }
}

impl Decoder {
    /// A decoder with no input and no instructions.
    pub fn new() -> (decoder: Self)
        ensures
            decoder.instruction_queue@ == Seq::<u8>::empty(),
            decoder.intermediate_repr@ == Seq::<DecodedMemField>::empty(),
    {
        Decoder { instruction_queue: VecDeque::new(), intermediate_repr: Vec::new() }
    }

    /// Appends `file_content` to the input, behind what is already queued.
    pub fn load(&mut self, file_content: Vec<u8>)
        ensures
            final(self).instruction_queue@ == old(self).instruction_queue@ + file_content@,
            final(self).intermediate_repr@ == old(self).intermediate_repr@,
    {
        let mut i: usize = 0;
        while i < file_content.len()
            invariant
                i <= file_content.len(),
                self.instruction_queue@ == old(self).instruction_queue@ + file_content@.take(
                    i as int,
                ),
                self.intermediate_repr@ == old(self).intermediate_repr@,
            decreases file_content.len() - i,
        {
            self.instruction_queue.push_back(file_content[i]);
            i += 1;
            assert(self.instruction_queue@ =~= old(self).instruction_queue@
                + file_content@.take(i as int));
        }
        assert(file_content@.take(i as int) =~= file_content@);
    }

    /// Appends an instruction whose operands come from the reg and r/m
    /// fields. The reg operand is the destination where `d` is 1; in every
    /// other case the r/m operand is.
    pub fn append_intermediate_repr(
        &mut self,
        d: Option<&u8>,
        opcode: Opcode,
        field_reg: FieldOrRawData,
        field_rm: FieldOrRawData,
    )
        ensures
            final(self).instruction_queue@ == old(self).instruction_queue@,
            final(self).intermediate_repr@ == old(self).intermediate_repr@.push(
                if d == Some(&1u8) {
                    DecodedMemField { opcode, field_one: field_reg, field_two: field_rm }
                } else {
                    DecodedMemField { opcode, field_one: field_rm, field_two: field_reg }
                },
            ),
    {
        let reg_first = match d {
            Some(bit) => *bit == 1,
            None => false,
        };
        if reg_first {
            self.intermediate_repr.push(
                DecodedMemField { opcode, field_one: field_reg, field_two: field_rm },
            )
        } else {
            self.intermediate_repr.push(
                DecodedMemField { opcode, field_one: field_rm, field_two: field_reg },
            )
        }
    }

    /// The operation that the reg field names after a group opcode: 0 is
    /// ADD, 2 is ADC, 5 is SUB.
    pub fn match_wildcard_opcode(reg: &u8) -> (opcode: Option<Opcode>)
        ensures
            opcode == group_opcode(*reg),
    {
        match *reg {
            0 => Some(Opcode::ADD),
            2 => Some(Opcode::ADC),
            5 => Some(Opcode::SUB),
            _ => None,
        }
    }

    /// Classifies a leading byte by its top seven, then six, then four bits.
    pub fn match_opcode(byte: &u8) -> (matched: (Option<Opcode>, Option<InstructionKind>))
        ensures
            matched.0 == opcode_of(*byte),
            matched.1 == kind_of(*byte),
    {
        let b: u8 = *byte;
        assert(b >> 1 == b / 2) by (bit_vector);
        assert(b >> 2 == b / 4) by (bit_vector);
        assert(b >> 4 == b / 16) by (bit_vector);
        match b >> 1 {
            2 => (Some(Opcode::ADD), Some(InstructionKind::ImmediateToAccumulator)),
            10 => (Some(Opcode::ADC), Some(InstructionKind::ImmediateToAccumulator)),
            22 => (Some(Opcode::SUB), Some(InstructionKind::ImmediateToAccumulator)),
            _ => match b >> 2 {
                0 => (Some(Opcode::ADD), Some(InstructionKind::SixBitOpcode)),
                32 => (Some(Opcode::WILDCARD), Some(InstructionKind::SixBitOpcode)),
                34 => (Some(Opcode::MOV), Some(InstructionKind::SixBitOpcode)),
                _ => match b >> 4 {
                    11 => (Some(Opcode::MOV), Some(InstructionKind::FourBitOpcode)),
                    _ => (None, None),
                },
            },
        }
    }

    /// The memory operand that an r/m index selects, with its displacement.
    pub fn get_rm_field(rm: &u8, disp: Option<i16>) -> (field: FieldEncoding)
        requires
            *rm <= 7,
        ensures
            field == effective_address(*rm, disp),
    {
        match *rm {
            0 => FieldEncoding::Indexed(Register::BX, Some(Register::SI), disp),
            1 => FieldEncoding::Indexed(Register::BX, Some(Register::DI), disp),
            2 => FieldEncoding::Indexed(Register::BP, Some(Register::SI), disp),
            3 => FieldEncoding::Indexed(Register::BP, Some(Register::DI), disp),
            4 => FieldEncoding::Indexed(Register::SI, None, disp),
            5 => FieldEncoding::Indexed(Register::DI, None, disp),
            6 => FieldEncoding::Indexed(Register::BP, None, disp),
            _ => FieldEncoding::Indexed(Register::BX, None, disp),
        }
    }

    /// The register that a three-bit index names at width `w`.
    pub fn get_reg_field(reg: &u8, w: &u8) -> (field: FieldEncoding)
        requires
            *reg <= 7,
            *w <= 1,
        ensures
            field == FieldEncoding::Reg(register_table(*reg, *w)),
    {
        if *w == 0 {
            match *reg {
                0 => FieldEncoding::Reg(Register::AL),
                1 => FieldEncoding::Reg(Register::CL),
                2 => FieldEncoding::Reg(Register::DL),
                3 => FieldEncoding::Reg(Register::BL),
                4 => FieldEncoding::Reg(Register::AH),
                5 => FieldEncoding::Reg(Register::CH),
                6 => FieldEncoding::Reg(Register::DH),
                _ => FieldEncoding::Reg(Register::BH),
            }
        } else {
            match *reg {
                0 => FieldEncoding::Reg(Register::AX),
                1 => FieldEncoding::Reg(Register::CX),
                2 => FieldEncoding::Reg(Register::DX),
                3 => FieldEncoding::Reg(Register::BX),
                4 => FieldEncoding::Reg(Register::SP),
                5 => FieldEncoding::Reg(Register::BP),
                6 => FieldEncoding::Reg(Register::SI),
                _ => FieldEncoding::Reg(Register::DI),
            }
        }
    }
}

impl Decoder {
    /// Decodes the rest of an immediate-to-accumulator instruction whose
    /// opcode byte `first` has been taken off the queue.
    fn decode_accumulator(&mut self, opcode: Opcode, first: u8, offset: usize) -> (r: Result<
        (),
        DecodeError,
    >)
        ensures
            stepped(
                *old(self),
                seq![first] + old(self).instruction_queue@,
                accumulator_step(opcode, seq![first] + old(self).instruction_queue@, offset),
                r,
                *final(self),
            ),
    {
        let ghost s = seq![first] + self.instruction_queue@;
        assert(self.instruction_queue@ =~= s.skip(1));
        if width_flag(first) == 1 {
            let data = match read_immediate(&mut self.instruction_queue, true, offset) {
                Ok(data) => data,
                Err(e) => {
                    assert(self.instruction_queue@ =~= s.skip(s.len() as int));
                    return Err(e);
                },
            };
            assert(self.instruction_queue@ =~= s.skip(3));
            self.intermediate_repr.push(
                DecodedMemField {
                    opcode,
                    field_one: FieldOrRawData::FieldEncoding(
                        FieldEncoding::Reg(Register::AX),
                        None,
                    ),
                    field_two: FieldOrRawData::RawData(data, None),
                },
            );
        } else {
            let byte = match next_byte(&mut self.instruction_queue, offset) {
                Ok(byte) => byte,
                Err(e) => {
                    assert(self.instruction_queue@ =~= s.skip(s.len() as int));
                    return Err(e);
                },
            };
            assert(self.instruction_queue@ =~= s.skip(2));
            self.intermediate_repr.push(
                DecodedMemField {
                    opcode,
                    field_one: FieldOrRawData::FieldEncoding(
                        FieldEncoding::Reg(Register::AL),
                        None,
                    ),
                    field_two: FieldOrRawData::RawData(RawData::I8(signed_from_byte(byte)), None),
                },
            );
        }
        Ok(())
    }

    /// Decodes the rest of an immediate-to-register instruction whose
    /// opcode byte `first` has been taken off the queue.
    fn decode_register_immediate(&mut self, opcode: Opcode, first: u8, offset: usize) -> (r:
        Result<(), DecodeError>)
        ensures
            stepped(
                *old(self),
                seq![first] + old(self).instruction_queue@,
                register_immediate_step(
                    opcode,
                    seq![first] + old(self).instruction_queue@,
                    offset,
                ),
                r,
                *final(self),
            ),
    {
        let ghost s = seq![first] + self.instruction_queue@;
        let w = short_width_flag(first);
        let reg = short_register_field(first);
        let reg_field = Decoder::get_reg_field(&reg, &w);
        assert(self.instruction_queue@ =~= s.skip(1));
        let data = match read_immediate(&mut self.instruction_queue, w == 1, offset) {
            Ok(data) => data,
            Err(e) => {
                assert(self.instruction_queue@ =~= s.skip(s.len() as int));
                return Err(e);
            },
        };
        assert(self.instruction_queue@ =~= s.skip(if w == 1 {
            3int
        } else {
            2int
        }));
        self.append_intermediate_repr(
            None,
            opcode,
            FieldOrRawData::RawData(data, None),
            FieldOrRawData::FieldEncoding(reg_field, None),
        );
        Ok(())
    }

    /// Decodes the rest of a six-bit-opcode instruction whose opcode byte
    /// `first` has been taken off the queue. `opcode` is what the opcode
    /// byte selects: an operation, or `WILDCARD` for the group.
    fn decode_register_memory(&mut self, opcode: Opcode, first: u8, offset: usize) -> (r: Result<
        (),
        DecodeError,
    >)
        ensures
            stepped(
                *old(self),
                seq![first] + old(self).instruction_queue@,
                six_bit_step(opcode, seq![first] + old(self).instruction_queue@, offset),
                r,
                *final(self),
            ),
    {
        let ghost s = seq![first] + self.instruction_queue@;
        let mut opcode = opcode;
        let w = width_flag(first);
        let mut d: Option<u8> = Some(direction_flag(first));
        let mut sign: Option<u8> = None;
        let second = match next_byte(&mut self.instruction_queue, offset) {
            Ok(byte) => byte,
            Err(e) => {
                assert(s =~= seq![first]);
                assert(self.instruction_queue@ =~= s.skip(s.len() as int));
                return Err(e);
            },
        };
        assert(s[1] == second);
        assert(self.instruction_queue@ =~= s.skip(2));
        let mode = Mode::from_byte(second);
        let reg = reg_field(second);
        let rm = rm_field(second);
        if opcode == Opcode::WILDCARD {
            opcode = match Decoder::match_wildcard_opcode(&reg) {
                Some(named) => named,
                None => {
                    return Err(DecodeError::UnrecognizedGroupOpcode { selector: reg, offset });
                },
            };
            sign = d;
            d = None;
        }
        let disp = match read_displacement(&mut self.instruction_queue, mode, offset) {
            Ok(disp) => disp,
            Err(e) => {
                assert(self.instruction_queue@ =~= s.skip(s.len() as int));
                return Err(e);
            },
        };
        let ghost at: int = 2 + displacement_len(mode) as int;
        assert(self.instruction_queue@ =~= s.skip(at));
        assert(disp == displacement_at(s, 2, mode));
        let field_rm = match mode {
            Mode::Register => Decoder::get_reg_field(&rm, &w),
            _ => Decoder::get_rm_field(&rm, disp),
        };
        match d {
            None => {
                let wide = w == 1 && sign == Some(0u8);
                let data = match read_immediate(&mut self.instruction_queue, wide, offset) {
                    Ok(data) => data,
                    Err(e) => {
                        assert(self.instruction_queue@ =~= s.skip(s.len() as int));
                        return Err(e);
                    },
                };
                assert(self.instruction_queue@ =~= s.skip(
                    at + immediate_len(wide) as int,
                ));
                assert(data == immediate_at(s, at, wide));
                let explicit_size = match mode {
                    Mode::Register => None,
                    _ => if wide {
                        Some(ExplicitSize::Word)
                    } else {
                        Some(ExplicitSize::Byte)
                    },
                };
                self.append_intermediate_repr(
                    None,
                    opcode,
                    FieldOrRawData::RawData(data, None),
                    FieldOrRawData::FieldEncoding(field_rm, explicit_size),
                );
            },
            Some(bit) => {
                let field_reg = Decoder::get_reg_field(&reg, &w);
                self.append_intermediate_repr(
                    Some(&bit),
                    opcode,
                    FieldOrRawData::FieldEncoding(field_reg, None),
                    FieldOrRawData::FieldEncoding(field_rm, None),
                );
            },
        }
        Ok(())
    }

    /// Takes one instruction off the front of the queue and appends it.
    fn decode_next(&mut self, offset: usize) -> (r: Result<(), DecodeError>)
        requires
            old(self).instruction_queue@.len() > 0,
        ensures
            stepped(
                *old(self),
                old(self).instruction_queue@,
                step(old(self).instruction_queue@, offset),
                r,
                *final(self),
            ),
    {
        let ghost s = self.instruction_queue@;
        let byte = match next_byte(&mut self.instruction_queue, offset) {
            Ok(byte) => byte,
            Err(e) => {
                return Err(e);
            },
        };
        assert(s =~= seq![byte] + self.instruction_queue@);
        match Decoder::match_opcode(&byte) {
            (Some(opcode), Some(InstructionKind::ImmediateToAccumulator)) => {
                self.decode_accumulator(opcode, byte, offset)
            },
            (Some(opcode), Some(InstructionKind::FourBitOpcode)) => {
                self.decode_register_immediate(opcode, byte, offset)
            },
            (Some(opcode), Some(InstructionKind::SixBitOpcode)) => {
                self.decode_register_memory(opcode, byte, offset)
            },
            _ => {
                assert(self.instruction_queue@ =~= s.skip(1));
                Err(DecodeError::UnrecognizedOpcode { byte, offset })
            },
        }
    }

    /// Decodes the queued bytes from the front, instruction by instruction,
    /// and appends each instruction as it is decoded. Stops when the queue
    /// is empty, or at the first instruction that cannot be decoded: then
    /// the error is returned, the instructions before it stay appended, and
    /// the queue is left without the bytes taken up to the failure.
    pub fn decode(&mut self) -> (r: Result<(), DecodeError>)
        ensures
            final(self).intermediate_repr@ == old(self).intermediate_repr@ + run(
                old(self).instruction_queue@,
                0,
            ).instructions,
            final(self).instruction_queue@ == old(self).instruction_queue@.skip(
                run(old(self).instruction_queue@, 0).consumed as int,
            ),
            match r {
                Ok(()) => run(old(self).instruction_queue@, 0).error is None,
                Err(e) => run(old(self).instruction_queue@, 0).error == Some(e),
            },
            forall|i: int|
                old(self).intermediate_repr@.len() <= i < final(self).intermediate_repr@.len()
                    ==> (#[trigger] final(self).intermediate_repr@[i]).well_formed(),
    {
        let ghost s0 = self.instruction_queue@;
        let ghost ir0 = self.intermediate_repr@;
        let ghost mut done: Seq<DecodedMemField> = Seq::empty();
        let total: usize = self.instruction_queue.len();
        assert(self.instruction_queue@ =~= s0.skip(0));
        assert(self.intermediate_repr@ =~= ir0 + done);
        loop
            invariant
                s0 == old(self).instruction_queue@,
                ir0 == old(self).intermediate_repr@,
                total == s0.len(),
                self.instruction_queue@.len() <= total,
                self.instruction_queue@ == s0.skip(total - self.instruction_queue@.len()),
                self.intermediate_repr@ == ir0 + done,
                continues(
                    run(s0, 0),
                    done,
                    total - self.instruction_queue@.len(),
                    run(
                        self.instruction_queue@,
                        (total - self.instruction_queue@.len()) as usize,
                    ),
                ),
            decreases self.instruction_queue@.len(),
        {
            let remaining: usize = self.instruction_queue.len();
            let offset: usize = total - remaining;
            let ghost s = self.instruction_queue@;
            if remaining == 0 {
                proof {
                    assert(done + Seq::<DecodedMemField>::empty() =~= done);
                    lemma_appended_well_formed(ir0, s0, self.intermediate_repr@);
                }
                return Ok(());
            }
            proof {
                lemma_step_bounds(s, offset);
            }
            match self.decode_next(offset) {
                Ok(()) => {
                    proof {
                        lemma_run_after_decoded(s, offset);
                        let instruction = step(s, offset)->instruction;
                        let len = step(s, offset)->len;
                        let rest = run(s.skip(len as int), (offset + len) as usize);
                        assert(s0.skip(offset as int).skip(len as int) =~= s0.skip(offset + len));
                        assert(done + (seq![instruction] + rest.instructions) =~= done.push(
                            instruction,
                        ) + rest.instructions);
                        assert(ir0 + done.push(instruction) =~= (ir0 + done).push(instruction));
                        done = done.push(instruction);
                    }
                },
                Err(e) => {
                    proof {
                        lemma_run_after_failed(s, offset);
                        let consumed = step(s, offset)->consumed;
                        assert(done + Seq::<DecodedMemField>::empty() =~= done);
                        assert(s0.skip(offset as int).skip(consumed as int) =~= s0.skip(
                            offset + consumed,
                        ));
                        lemma_appended_well_formed(ir0, s0, self.intermediate_repr@);
                    }
                    return Err(e);
                },
            }
        }
    }
}

impl Decoder {
    /// The queued bytes in binary, each as eight digits and a space.
    pub fn dump_memory(&self) -> (text: String)
        ensures
            text@ == dump_text(self.instruction_queue@),
    {
        let mut text = String::new();
        let mut i: usize = 0;
        assert(self.instruction_queue@.take(0) =~= Seq::<u8>::empty());
        while i < self.instruction_queue.len()
            invariant
                i <= self.instruction_queue@.len(),
                text@ == dump_text(self.instruction_queue@.take(i as int)),
            decreases self.instruction_queue@.len() - i,
        {
            let ghost before = self.instruction_queue@.take(i as int);
            let ghost after = self.instruction_queue@.take(i + 1);
            assert(after.drop_last() =~= before);
            assert(after.last() == self.instruction_queue@[i as int]);
            push_binary(&mut text, self.instruction_queue[i]);
            text.append(" ");
            proof {
                reveal_strlit(" ");
                assert(" "@ =~= seq![' ']);
            }
            i += 1;
        }
        assert(self.instruction_queue@.take(i as int) =~= self.instruction_queue@);
        text
    }

    /// The text of each decoded instruction, in order.
    pub fn execute(&self) -> (lines: Vec<String>)
        ensures
            lines@.len() == self.intermediate_repr@.len(),
            forall|i: int|
                0 <= i < lines@.len() ==> (#[trigger] lines@[i])@
                    == self.intermediate_repr@[i].text(),
    {
        let mut lines: Vec<String> = Vec::new();
        let mut i: usize = 0;
        while i < self.intermediate_repr.len()
            invariant
                i <= self.intermediate_repr@.len(),
                lines@.len() == i,
                forall|j: int|
                    0 <= j < i ==> (#[trigger] lines@[j])@ == self.intermediate_repr@[j].text(),
            decreases self.intermediate_repr@.len() - i,
        {
            lines.push(self.intermediate_repr[i].to_string());
            i += 1;
        }
        lines
    }
}

/// Instructions appended by a pass are well formed.
proof fn lemma_appended_well_formed(
    before: Seq<DecodedMemField>,
    s: Seq<u8>,
    after: Seq<DecodedMemField>,
)
    requires
        after == before + run(s, 0).instructions,
    ensures
        forall|i: int| before.len() <= i < after.len() ==> (#[trigger] after[i]).well_formed(),
{
    lemma_run_well_formed(s, 0);
    assert forall|i: int| before.len() <= i < after.len() implies (#[trigger] after[i]).well_formed(
    ) by {
        assert(after[i] == run(s, 0).instructions[i - before.len()]);
    }
}

/// The pass `whole` is the instructions `done`, decoded from the first
/// `taken` bytes, followed by the pass `rest` over what comes after them.
spec fn continues(whole: Outcome, done: Seq<DecodedMemField>, taken: int, rest: Outcome) -> bool {
    &&& whole.instructions == done + rest.instructions
    &&& whole.consumed == taken + rest.consumed
    &&& whole.error == rest.error
}

} // verus!
