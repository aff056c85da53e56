//! Which instructions decoding can give, and bytes that decode to each.
//!
//! `decodable` describes the instructions that some input decodes to, and
//! `assembled` writes such an instruction back as bytes. Decoding those
//! bytes gives the instruction again.

use vstd::prelude::*;
use super::fields::{
    mode_of, reg_bits, rm_bits, sign_extended, signed_byte, signed_word_le, word_le,
};
use super::model::{
    DecodedMemField, ExplicitSize, FieldEncoding, FieldOrRawData, Mode, Opcode, RawData, Register,
};
use super::semantics::{displacement_len, rm_operand, run, step, Outcome, Step};
use super::tables::{address_base, address_index, register_table};

verus! {

impl Register {
    /// The register's index in the register table.
    pub open spec fn index(self) -> u8 {
        match self {
            Register::AL | Register::AX => 0,
            Register::CL | Register::CX => 1,
            Register::DL | Register::DX => 2,
            Register::BL | Register::BX => 3,
            Register::AH | Register::SP => 4,
            Register::CH | Register::BP => 5,
            Register::DH | Register::SI => 6,
            Register::BH | Register::DI => 7,
        }
    }

    /// The W bit that selects the register: 0 for a byte register, 1 for a
    /// word register.
    pub open spec fn width(self) -> u8 {
        match self {
            Register::AL
            | Register::CL
            | Register::DL
            | Register::BL
            | Register::AH
            | Register::CH
            | Register::DH
            | Register::BH => 0,
            _ => 1,
        }
    }
}

/// The r/m index of the effective-address row with this base and index.
pub open spec fn address_row(base: Register, index: Option<Register>) -> u8 {
    match (base, index) {
        (Register::BX, Some(Register::SI)) => 0,
        (Register::BX, Some(Register::DI)) => 1,
        (Register::BP, Some(Register::SI)) => 2,
        (Register::BP, Some(Register::DI)) => 3,
        (Register::SI, None) => 4,
        (Register::DI, None) => 5,
        (Register::BP, None) => 6,
        _ => 7,
    }
}

/// Whether the operation has a group selector and an accumulator form.
pub open spec fn is_arithmetic(opcode: Opcode) -> bool {
    opcode == Opcode::ADD || opcode == Opcode::ADC || opcode == Opcode::SUB
}

/// The reg field that names an arithmetic operation after a group opcode.
pub open spec fn group_selector(opcode: Opcode) -> u8 {
    match opcode {
        Opcode::ADD => 0,
        Opcode::ADC => 2,
        _ => 5,
    }
}

/// The opcode byte of the immediate-to-accumulator form, with W at 0.
pub open spec fn accumulator_opcode(opcode: Opcode) -> u8 {
    match opcode {
        Opcode::ADD => 0x04,
        Opcode::ADC => 0x14,
        _ => 0x2C,
    }
}

/// The opcode byte of the register-or-memory form, with D and W at 0.
pub open spec fn six_bit_opcode(opcode: Opcode) -> u8 {
    match opcode {
        Opcode::ADD => 0x00,
        _ => 0x88,
    }
}

/// The lowest eight bits of a number in two's complement.
pub open spec fn low_byte(v: int) -> u8 {
    (v % 256) as u8
}

/// The eight bits above the lowest eight of a number in two's complement.
pub open spec fn high_byte(v: int) -> u8 {
    ((v / 256) % 256) as u8
}

/// Whether a displacement fits in a sign-extended byte.
pub open spec fn is_short(disp: i16) -> bool {
    -128 <= disp <= 127
}

/// The second byte for an r/m operand and a reg field, followed by the
/// operand's displacement: in one byte where it fits, else in two.
pub open spec fn operand_bytes(operand: FieldEncoding, reg: u8) -> Seq<u8> {
    match operand {
        FieldEncoding::Reg(r) => seq![(192 + 8 * reg + r.index()) as u8],
        FieldEncoding::Indexed(base, index, None) => seq![
            (8 * reg + address_row(base, index)) as u8,
        ],
        FieldEncoding::Indexed(base, index, Some(disp)) => if is_short(disp) {
            seq![(64 + 8 * reg + address_row(base, index)) as u8, low_byte(disp as int)]
        } else {
            seq![
                (128 + 8 * reg + address_row(base, index)) as u8,
                low_byte(disp as int),
                high_byte(disp as int),
            ]
        },
    }
}

/// The bytes of an immediate, low byte first.
pub open spec fn immediate_bytes(data: RawData) -> Seq<u8> {
    match data {
        RawData::U8(v) => seq![v],
        RawData::U16(v) => seq![low_byte(v as int), high_byte(v as int)],
        RawData::I8(v) => seq![low_byte(v as int)],
    }
}

/// The opcode byte `100000 s w` for an immediate and the width of its
/// destination: S is set where a word destination takes a one-byte
/// immediate.
pub open spec fn group_opcode_byte(data: RawData, w: u8) -> u8 {
    if data is U16 {
        0x81
    } else if w == 1 {
        0x83
    } else {
        0x80
    }
}

/// The W bit of a memory destination that states its size.
pub open spec fn size_width(size: Option<ExplicitSize>) -> u8 {
    if size == Some(ExplicitSize::Word) {
        1
    } else {
        0
    }
}

/// Whether some input decodes to this instruction.
///
/// With an immediate source the destination is a register or a memory
/// operand that states the immediate's size. `mov` takes an immediate only
/// into a register, at the register's width. An arithmetic operation takes
/// a signed byte only into `AL`, two bytes only into a word destination,
/// and an unsigned byte into any. Without an immediate the operation is
/// `add` or `mov`, at most one operand is in memory, and two registers
/// have the same width.
pub open spec fn decodable(i: DecodedMemField) -> bool {
    match (i.field_one, i.field_two) {
        (
            FieldOrRawData::FieldEncoding(FieldEncoding::Reg(r), None),
            FieldOrRawData::RawData(data, None),
        ) => {
            if i.opcode == Opcode::MOV {
                (r.width() == 0 && data is U8) || (r.width() == 1 && data is U16)
            } else {
                is_arithmetic(i.opcode) && match data {
                    RawData::I8(_) => r == Register::AL,
                    RawData::U16(_) => r.width() == 1,
                    RawData::U8(_) => true,
                }
            }
        },
        (
            FieldOrRawData::FieldEncoding(FieldEncoding::Indexed(base, index, disp), Some(size)),
            FieldOrRawData::RawData(data, None),
        ) => {
            &&& is_arithmetic(i.opcode)
            &&& i.field_one->FieldEncoding_0.well_formed()
            &&& (size == ExplicitSize::Word && data is U16) || (size == ExplicitSize::Byte
                && data is U8)
        },
        (
            FieldOrRawData::FieldEncoding(destination, None),
            FieldOrRawData::FieldEncoding(source, None),
        ) => {
            &&& i.opcode == Opcode::ADD || i.opcode == Opcode::MOV
            &&& destination.well_formed()
            &&& source.well_formed()
            &&& match (destination, source) {
                (FieldEncoding::Reg(a), FieldEncoding::Reg(b)) => a.width() == b.width(),
                (FieldEncoding::Indexed(..), FieldEncoding::Indexed(..)) => false,
                _ => true,
            }
        },
        _ => false,
    }
}

/// Bytes that decode to a decodable instruction: the shortest form for a
/// displacement, the accumulator form only for a signed byte, and D at 0
/// between two registers.
pub open spec fn assembled(i: DecodedMemField) -> Seq<u8> {
    match (i.field_one, i.field_two) {
        (
            FieldOrRawData::FieldEncoding(FieldEncoding::Reg(r), _),
            FieldOrRawData::RawData(data, _),
        ) => {
            if i.opcode == Opcode::MOV {
                seq![(176 + 8 * r.width() + r.index()) as u8] + immediate_bytes(data)
            } else if data is I8 {
                seq![accumulator_opcode(i.opcode)] + immediate_bytes(data)
            } else {
                seq![group_opcode_byte(data, r.width())] + operand_bytes(
                    FieldEncoding::Reg(r),
                    group_selector(i.opcode),
                ) + immediate_bytes(data)
            }
        },
        (FieldOrRawData::FieldEncoding(destination, _), FieldOrRawData::RawData(data, _)) => {
            seq![group_opcode_byte(data, 0)] + operand_bytes(
                destination,
                group_selector(i.opcode),
            ) + immediate_bytes(data)
        },
        (
            FieldOrRawData::FieldEncoding(FieldEncoding::Reg(r), _),
            FieldOrRawData::FieldEncoding(FieldEncoding::Indexed(base, index, disp), _),
        ) => {
            seq![(six_bit_opcode(i.opcode) + 2 + r.width()) as u8] + operand_bytes(
                FieldEncoding::Indexed(base, index, disp),
                r.index(),
            )
        },
        (
            FieldOrRawData::FieldEncoding(destination, _),
            FieldOrRawData::FieldEncoding(FieldEncoding::Reg(r), _),
        ) => {
            seq![(six_bit_opcode(i.opcode) + r.width()) as u8] + operand_bytes(
                destination,
                r.index(),
            )
        },
        _ => Seq::empty(),
    }
}

/// Index and width name a register, and the register table gives it back.
pub proof fn lemma_register_index(r: Register)
    ensures
        r.index() <= 7,
        r.width() <= 1,
        register_table(r.index(), r.width()) == r,
{
}

/// The register at an index and width has that index and width.
pub proof fn lemma_register_table_index(index: u8, w: u8)
    requires
        index <= 7,
        w <= 1,
    ensures
        register_table(index, w).index() == index,
        register_table(index, w).width() == w,
{
}

/// The row of a base and index from the effective-address table holds that
/// base and index.
pub proof fn lemma_address_row(operand: FieldEncoding)
    requires
        operand.well_formed(),
        operand is Indexed,
    ensures
        address_row(operand->Indexed_0, operand->Indexed_1) <= 7,
        address_base(address_row(operand->Indexed_0, operand->Indexed_1)) == operand->Indexed_0,
        address_index(address_row(operand->Indexed_0, operand->Indexed_1)) == operand->Indexed_1,
{
    let rm = choose|rm: u8|
        rm <= 7 && operand->Indexed_0 == #[trigger] address_base(rm) && operand->Indexed_1
            == address_index(rm);
    assert(address_row(address_base(rm), address_index(rm)) == rm);
}

/// Low and high byte hold a 16-bit number, unsigned or signed, and the low
/// byte holds a signed byte.
pub proof fn lemma_bytes_of_number(v: int)
    ensures
        0 <= v <= 65535 ==> word_le(low_byte(v), high_byte(v)) == v,
        -32768 <= v <= 32767 ==> signed_word_le(low_byte(v), high_byte(v)) == v,
        -128 <= v <= 127 ==> signed_byte(low_byte(v)) == v && sign_extended(low_byte(v)) == v,
{
}

/// A decodable instruction is well formed.
pub proof fn lemma_decodable_is_well_formed(i: DecodedMemField)
    requires
        decodable(i),
    ensures
        i.well_formed(),
{
}

/// Every instruction that a step decodes is decodable.
pub proof fn lemma_decoded_is_decodable(s: Seq<u8>, offset: usize)
    ensures
        step(s, offset) matches Step::Decoded { instruction, .. } ==> decodable(instruction),
{
    if s.len() >= 2 {
        let rm = rm_bits(s[1]);
        assert(rm <= 7);
        assert(address_base(rm) == address_base(rm));
    }
}

/// Where the bytes of an operand stand behind the opcode byte, the second
/// byte holds the reg field they were written with, and the r/m operand and
/// its displacement decode to the operand.
proof fn lemma_operand_bytes(operand: FieldEncoding, reg: u8, w: u8, s: Seq<u8>)
    requires
        operand.well_formed(),
        reg <= 7,
        w <= 1,
        operand matches FieldEncoding::Reg(r) ==> r.width() == w,
        s.len() >= 1 + operand_bytes(operand, reg).len(),
        forall|k: int|
            0 <= k < operand_bytes(operand, reg).len() ==> s[1 + k] == operand_bytes(
                operand,
                reg,
            )[k],
    ensures
        reg_bits(s[1]) == reg,
        operand_bytes(operand, reg).len() == 1 + displacement_len(mode_of(s[1])),
        mode_of(s[1]) == Mode::Register <==> operand is Reg,
        rm_operand(s, w) == operand,
{
    let bytes = operand_bytes(operand, reg);
    assert(s[1] == bytes[0]);
    match operand {
        FieldEncoding::Reg(r) => {
            lemma_register_index(r);
        },
        FieldEncoding::Indexed(base, index, disp) => {
            lemma_address_row(operand);
            match disp {
                None => {},
                Some(d) => {
                    lemma_bytes_of_number(d as int);
                    assert(s[2] == bytes[1]);
                    if !is_short(d) {
                        assert(s[3] == bytes[2]);
                    }
                },
            }
        },
    }
}

/// The assembled bytes of a decodable instruction, with anything behind
/// them, decode to that instruction and to nothing more.
pub proof fn lemma_assembled_decodes(i: DecodedMemField, rest: Seq<u8>, offset: usize)
    requires
        decodable(i),
    ensures
        1 <= assembled(i).len() <= 6,
        step(assembled(i) + rest, offset) == (Step::Decoded {
            instruction: i,
            len: assembled(i).len(),
        }),
{
    let s = assembled(i) + rest;
    match (i.field_one, i.field_two) {
        (FieldOrRawData::FieldEncoding(destination, _), FieldOrRawData::RawData(data, _)) => {
            lemma_bytes_of_number(data.value());
            let w = match destination {
                FieldEncoding::Reg(r) => r.width(),
                _ => if data is U16 {
                    1u8
                } else {
                    0u8
                },
            };
            if let FieldEncoding::Reg(r) = destination {
                lemma_register_index(r);
            }
            if !(destination is Reg && (i.opcode == Opcode::MOV || data is I8)) {
                lemma_operand_bytes(destination, group_selector(i.opcode), w, s);
            }
        },
        (
            FieldOrRawData::FieldEncoding(destination, _),
            FieldOrRawData::FieldEncoding(source, _),
        ) => {
            if let FieldEncoding::Reg(r) = source {
                lemma_register_index(r);
                lemma_operand_bytes(destination, r.index(), r.width(), s);
            } else if let FieldEncoding::Reg(r) = destination {
                lemma_register_index(r);
                lemma_operand_bytes(source, r.index(), r.width(), s);
            }
        },
        _ => {},
    }
}

/// Assembling a decoded instruction and decoding the bytes gives the
/// instruction back, alone and without error.
pub proof fn lemma_round_trip(s: Seq<u8>, offset: usize)
    requires
        step(s, offset) is Decoded,
    ensures
        run(assembled(step(s, offset)->instruction), 0) == (Outcome {
            instructions: seq![step(s, offset)->instruction],
            consumed: assembled(step(s, offset)->instruction).len(),
            error: None,
        }),
{
    let i = step(s, offset)->instruction;
    let bytes = assembled(i);
    lemma_decoded_is_decodable(s, offset);
    lemma_assembled_decodes(i, Seq::empty(), 0);
    assert(bytes + Seq::<u8>::empty() =~= bytes);
    assert(bytes.skip(bytes.len() as int) =~= Seq::<u8>::empty());
    reveal_with_fuel(run, 2);
    assert(seq![i] + Seq::<DecodedMemField>::empty() =~= seq![i]);
}

} // verus!
