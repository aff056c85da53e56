//! The encodings of the instruction set as data: for each instruction, the
//! fields of its bytes in order.

use vstd::prelude::*;

verus! {

#[derive(Clone, Copy, Debug, PartialEq, Eq, Structural)]
pub enum Mnemonic {
    MOV,
}

/// One field of an encoding, from the highest bit of the first byte on.
#[derive(Clone, Copy, Debug, PartialEq, Eq, Structural)]
pub enum InstEncoding {
    /// Bits that are fixed.
    BitsLiteral(u8),
    BitsD,
    BitsS,
    BitsW,
    BitsV,
    BitsZ,
    BitsMod,
    BitsReg,
    BitsRm,
    /// A reg field that is fixed.
    BitsRegImp(u8),
    BitsData,
    BitsDataIfW,
    /// A direction that the encoding implies without a bit for it.
    BitsImpD(u8),
}

#[derive(Debug)]
pub struct Inst {
    pub mnemonic: Mnemonic,
    pub encoding: Vec<InstEncoding>,
}

/// Register or memory to or from register: `100010 d w`, `mod reg r/m`.
pub open spec fn mov_register_memory() -> Seq<InstEncoding> {
    seq![
        InstEncoding::BitsLiteral(0b100010),
        InstEncoding::BitsD,
        InstEncoding::BitsW,
        InstEncoding::BitsMod,
        InstEncoding::BitsReg,
        InstEncoding::BitsRm,
    ]
}

/// Immediate to register or memory: `1100011 w`, `mod 000 r/m`, data, and
/// more data where W is 1; the r/m operand is the destination.
pub open spec fn mov_immediate() -> Seq<InstEncoding> {
    seq![
        InstEncoding::BitsLiteral(0b1100011),
        InstEncoding::BitsW,
        InstEncoding::BitsMod,
        InstEncoding::BitsRegImp(0b000),
        InstEncoding::BitsRm,
        InstEncoding::BitsData,
        InstEncoding::BitsDataIfW,
        InstEncoding::BitsImpD(0),
    ]
}

/// The table of encodings.
pub fn instruction_set() -> (table: Vec<Inst>)
    ensures
        table@.len() == 2,
        table@[0].mnemonic == Mnemonic::MOV,
        table@[0].encoding@ == mov_register_memory(),
        table@[1].mnemonic == Mnemonic::MOV,
        table@[1].encoding@ == mov_immediate(),
{
    let mut first: Vec<InstEncoding> = Vec::new();
    first.push(InstEncoding::BitsLiteral(0b100010));
    first.push(InstEncoding::BitsD);
    first.push(InstEncoding::BitsW);
    first.push(InstEncoding::BitsMod);
    first.push(InstEncoding::BitsReg);
    first.push(InstEncoding::BitsRm);
    assert(first@ =~= mov_register_memory());
    let mut second: Vec<InstEncoding> = Vec::new();
    second.push(InstEncoding::BitsLiteral(0b1100011));
    second.push(InstEncoding::BitsW);
    second.push(InstEncoding::BitsMod);
    second.push(InstEncoding::BitsRegImp(0b000));
    second.push(InstEncoding::BitsRm);
    second.push(InstEncoding::BitsData);
    second.push(InstEncoding::BitsDataIfW);
    second.push(InstEncoding::BitsImpD(0));
    assert(second@ =~= mov_immediate());
    let mut table: Vec<Inst> = Vec::new();
    table.push(Inst { mnemonic: Mnemonic::MOV, encoding: first });
    table.push(Inst { mnemonic: Mnemonic::MOV, encoding: second });
    table
}

} // verus!
