//! Assembly text of the data model.
//!
//! Every type has a `text` in specifications and a `to_string` that
//! computes it. An instruction reads `<mnemonic> <destination>, <source>`.

use vstd::prelude::*;
use super::model::{
    DecodedMemField, ExplicitSize, FieldEncoding, FieldOrRawData, Opcode, RawData, Register,
};

verus! {

/// The character of a decimal digit.
pub open spec fn digit_char(digit: nat) -> char {
    if digit == 0 {
        '0'
    } else if digit == 1 {
        '1'
    } else if digit == 2 {
        '2'
    } else if digit == 3 {
        '3'
    } else if digit == 4 {
        '4'
    } else if digit == 5 {
        '5'
    } else if digit == 6 {
        '6'
    } else if digit == 7 {
        '7'
    } else if digit == 8 {
        '8'
    } else {
        '9'
    }
}

/// A natural number in decimal, without leading zeros.
pub open spec fn decimal_text(n: nat) -> Seq<char>
    decreases n,
{
    if n < 10 {
        seq![digit_char(n)]
    } else {
        decimal_text(n / 10).push(digit_char(n % 10))
    }
}

/// An integer in decimal, with `-` before a negative one.
pub open spec fn signed_decimal_text(v: int) -> Seq<char> {
    if v < 0 {
        seq!['-'] + decimal_text((-v) as nat)
    } else {
        decimal_text(v as nat)
    }
}

/// Appends a number in decimal.
pub fn push_decimal(text: &mut String, n: u32)
    ensures
        final(text)@ == old(text)@ + decimal_text(n as nat),
    decreases n,
{
    if n >= 10 {
        push_decimal(text, n / 10);
    }
    let digit: u32 = n % 10;
    proof {
        reveal_strlit("0");
        reveal_strlit("1");
        reveal_strlit("2");
        reveal_strlit("3");
        reveal_strlit("4");
        reveal_strlit("5");
        reveal_strlit("6");
        reveal_strlit("7");
        reveal_strlit("8");
        reveal_strlit("9");
    }
    let ghost before = text@;
    let literal = if digit == 0 {
        "0"
    } else if digit == 1 {
        "1"
    } else if digit == 2 {
        "2"
    } else if digit == 3 {
        "3"
    } else if digit == 4 {
        "4"
    } else if digit == 5 {
        "5"
    } else if digit == 6 {
        "6"
    } else if digit == 7 {
        "7"
    } else if digit == 8 {
        "8"
    } else {
        "9"
    };
    assert(literal@ =~= seq![digit_char(digit as nat)]);
    text.append(literal);
    assert(text@ =~= before.push(digit_char(digit as nat)));
    assert(text@ =~= old(text)@ + decimal_text(n as nat));
}

/// Appends an integer in decimal, with `-` before a negative one.
pub fn push_signed_decimal(text: &mut String, v: i32)
    requires
        v > i32::MIN,
    ensures
        final(text)@ == old(text)@ + signed_decimal_text(v as int),
{
    if v < 0 {
        proof {
            reveal_strlit("-");
        }
        assert("-"@ =~= seq!['-']);
        text.append("-");
        push_decimal(text, (-v) as u32);
        assert(text@ =~= old(text)@ + signed_decimal_text(v as int));
    } else {
        push_decimal(text, v as u32);
    }
}

impl Register {
    /// The register's name in lower case.
    pub open spec fn text(self) -> Seq<char> {
        match self {
            Register::AX => "ax"@,
            Register::AL => "al"@,
            Register::AH => "ah"@,
            Register::BX => "bx"@,
            Register::BL => "bl"@,
            Register::BH => "bh"@,
            Register::CX => "cx"@,
            Register::CL => "cl"@,
            Register::CH => "ch"@,
            Register::DX => "dx"@,
            Register::DL => "dl"@,
            Register::DH => "dh"@,
            Register::DI => "di"@,
            Register::SI => "si"@,
            Register::SP => "sp"@,
            Register::BP => "bp"@,
        }
    }

    /// The register's name in lower case.
    pub fn name(&self) -> (name: &'static str)
        ensures
            name@ == self.text(),
    {
        match self {
            Register::AX => "ax",
            Register::AL => "al",
            Register::AH => "ah",
            Register::BX => "bx",
            Register::BL => "bl",
            Register::BH => "bh",
            Register::CX => "cx",
            Register::CL => "cl",
            Register::CH => "ch",
            Register::DX => "dx",
            Register::DL => "dl",
            Register::DH => "dh",
            Register::DI => "di",
            Register::SI => "si",
            Register::SP => "sp",
            Register::BP => "bp",
        }
    }

    pub fn to_string(&self) -> (text: String)
        ensures
            text@ == self.text(),
    {
        String::from_str(self.name())
    }
}

impl Opcode {
    /// The mnemonic in lower case.
    pub open spec fn text(self) -> Seq<char> {
        match self {
            Opcode::ADD => "add"@,
            Opcode::ADC => "adc"@,
            Opcode::SUB => "sub"@,
            Opcode::MOV => "mov"@,
            Opcode::WILDCARD => "wildcard"@,
        }
    }

    /// The mnemonic in lower case.
    pub fn name(&self) -> (name: &'static str)
        ensures
            name@ == self.text(),
    {
        match self {
            Opcode::ADD => "add",
            Opcode::ADC => "adc",
            Opcode::SUB => "sub",
            Opcode::MOV => "mov",
            Opcode::WILDCARD => "wildcard",
        }
    }

    pub fn to_string(&self) -> (text: String)
        ensures
            text@ == self.text(),
    {
        String::from_str(self.name())
    }
}

impl ExplicitSize {
    pub open spec fn text(self) -> Seq<char> {
        match self {
            ExplicitSize::Byte => "byte"@,
            ExplicitSize::Word => "word"@,
        }
    }

    pub fn name(&self) -> (name: &'static str)
        ensures
            name@ == self.text(),
    {
        match self {
            ExplicitSize::Byte => "byte",
            ExplicitSize::Word => "word",
        }
    }

    pub fn to_string(&self) -> (text: String)
        ensures
            text@ == self.text(),
    {
        String::from_str(self.name())
    }
}

impl RawData {
    /// The number that the immediate holds.
    pub open spec fn value(self) -> int {
        match self {
            RawData::U8(x) => x as int,
            RawData::U16(x) => x as int,
            RawData::I8(x) => x as int,
        }
    }

    /// The value in decimal.
    pub open spec fn text(self) -> Seq<char> {
        signed_decimal_text(self.value())
    }

    pub fn to_string(&self) -> (text: String)
        ensures
            text@ == self.text(),
    {
        let mut text = String::new();
        let value: i32 = match self {
            RawData::U8(x) => *x as i32,
            RawData::U16(x) => *x as i32,
            RawData::I8(x) => *x as i32,
        };
        push_signed_decimal(&mut text, value);
        assert(text@ =~= self.text());
        text
    }
}

/// A displacement behind its sign: `+` before a positive one, `-` before
/// the magnitude of any other.
pub open spec fn displacement_text(disp: i16) -> Seq<char> {
    if disp > 0 {
        "+"@ + decimal_text(disp as nat)
    } else {
        "-"@ + decimal_text((-disp) as nat)
    }
}

/// Appends a displacement behind its sign.
fn push_displacement(text: &mut String, disp: i16)
    ensures
        final(text)@ == old(text)@ + displacement_text(disp),
{
    if disp > 0 {
        text.append("+");
        push_decimal(text, disp as u32);
        assert(text@ =~= old(text)@ + displacement_text(disp));
    } else {
        text.append("-");
        push_decimal(text, (-(disp as i32)) as u32);
        assert(text@ =~= old(text)@ + displacement_text(disp));
    }
}

impl FieldEncoding {
    /// A register by its name. A memory operand in brackets: the base, then
    /// `+` and the index where there is one, then the displacement behind
    /// its sign. A displacement of zero is left out where there is no
    /// index.
    pub open spec fn text(self) -> Seq<char> {
        match self {
            FieldEncoding::Reg(reg) => reg.text(),
            FieldEncoding::Indexed(base, Some(index), Some(disp)) => "["@ + base.text() + "+"@
                + index.text() + displacement_text(disp) + "]"@,
            FieldEncoding::Indexed(base, Some(index), None) => "["@ + base.text() + "+"@
                + index.text() + "]"@,
            FieldEncoding::Indexed(base, None, Some(disp)) => if disp == 0 {
                "["@ + base.text() + "]"@
            } else {
                "["@ + base.text() + displacement_text(disp) + "]"@
            },
            FieldEncoding::Indexed(base, None, None) => "["@ + base.text() + "]"@,
        }
    }

    pub fn to_string(&self) -> (text: String)
        ensures
            text@ == self.text(),
    {
        match self {
            FieldEncoding::Reg(reg) => reg.to_string(),
            FieldEncoding::Indexed(base, index, disp) => {
                let mut text = String::from_str("[");
                text.append(base.name());
                match index {
                    Some(index) => {
                        text.append("+");
                        text.append(index.name());
                        match disp {
                            Some(disp) => push_displacement(&mut text, *disp),
                            None => {},
                        }
                    },
                    None => {
                        match disp {
                            Some(disp) => {
                                if *disp != 0 {
                                    push_displacement(&mut text, *disp);
                                }
                            },
                            None => {},
                        }
                    },
                }
                text.append("]");
                assert(text@ =~= self.text());
                text
            },
        }
    }
}

impl FieldOrRawData {
    /// The size marker of the operand, if it has one.
    pub open spec fn size(self) -> Option<ExplicitSize> {
        match self {
            FieldOrRawData::FieldEncoding(_, size) => size,
            FieldOrRawData::RawData(_, size) => size,
        }
    }

    /// The operand's text without its size marker.
    pub open spec fn bare_text(self) -> Seq<char> {
        match self {
            FieldOrRawData::FieldEncoding(field, _) => field.text(),
            FieldOrRawData::RawData(data, _) => data.text(),
        }
    }

    /// The operand's text, behind its size marker and a space where it has
    /// one.
    pub open spec fn text(self) -> Seq<char> {
        match self.size() {
            Some(size) => size.text() + " "@ + self.bare_text(),
            None => self.bare_text(),
        }
    }

    pub fn to_string(&self) -> (text: String)
        ensures
            text@ == self.text(),
    {
        let (bare, size) = match self {
            FieldOrRawData::FieldEncoding(field, size) => (field.to_string(), size),
            FieldOrRawData::RawData(data, size) => (data.to_string(), size),
        };
        match size {
            Some(size) => {
                let mut text = size.to_string();
                text.append(" ");
                text.append(bare.as_str());
                text
            },
            None => bare,
        }
    }
}

impl DecodedMemField {
    /// The instruction as a line of assembly: mnemonic, destination, comma,
    /// source.
    pub open spec fn text(self) -> Seq<char> {
        self.opcode.text() + " "@ + self.field_one.text() + ", "@ + self.field_two.text()
    }

    pub fn to_string(&self) -> (text: String)
        ensures
            text@ == self.text(),
    {
        let mut text = self.opcode.to_string();
        text.append(" ");
        text.append(self.field_one.to_string().as_str());
        text.append(", ");
        text.append(self.field_two.to_string().as_str());
        text
    }
}

/// The character of one bit of a byte; `place` is the bit's value.
pub open spec fn bit_char(byte: u8, place: u8) -> char {
    if (byte / place) % 2 == 1 {
        '1'
    } else {
        '0'
    }
}

/// A byte as eight binary digits, highest bit first.
pub open spec fn binary_text(byte: u8) -> Seq<char> {
    seq![
        bit_char(byte, 128),
        bit_char(byte, 64),
        bit_char(byte, 32),
        bit_char(byte, 16),
        bit_char(byte, 8),
        bit_char(byte, 4),
        bit_char(byte, 2),
        bit_char(byte, 1),
    ]
}

/// Bytes in binary, each followed by a space.
pub open spec fn dump_text(bytes: Seq<u8>) -> Seq<char>
    decreases bytes.len(),
{
    if bytes.len() == 0 {
        Seq::empty()
    } else {
        dump_text(bytes.drop_last()) + binary_text(bytes.last()) + seq![' ']
    }
}

/// Appends `1` where `set`, else `0`.
fn push_bit(text: &mut String, set: bool)
    ensures
        final(text)@ == old(text)@.push(
            if set {
                '1'
            } else {
                '0'
            },
        ),
{
    proof {
        reveal_strlit("0");
        reveal_strlit("1");
    }
    if set {
        assert("1"@ =~= seq!['1']);
        text.append("1");
        assert(text@ =~= old(text)@.push('1'));
    } else {
        assert("0"@ =~= seq!['0']);
        text.append("0");
        assert(text@ =~= old(text)@.push('0'));
    }
}

/// Appends a byte as eight binary digits, highest bit first.
pub fn push_binary(text: &mut String, byte: u8)
    ensures
        final(text)@ == old(text)@ + binary_text(byte),
{
    assert({
        &&& (byte & 128 != 0) == ((byte / 128) % 2 == 1)
        &&& (byte & 64 != 0) == ((byte / 64) % 2 == 1)
        &&& (byte & 32 != 0) == ((byte / 32) % 2 == 1)
        &&& (byte & 16 != 0) == ((byte / 16) % 2 == 1)
        &&& (byte & 8 != 0) == ((byte / 8) % 2 == 1)
        &&& (byte & 4 != 0) == ((byte / 4) % 2 == 1)
        &&& (byte & 2 != 0) == ((byte / 2) % 2 == 1)
        &&& (byte & 1 != 0) == ((byte / 1) % 2 == 1)
    }) by (bit_vector);
    push_bit(text, byte & 128 != 0);
    push_bit(text, byte & 64 != 0);
    push_bit(text, byte & 32 != 0);
    push_bit(text, byte & 16 != 0);
    push_bit(text, byte & 8 != 0);
    push_bit(text, byte & 4 != 0);
    push_bit(text, byte & 2 != 0);
    push_bit(text, byte & 1 != 0);
    assert(text@ =~= old(text)@ + binary_text(byte));
}

} // verus!
