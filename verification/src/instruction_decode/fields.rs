//! Bit fields of the opcode byte and of the byte that follows it, and the
//! values that displacement and immediate bytes stand for.
//!
//! The specifications are written with division and remainder; the
//! executable functions shift and mask, and are proved to agree.

use vstd::prelude::*;
use super::model::Mode;

verus! {

/// The W bit of a six- or seven-bit opcode: the lowest bit.
pub open spec fn width_bit(first: u8) -> u8 {
    first % 2
}

/// The bit above W: D (direction) in a six-bit opcode, S (sign extension)
/// in the group opcode.
pub open spec fn direction_bit(first: u8) -> u8 {
    (first / 2) % 2
}

/// The W bit of the four-bit opcode `1011wreg`.
pub open spec fn short_width_bit(first: u8) -> u8 {
    (first / 8) % 2
}

/// The register index of the four-bit opcode `1011wreg`.
pub open spec fn short_register_bits(first: u8) -> u8 {
    first % 8
}

/// The mode field: the top two bits of the second byte.
pub open spec fn mode_bits(second: u8) -> u8 {
    second / 64
}

/// The reg field: the three bits below the mode field.
pub open spec fn reg_bits(second: u8) -> u8 {
    (second / 8) % 8
}

/// The r/m field: the lowest three bits of the second byte.
pub open spec fn rm_bits(second: u8) -> u8 {
    second % 8
}

/// The addressing mode that a second byte selects.
pub open spec fn mode_of(second: u8) -> Mode {
    if mode_bits(second) == 0 {
        Mode::Memory0
    } else if mode_bits(second) == 1 {
        Mode::Memory8
    } else if mode_bits(second) == 2 {
        Mode::Memory16
    } else {
        Mode::Register
    }
}

/// The unsigned 16-bit value of two bytes in little-endian order.
pub open spec fn word_le(low: u8, high: u8) -> u16 {
    (low + 256 * high) as u16
}

/// A byte read as a two's-complement 8-bit number.
pub open spec fn signed_byte(byte: u8) -> i8 {
    if byte < 128 {
        byte as i8
    } else {
        (byte - 256) as i8
    }
}

/// A byte sign-extended to 16 bits.
pub open spec fn sign_extended(byte: u8) -> i16 {
    signed_byte(byte) as i16
}

/// Two little-endian bytes read as a two's-complement 16-bit number.
pub open spec fn signed_word_le(low: u8, high: u8) -> i16 {
    if high < 128 {
        (low + 256 * high) as i16
    } else {
        (low + 256 * high - 65536) as i16
    }
}

pub fn width_flag(first: u8) -> (w: u8)
    ensures
        w == width_bit(first),
        w <= 1,
{
    assert(first & 1 == first % 2) by (bit_vector);
    first & 1
}

pub fn direction_flag(first: u8) -> (d: u8)
    ensures
        d == direction_bit(first),
        d <= 1,
{
    assert((first >> 1) & 1 == (first / 2) % 2) by (bit_vector);
    (first >> 1) & 1
}

pub fn short_width_flag(first: u8) -> (w: u8)
    ensures
        w == short_width_bit(first),
        w <= 1,
{
    assert((first >> 3) & 1 == (first / 8) % 2) by (bit_vector);
    (first >> 3) & 1
}

pub fn short_register_field(first: u8) -> (reg: u8)
    ensures
        reg == short_register_bits(first),
        reg <= 7,
{
    assert(first & 7 == first % 8) by (bit_vector);
    first & 7
}

pub fn reg_field(second: u8) -> (reg: u8)
    ensures
        reg == reg_bits(second),
        reg <= 7,
{
    assert((second >> 3) & 7 == (second / 8) % 8) by (bit_vector);
    (second >> 3) & 7
}

pub fn rm_field(second: u8) -> (rm: u8)
    ensures
        rm == rm_bits(second),
        rm <= 7,
{
    assert(second & 7 == second % 8) by (bit_vector);
    second & 7
}

impl Mode {
    /// The mode field as a number, 0 to 3.
    pub open spec fn number(self) -> u8 {
        match self {
            Mode::Memory0 => 0,
            Mode::Memory8 => 1,
            Mode::Memory16 => 2,
            Mode::Register => 3,
        }
    }

    /// Reads the addressing mode off the second byte of an instruction. It
    /// depends on the top two bits alone.
    pub fn from_byte(second: u8) -> (mode: Mode)
        ensures
            mode == mode_of(second),
            mode.number() == second / 64,
    {
        assert(second >> 6 == second / 64) by (bit_vector);
        let bits: u8 = second >> 6;
        if bits == 0 {
            Mode::Memory0
        } else if bits == 1 {
            Mode::Memory8
        } else if bits == 2 {
            Mode::Memory16
        } else {
            Mode::Register
        }
    }
}

/// Combines two bytes, low byte first, into an unsigned 16-bit value.
pub fn word_from_le(low: u8, high: u8) -> (word: u16)
    ensures
        word == word_le(low, high),
        word == low + 256 * high,
{
    let l: u16 = low as u16;
    let h: u16 = high as u16;
    assert(h << 8 == h * 256) by (bit_vector)
        requires
            h < 256,
    ;
    assert((h * 256) as u16 | l == h * 256 + l) by (bit_vector)
        requires
            h < 256,
            l < 256,
    ;
    (h << 8) | l
}

/// Reads a byte as a signed 8-bit number.
pub fn signed_from_byte(byte: u8) -> (value: i8)
    ensures
        value == signed_byte(byte),
        byte < 128 ==> value == byte,
        byte >= 128 ==> value == byte - 256,
{
    if byte < 128 {
        byte as i8
    } else {
        let wide: i16 = byte as i16 - 256;
        wide as i8
    }
}

/// Sign-extends a displacement byte to 16 bits.
pub fn sign_extend(byte: u8) -> (value: i16)
    ensures
        value == sign_extended(byte),
        -128 <= value <= 127,
{
    signed_from_byte(byte) as i16
}

/// Combines two bytes, low byte first, into a signed 16-bit value.
pub fn signed_word_from_le(low: u8, high: u8) -> (value: i16)
    ensures
        value == signed_word_le(low, high),
        high < 128 ==> value == low + 256 * high,
        high >= 128 ==> value == low + 256 * high - 65536,
{
    let wide: i32 = low as i32 + 256 * (high as i32);
    if high < 128 {
        wide as i16
    } else {
        (wide - 65536) as i16
    }
}

} // verus!
