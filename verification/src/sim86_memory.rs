//! A flat one-megabyte memory addressed through 8086 segment:offset pairs.

use vstd::prelude::*;

verus! {

/// Number of bytes in the address space.
pub const SIZE: usize = 1024 * 1024;

/// Mask that folds a linear address back into the address space.
pub const MEMORY_ACCESS_MASK: usize = 0xfffff;

pub struct Memory {
    pub bytes: [u8; SIZE],
}

impl Memory {
    /// A memory with every byte zero.
    pub fn new() -> (memory: Memory)
        ensures
            forall|i: int| 0 <= i < SIZE ==> memory.bytes[i] == 0,
    {
        Memory { bytes: [0; SIZE] }
    }
}

/// A position in memory: a segment and an offset into it.
#[derive(Clone, Copy, Debug)]
pub struct SegmentAccess {
    pub segment_base: u16,
    pub segment_offset: u16,
}

/// The linear address of `offset` in the segment `base`: sixteen times the
/// segment plus the offset, folded into the one-megabyte address space.
pub open spec fn linear_address(base: u16, offset: int) -> int {
    (base * 16 + offset) % 0x100000
}

/// The linear address of the byte `additional_offset` past a position. The
/// offset that results has to fit in sixteen bits.
pub fn get_absolute_address_of(segment_access: SegmentAccess, additional_offset: u16) -> (address:
    u32)
    requires
        segment_access.segment_offset + additional_offset <= u16::MAX,
    ensures
        address == linear_address(
            segment_access.segment_base,
            segment_access.segment_offset + additional_offset,
        ),
        address < SIZE,
{
    let base: u32 = segment_access.segment_base as u32;
    let offset: u32 = (segment_access.segment_offset + additional_offset) as u32;
    assert(base << 4 == base * 16) by (bit_vector)
        requires
            base <= 0xffff,
    ;
    let sum: u32 = (base << 4) + offset;
    assert(sum & 0xfffff == sum % 0x100000) by (bit_vector);
    sum & MEMORY_ACCESS_MASK as u32
}

/// Reads the byte at a linear address, which has to lie in the address
/// space.
pub fn read_memory(memory: &Memory, absolute_address: u32) -> (byte: u8)
    requires
        absolute_address < SIZE,
    ensures
        byte == memory.bytes[absolute_address as int],
{
    memory.bytes[absolute_address as usize]
}

} // verus!
