//! Reading bytes off the front of the input queue.
//!
//! Each function takes what it needs from the front, in order. Where the
//! queue ends first, all of it is taken and the read fails.

use std::collections::VecDeque;
use vstd::prelude::*;
use super::fields::{sign_extend, signed_word_from_le, word_from_le};
use super::model::{DecodeError, Mode, RawData};
use super::semantics::{displacement_at, displacement_len, immediate_at, immediate_len};

verus! {

/// Takes the next byte.
pub fn next_byte(queue: &mut VecDeque<u8>, offset: usize) -> (r: Result<u8, DecodeError>)
    ensures
        match r {
            Ok(byte) => {
                &&& old(queue)@.len() >= 1
                &&& byte == old(queue)@[0]
                &&& final(queue)@ == old(queue)@.skip(1)
            },
            Err(e) => {
                &&& old(queue)@.len() == 0
                &&& final(queue)@ == old(queue)@
                &&& e == DecodeError::TruncatedInstruction { offset }
            },
        },
{
    match queue.pop_front() {
        Some(byte) => {
            assert(queue@ =~= old(queue)@.skip(1));
            Ok(byte)
        },
        None => Err(DecodeError::TruncatedInstruction { offset }),
    }
}

/// Takes an unsigned immediate: two bytes, low byte first, where `wide`,
/// else one byte.
pub fn read_immediate(queue: &mut VecDeque<u8>, wide: bool, offset: usize) -> (r: Result<
    RawData,
    DecodeError,
>)
    ensures
        match r {
            Ok(data) => {
                &&& old(queue)@.len() >= immediate_len(wide)
                &&& data == immediate_at(old(queue)@, 0, wide)
                &&& final(queue)@ == old(queue)@.skip(immediate_len(wide) as int)
            },
            Err(e) => {
                &&& old(queue)@.len() < immediate_len(wide)
                &&& final(queue)@.len() == 0
                &&& e == DecodeError::TruncatedInstruction { offset }
            },
        },
{
    let low = match next_byte(queue, offset) {
        Ok(byte) => byte,
        Err(e) => {
            return Err(e);
        },
    };
    if wide {
        let high = match next_byte(queue, offset) {
            Ok(byte) => byte,
            Err(e) => {
                return Err(e);
            },
        };
        assert(queue@ =~= old(queue)@.skip(2));
        Ok(RawData::U16(word_from_le(low, high)))
    } else {
        Ok(RawData::U8(low))
    }
}

/// Takes the displacement that the mode calls for: none, one byte that is
/// sign-extended, or two bytes, low byte first.
pub fn read_displacement(queue: &mut VecDeque<u8>, mode: Mode, offset: usize) -> (r: Result<
    Option<i16>,
    DecodeError,
>)
    ensures
        match r {
            Ok(disp) => {
                &&& old(queue)@.len() >= displacement_len(mode)
                &&& disp == displacement_at(old(queue)@, 0, mode)
                &&& final(queue)@ == old(queue)@.skip(displacement_len(mode) as int)
            },
            Err(e) => {
                &&& old(queue)@.len() < displacement_len(mode)
                &&& final(queue)@.len() == 0
                &&& e == DecodeError::TruncatedInstruction { offset }
            },
        },
{
    match mode {
        Mode::Memory0 | Mode::Register => {
            assert(queue@ =~= old(queue)@.skip(0));
            Ok(None)
        },
        Mode::Memory8 => {
            match next_byte(queue, offset) {
                Ok(byte) => Ok(Some(sign_extend(byte))),
                Err(e) => Err(e),
            }
        },
        Mode::Memory16 => {
            let low = match next_byte(queue, offset) {
                Ok(byte) => byte,
                Err(e) => {
                    return Err(e);
                },
            };
            let high = match next_byte(queue, offset) {
                Ok(byte) => byte,
                Err(e) => {
                    return Err(e);
                },
            };
            assert(queue@ =~= old(queue)@.skip(2));
            Ok(Some(signed_word_from_le(low, high)))
        },
    }
}

} // verus!
