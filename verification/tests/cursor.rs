use fake_cpu::instruction_decode::cursor::{next_byte, read_displacement, read_immediate};
use fake_cpu::instruction_decode::{DecodeError, Mode, RawData};
use std::collections::VecDeque;

#[test]
fn next_byte_takes_from_the_front() {
    let mut queue = VecDeque::from(vec![7u8, 8, 9]);
    assert_eq!(next_byte(&mut queue, 4), Ok(7));
    assert_eq!(next_byte(&mut queue, 4), Ok(8));
    assert_eq!(queue, VecDeque::from(vec![9u8]));
    assert_eq!(next_byte(&mut queue, 4), Ok(9));
    assert_eq!(next_byte(&mut queue, 4), Err(DecodeError::TruncatedInstruction { offset: 4 }));
    assert!(queue.is_empty());
}

#[test]
fn immediate_is_one_byte_or_two_low_byte_first() {
    let mut queue = VecDeque::from(vec![0xE8u8, 0x03, 0x22, 0xFF]);
    assert_eq!(read_immediate(&mut queue, true, 0), Ok(RawData::U16(1000)));
    assert_eq!(read_immediate(&mut queue, false, 0), Ok(RawData::U8(34)));
    assert_eq!(queue, VecDeque::from(vec![0xFFu8]));
    assert_eq!(
        read_immediate(&mut queue, true, 9),
        Err(DecodeError::TruncatedInstruction { offset: 9 })
    );
    assert!(queue.is_empty());
    assert_eq!(
        read_immediate(&mut queue, false, 9),
        Err(DecodeError::TruncatedInstruction { offset: 9 })
    );
}

#[test]
fn displacement_follows_the_mode() {
    let mut queue = VecDeque::from(vec![0xDBu8, 0xD4, 0xFE, 0x7F, 0x01]);
    assert_eq!(read_displacement(&mut queue, Mode::Memory0, 0), Ok(None));
    assert_eq!(read_displacement(&mut queue, Mode::Register, 0), Ok(None));
    assert_eq!(queue.len(), 5);
    assert_eq!(read_displacement(&mut queue, Mode::Memory8, 0), Ok(Some(-37)));
    assert_eq!(read_displacement(&mut queue, Mode::Memory16, 0), Ok(Some(-300)));
    assert_eq!(read_displacement(&mut queue, Mode::Memory8, 0), Ok(Some(127)));
    assert_eq!(queue, VecDeque::from(vec![0x01u8]));
    assert_eq!(
        read_displacement(&mut queue, Mode::Memory16, 3),
        Err(DecodeError::TruncatedInstruction { offset: 3 })
    );
    assert!(queue.is_empty());
    assert_eq!(
        read_displacement(&mut queue, Mode::Memory8, 3),
        Err(DecodeError::TruncatedInstruction { offset: 3 })
    );
    assert_eq!(read_displacement(&mut queue, Mode::Memory0, 3), Ok(None));
}
