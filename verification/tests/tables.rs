use fake_cpu::instruction_decode::fields::{
    direction_flag, reg_field, rm_field, short_register_field, short_width_flag, sign_extend,
    signed_from_byte, signed_word_from_le, width_flag, word_from_le,
};
use fake_cpu::instruction_decode::{
    Decoder, FieldEncoding, InstructionKind, Mode, Opcode, Register,
};
use fake_cpu::sim86_instruction_table::{instruction_set, InstEncoding, Mnemonic};

#[test]
fn mode_is_the_top_two_bits() {
    assert_eq!(Mode::from_byte(217), Mode::Register);
    assert_eq!(Mode::from_byte(129), Mode::Memory16);
    assert_eq!(Mode::from_byte(65), Mode::Memory8);
    assert_eq!(Mode::from_byte(12), Mode::Memory0);
    for byte in 0u8..=255 {
        let expected = match byte >> 6 {
            0 => Mode::Memory0,
            1 => Mode::Memory8,
            2 => Mode::Memory16,
            _ => Mode::Register,
        };
        assert_eq!(Mode::from_byte(byte), expected);
        assert_eq!(Mode::from_byte(byte), Mode::from_byte(byte & 0xC0));
    }
}

#[test]
fn fields_of_the_second_byte() {
    // 11 011 001
    assert_eq!(reg_field(0xD9), 3);
    assert_eq!(rm_field(0xD9), 1);
    // 10 000 010
    assert_eq!(reg_field(0x82), 0);
    assert_eq!(rm_field(0x82), 2);
    // 00 101 110
    assert_eq!(reg_field(0x2E), 5);
    assert_eq!(rm_field(0x2E), 6);
    assert_eq!(reg_field(0xFF), 7);
    assert_eq!(rm_field(0xFF), 7);
}

#[test]
fn flags_of_the_opcode_byte() {
    // 100010 d w
    assert_eq!((direction_flag(0x88), width_flag(0x88)), (0, 0));
    assert_eq!((direction_flag(0x89), width_flag(0x89)), (0, 1));
    assert_eq!((direction_flag(0x8A), width_flag(0x8A)), (1, 0));
    assert_eq!((direction_flag(0x8B), width_flag(0x8B)), (1, 1));
    // 1011 w reg
    assert_eq!((short_width_flag(0xBE), short_register_field(0xBE)), (1, 6));
    assert_eq!((short_width_flag(0xB1), short_register_field(0xB1)), (0, 1));
    assert_eq!((short_width_flag(0xB7), short_register_field(0xB7)), (0, 7));
    assert_eq!((short_width_flag(0xB8), short_register_field(0xB8)), (1, 0));
}

#[test]
fn bytes_to_numbers() {
    assert_eq!(word_from_le(0xE8, 0x03), 1000);
    assert_eq!(word_from_le(0xFF, 0xFF), 65535);
    assert_eq!(word_from_le(0x00, 0x80), 32768);
    assert_eq!(word_from_le(0x01, 0x00), 1);
    assert_eq!(signed_from_byte(0xE2), -30);
    assert_eq!(signed_from_byte(0x7F), 127);
    assert_eq!(signed_from_byte(0x80), -128);
    assert_eq!(signed_from_byte(0), 0);
    assert_eq!(sign_extend(0xDB), -37);
    assert_eq!(sign_extend(0xFF), -1);
    assert_eq!(sign_extend(0x04), 4);
    assert_eq!(signed_word_from_le(0xE8, 0x03), 1000);
    assert_eq!(signed_word_from_le(0xD4, 0xFE), -300);
    assert_eq!(signed_word_from_le(0x00, 0x80), -32768);
    assert_eq!(signed_word_from_le(0xFF, 0x7F), 32767);
    assert_eq!(signed_word_from_le(0xFF, 0xFF), -1);
    for byte in 0u8..=255 {
        assert_eq!(signed_from_byte(byte), byte as i8);
        assert_eq!(sign_extend(byte), byte as i8 as i16);
        for high in [0u8, 1, 0x7F, 0x80, 0xFF] {
            assert_eq!(word_from_le(byte, high), u16::from_le_bytes([byte, high]));
            assert_eq!(signed_word_from_le(byte, high), i16::from_le_bytes([byte, high]));
        }
    }
}

#[test]
fn opcode_patterns() {
    let accumulator = Some(InstructionKind::ImmediateToAccumulator);
    let six = Some(InstructionKind::SixBitOpcode);
    let four = Some(InstructionKind::FourBitOpcode);
    assert_eq!(Decoder::match_opcode(&0x04), (Some(Opcode::ADD), accumulator));
    assert_eq!(Decoder::match_opcode(&0x05), (Some(Opcode::ADD), accumulator));
    assert_eq!(Decoder::match_opcode(&0x14), (Some(Opcode::ADC), accumulator));
    assert_eq!(Decoder::match_opcode(&0x15), (Some(Opcode::ADC), accumulator));
    assert_eq!(Decoder::match_opcode(&0x2C), (Some(Opcode::SUB), accumulator));
    assert_eq!(Decoder::match_opcode(&0x2D), (Some(Opcode::SUB), accumulator));
    for low in 0u8..4 {
        assert_eq!(Decoder::match_opcode(&low), (Some(Opcode::ADD), six));
        assert_eq!(Decoder::match_opcode(&(0x80 | low)), (Some(Opcode::WILDCARD), six));
        assert_eq!(Decoder::match_opcode(&(0x88 | low)), (Some(Opcode::MOV), six));
    }
    for low in 0u8..16 {
        assert_eq!(Decoder::match_opcode(&(0xB0 | low)), (Some(Opcode::MOV), four));
    }
    for byte in [0x06u8, 0x10, 0x13, 0x16, 0x28, 0x2B, 0x2E, 0x7F, 0x84, 0x8C, 0xA0, 0xC0, 0xFF] {
        assert_eq!(Decoder::match_opcode(&byte), (None, None));
    }
    let matched = (0u8..=255).filter(|b| Decoder::match_opcode(b).1.is_some()).count();
    assert_eq!(matched, 6 + 12 + 16);
}

#[test]
fn group_selectors() {
    assert_eq!(Decoder::match_wildcard_opcode(&0), Some(Opcode::ADD));
    assert_eq!(Decoder::match_wildcard_opcode(&2), Some(Opcode::ADC));
    assert_eq!(Decoder::match_wildcard_opcode(&5), Some(Opcode::SUB));
    for reg in [1u8, 3, 4, 6, 7, 8, 255] {
        assert_eq!(Decoder::match_wildcard_opcode(&reg), None);
    }
}

#[test]
fn register_table() {
    let bytes = [
        Register::AL,
        Register::CL,
        Register::DL,
        Register::BL,
        Register::AH,
        Register::CH,
        Register::DH,
        Register::BH,
    ];
    let words = [
        Register::AX,
        Register::CX,
        Register::DX,
        Register::BX,
        Register::SP,
        Register::BP,
        Register::SI,
        Register::DI,
    ];
    for index in 0u8..8 {
        assert_eq!(Decoder::get_reg_field(&index, &0), FieldEncoding::Reg(bytes[index as usize]));
        assert_eq!(Decoder::get_reg_field(&index, &1), FieldEncoding::Reg(words[index as usize]));
    }
}

#[test]
fn effective_address_table() {
    let rows = [
        (Register::BX, Some(Register::SI)),
        (Register::BX, Some(Register::DI)),
        (Register::BP, Some(Register::SI)),
        (Register::BP, Some(Register::DI)),
        (Register::SI, None),
        (Register::DI, None),
        (Register::BP, None),
        (Register::BX, None),
    ];
    for rm in 0u8..8 {
        let (base, index) = rows[rm as usize];
        for disp in [None, Some(0i16), Some(1000), Some(-1), Some(i16::MIN), Some(i16::MAX)] {
            assert_eq!(Decoder::get_rm_field(&rm, disp), FieldEncoding::Indexed(base, index, disp));
        }
    }
}

#[test]
fn encodings_of_mov() {
    let table = instruction_set();
    assert_eq!(table.len(), 2);
    assert_eq!(table[0].mnemonic, Mnemonic::MOV);
    assert_eq!(
        table[0].encoding,
        vec![
            InstEncoding::BitsLiteral(0b100010),
            InstEncoding::BitsD,
            InstEncoding::BitsW,
            InstEncoding::BitsMod,
            InstEncoding::BitsReg,
            InstEncoding::BitsRm,
        ]
    );
    assert_eq!(table[1].mnemonic, Mnemonic::MOV);
    assert_eq!(
        table[1].encoding,
        vec![
            InstEncoding::BitsLiteral(0b1100011),
            InstEncoding::BitsW,
            InstEncoding::BitsMod,
            InstEncoding::BitsRegImp(0b000),
            InstEncoding::BitsRm,
            InstEncoding::BitsData,
            InstEncoding::BitsDataIfW,
            InstEncoding::BitsImpD(0),
        ]
    );
}
