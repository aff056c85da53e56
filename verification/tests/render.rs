use fake_cpu::instruction_decode::render::{push_binary, push_decimal, push_signed_decimal};
use fake_cpu::instruction_decode::{
    DecodedMemField, ExplicitSize, FieldEncoding, FieldOrRawData, Opcode, RawData, Register,
};

#[test]
fn register_names_are_lower_case() {
    let names = [
        (Register::AX, "ax"),
        (Register::AL, "al"),
        (Register::AH, "ah"),
        (Register::BX, "bx"),
        (Register::BL, "bl"),
        (Register::BH, "bh"),
        (Register::CX, "cx"),
        (Register::CL, "cl"),
        (Register::CH, "ch"),
        (Register::DX, "dx"),
        (Register::DL, "dl"),
        (Register::DH, "dh"),
        (Register::DI, "di"),
        (Register::SI, "si"),
        (Register::SP, "sp"),
        (Register::BP, "bp"),
    ];
    for (register, name) in names {
        assert_eq!(register.to_string(), name);
        assert_eq!(register.name(), name);
        assert_eq!(register.to_string(), format!("{:?}", register).to_lowercase());
    }
}

#[test]
fn mnemonics_are_lower_case() {
    assert_eq!(Opcode::ADD.to_string(), "add");
    assert_eq!(Opcode::ADC.to_string(), "adc");
    assert_eq!(Opcode::SUB.to_string(), "sub");
    assert_eq!(Opcode::MOV.to_string(), "mov");
    assert_eq!(Opcode::WILDCARD.to_string(), "wildcard");
    assert_eq!(Opcode::MOV.name(), "mov");
}

#[test]
fn size_markers() {
    assert_eq!(ExplicitSize::Byte.to_string(), "byte");
    assert_eq!(ExplicitSize::Word.to_string(), "word");
    assert_eq!(ExplicitSize::Word.name(), "word");
}

#[test]
fn immediates_are_decimal() {
    assert_eq!(RawData::U8(0).to_string(), "0");
    assert_eq!(RawData::U8(9).to_string(), "9");
    assert_eq!(RawData::U8(10).to_string(), "10");
    assert_eq!(RawData::U8(255).to_string(), "255");
    assert_eq!(RawData::U16(1000).to_string(), "1000");
    assert_eq!(RawData::U16(65535).to_string(), "65535");
    assert_eq!(RawData::I8(-30).to_string(), "-30");
    assert_eq!(RawData::I8(-128).to_string(), "-128");
    assert_eq!(RawData::I8(127).to_string(), "127");
    assert_eq!(RawData::I8(0).to_string(), "0");
}

#[test]
fn decimal_agrees_with_std() {
    for n in (0u32..70000).chain([99_999, 100_000, 123_456_789, u32::MAX]) {
        let mut text = String::from("x");
        push_decimal(&mut text, n);
        assert_eq!(text, format!("x{}", n));
    }
    for v in (-40000i32..40000).chain([i32::MIN + 1, i32::MAX]) {
        let mut text = String::new();
        push_signed_decimal(&mut text, v);
        assert_eq!(text, format!("{}", v));
    }
}

#[test]
fn binary_agrees_with_std() {
    for byte in 0u8..=255 {
        let mut text = String::from(">");
        push_binary(&mut text, byte);
        assert_eq!(text, format!(">{:08b}", byte));
    }
}

#[test]
fn effective_addresses() {
    let si = Some(Register::SI);
    assert_eq!(FieldEncoding::Reg(Register::BX).to_string(), "bx");
    assert_eq!(FieldEncoding::Indexed(Register::BX, None, None).to_string(), "[bx]");
    assert_eq!(FieldEncoding::Indexed(Register::BX, si, None).to_string(), "[bx+si]");
    assert_eq!(FieldEncoding::Indexed(Register::BP, None, Some(4)).to_string(), "[bp+4]");
    assert_eq!(FieldEncoding::Indexed(Register::BP, None, Some(-4)).to_string(), "[bp-4]");
    assert_eq!(FieldEncoding::Indexed(Register::BP, None, Some(0)).to_string(), "[bp]");
    assert_eq!(FieldEncoding::Indexed(Register::BP, si, Some(1000)).to_string(), "[bp+si+1000]");
    assert_eq!(FieldEncoding::Indexed(Register::BP, si, Some(-37)).to_string(), "[bp+si-37]");
    assert_eq!(FieldEncoding::Indexed(Register::BP, si, Some(0)).to_string(), "[bp+si-0]");
    assert_eq!(
        FieldEncoding::Indexed(Register::DI, None, Some(i16::MIN)).to_string(),
        "[di-32768]"
    );
    assert_eq!(
        FieldEncoding::Indexed(Register::BX, Some(Register::DI), Some(i16::MAX)).to_string(),
        "[bx+di+32767]"
    );
}

#[test]
fn operands_with_and_without_marker() {
    let address = FieldEncoding::Indexed(Register::BX, None, None);
    assert_eq!(FieldOrRawData::FieldEncoding(address, None).to_string(), "[bx]");
    assert_eq!(
        FieldOrRawData::FieldEncoding(address, Some(ExplicitSize::Byte)).to_string(),
        "byte [bx]"
    );
    assert_eq!(
        FieldOrRawData::FieldEncoding(address, Some(ExplicitSize::Word)).to_string(),
        "word [bx]"
    );
    assert_eq!(FieldOrRawData::RawData(RawData::U8(34), None).to_string(), "34");
    assert_eq!(
        FieldOrRawData::RawData(RawData::U8(34), Some(ExplicitSize::Byte)).to_string(),
        "byte 34"
    );
    assert_eq!(
        FieldOrRawData::RawData(RawData::U16(34), Some(ExplicitSize::Word)).to_string(),
        "word 34"
    );
}

#[test]
fn instruction_line() {
    let line = DecodedMemField {
        opcode: Opcode::ADD,
        field_one: FieldOrRawData::FieldEncoding(
            FieldEncoding::Indexed(Register::BX, None, None),
            Some(ExplicitSize::Byte),
        ),
        field_two: FieldOrRawData::RawData(RawData::U8(34), None),
    };
    assert_eq!(line.to_string(), "add byte [bx], 34");
    let line = DecodedMemField {
        opcode: Opcode::MOV,
        field_one: FieldOrRawData::FieldEncoding(FieldEncoding::Reg(Register::CX), None),
        field_two: FieldOrRawData::FieldEncoding(FieldEncoding::Reg(Register::BX), None),
    };
    assert_eq!(line.to_string(), "mov cx, bx");
}
