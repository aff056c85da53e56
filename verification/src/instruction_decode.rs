//! Decoding of 8086 machine code into instructions.

pub mod assembly;
pub mod cursor;
pub mod decoder;
pub mod fields;
pub mod laws;
pub mod model;
pub mod render;
pub mod semantics;
pub mod tables;

pub use self::model::{
    DecodeError, DecodedMemField, ExplicitSize, FieldEncoding, FieldOrRawData, InstructionKind,
    Mode, Opcode, RawData, Register,
};
pub use self::decoder::Decoder;
