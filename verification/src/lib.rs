//! Decoder for a subset of the 8086 instruction encoding: `mov`, `add`,
//! `adc` and `sub` between registers, memory and immediates.
//!
//! `instruction_decode` turns a queue of bytes into instructions and their
//! assembly text. `sim86_memory` is the one-megabyte address space, and
//! `sim86_instruction_table` lists encodings as data.

pub mod instruction_decode;
pub mod sim86_instruction_table;
pub mod sim86_memory;
