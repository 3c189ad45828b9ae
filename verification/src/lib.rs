//! Decoder for the MSP430 instruction set: turns a stream of 16-bit machine
//! words into assembly text, one line per instruction.

pub mod disassembler;
pub mod utils;
