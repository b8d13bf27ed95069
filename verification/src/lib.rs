//! A verified Z80 instruction core: register file, flag-exact arithmetic
//! operators, opcode builders, a decoder and a fetch-decode-execute stepper.

pub mod registers;
pub mod state;
pub mod operators;
pub mod opcode;
pub mod opcode_bits;
pub mod opcode_arith;
pub mod decoder;
pub mod zexio;
