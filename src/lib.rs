//! Decoding of register-to-register 8086 `mov` instructions into assembly text.
//!
//! Each instruction is two bytes. The first carries the opcode, the direction
//! bit and the width bit; the second carries the mode, reg and r/m fields.
//! The reg and r/m fields name registers from the table of the chosen width,
//! and the direction bit decides which of them is the destination.
pub mod fields;
pub mod register;
pub mod instruction;
pub mod listing;
