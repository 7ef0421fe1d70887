//! Execution core of a 6502-class 8-bit microprocessor, with its memory.
//!
//! The arithmetic of bytes and addresses, the instruction set and the
//! behaviour of the processor are defined as mathematical functions, and the
//! executable processor is proved to follow them instruction by instruction.

pub mod cpu;
pub mod instruction;
pub mod machine;
pub mod memory;
pub mod status;
pub mod theorems;
pub mod word;
