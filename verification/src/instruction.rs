//! The instruction set: opcodes, addressing modes and their fixed costs.

use vstd::prelude::*;

verus! {

/// Load accumulator, immediate: 2 bytes, 2 cycles.
pub const INS_LDA_IM: u8 = 0xA9;

/// Load accumulator, zero page: 2 bytes, 3 cycles.
pub const INS_LDA_ZP: u8 = 0xA5;

/// Load accumulator, zero page indexed by X: 2 bytes, 4 cycles.
pub const INS_LDA_ZPX: u8 = 0xB5;

/// Load accumulator, absolute: 3 bytes, 4 cycles.
pub const INS_LDA_ABS: u8 = 0xAD;

/// Load accumulator, absolute indexed by X: 3 bytes, 4 cycles, 5 across pages.
pub const INS_LDA_ABX: u8 = 0xBD;

/// Load accumulator, absolute indexed by Y: 3 bytes, 4 cycles, 5 across pages.
pub const INS_LDA_ABY: u8 = 0xB9;

/// Load accumulator, indirect pre-indexed by X: 2 bytes, 6 cycles.
pub const INS_LDA_IDX: u8 = 0xA1;

/// Load accumulator, indirect post-indexed by Y: 2 bytes, 5 cycles, 6 across pages.
pub const INS_LDA_IDY: u8 = 0xB1;

/// Jump to subroutine, absolute: 3 bytes, 6 cycles.
pub const INS_JSR: u8 = 0x20;

/// The largest number of cycles that one instruction takes.
pub const MAX_INSTRUCTION_CYCLES: i64 = 6;

/// The rule by which an instruction finds its operand.
#[derive(Clone, Copy, Debug, PartialEq, Eq)]
pub enum AddressingMode {
    /// The operand is the byte after the opcode.
    Immediate,
    /// The byte after the opcode is an address in page zero.
    ZeroPage,
    /// As `ZeroPage`, plus X, wrapping within page zero.
    ZeroPageX,
    /// The two bytes after the opcode are the address.
    Absolute,
    /// As `Absolute`, plus X.
    AbsoluteX,
    /// As `Absolute`, plus Y.
    AbsoluteY,
    /// The zero-page byte plus X, wrapping within page zero, points at the address.
    IndirectX,
    /// The zero-page byte points at an address, to which Y is added.
    IndirectY,
}

impl AddressingMode {
    /// The number of bytes that follow the opcode.
    pub open spec fn operand_len(self) -> int {
        match self {
            AddressingMode::Absolute | AddressingMode::AbsoluteX | AddressingMode::AbsoluteY => 2,
            _ => 1,
        }
    }

    /// The cycles of a load in this mode, opcode fetch included, when the
    /// index does not carry the address into another page.
    pub open spec fn base_cycles(self) -> int {
        match self {
            AddressingMode::Immediate => 2,
            AddressingMode::ZeroPage => 3,
            AddressingMode::ZeroPageX => 4,
            AddressingMode::Absolute => 4,
            AddressingMode::AbsoluteX => 4,
            AddressingMode::AbsoluteY => 4,
            AddressingMode::IndirectX => 6,
            AddressingMode::IndirectY => 5,
        }
    }

    /// Whether the mode adds an index in full 16-bit arithmetic, and so costs
    /// one cycle more when the sum lies in another page than the base.
    pub open spec fn pays_page_crossing(self) -> bool {
        match self {
            AddressingMode::AbsoluteX | AddressingMode::AbsoluteY | AddressingMode::IndirectY => true,
            _ => false,
        }
    }
}

/// A decoded instruction.
#[derive(Clone, Copy, Debug, PartialEq, Eq)]
pub enum Instruction {
    /// Load the accumulator from the operand and set zero and negative by it.
    Lda(AddressingMode),
    /// Push the return address and jump to the absolute operand.
    Jsr,
}

/// The instruction that an opcode stands for, or `None` where the opcode
/// is not implemented.
pub open spec fn spec_decode(opcode: u8) -> Option<Instruction> {
    if opcode == INS_LDA_IM {
        Some(Instruction::Lda(AddressingMode::Immediate))
    } else if opcode == INS_LDA_ZP {
        Some(Instruction::Lda(AddressingMode::ZeroPage))
    } else if opcode == INS_LDA_ZPX {
        Some(Instruction::Lda(AddressingMode::ZeroPageX))
    } else if opcode == INS_LDA_ABS {
        Some(Instruction::Lda(AddressingMode::Absolute))
    } else if opcode == INS_LDA_ABX {
        Some(Instruction::Lda(AddressingMode::AbsoluteX))
    } else if opcode == INS_LDA_ABY {
        Some(Instruction::Lda(AddressingMode::AbsoluteY))
    } else if opcode == INS_LDA_IDX {
        Some(Instruction::Lda(AddressingMode::IndirectX))
    } else if opcode == INS_LDA_IDY {
        Some(Instruction::Lda(AddressingMode::IndirectY))
    } else if opcode == INS_JSR {
        Some(Instruction::Jsr)
    } else {
        None
    }
}

/// Decodes one opcode. Every byte has exactly one answer: its instruction,
/// or `None` for a byte that stands for none.
#[verifier::when_used_as_spec(spec_decode)]
pub fn decode(opcode: u8) -> (instruction: Option<Instruction>)
    ensures
        instruction == spec_decode(opcode),
{
    if opcode == INS_LDA_IM {
        Some(Instruction::Lda(AddressingMode::Immediate))
    } else if opcode == INS_LDA_ZP {
        Some(Instruction::Lda(AddressingMode::ZeroPage))
    } else if opcode == INS_LDA_ZPX {
        Some(Instruction::Lda(AddressingMode::ZeroPageX))
    } else if opcode == INS_LDA_ABS {
        Some(Instruction::Lda(AddressingMode::Absolute))
    } else if opcode == INS_LDA_ABX {
        Some(Instruction::Lda(AddressingMode::AbsoluteX))
    } else if opcode == INS_LDA_ABY {
        Some(Instruction::Lda(AddressingMode::AbsoluteY))
    } else if opcode == INS_LDA_IDX {
        Some(Instruction::Lda(AddressingMode::IndirectX))
    } else if opcode == INS_LDA_IDY {
        Some(Instruction::Lda(AddressingMode::IndirectY))
    } else if opcode == INS_JSR {
        Some(Instruction::Jsr)
    } else {
        None
    }
}

/// What one executed instruction did, for a trace.
#[derive(Clone, Copy, Debug, PartialEq, Eq)]
pub enum Executed {
    /// A load in `mode` put `value` into the accumulator.
    Load { mode: AddressingMode, value: u8 },
    /// A subroutine call jumped to `target` and pushed `return_address`.
    Call { target: u16, return_address: u16 },
}

/// An opcode that stands for no instruction, with the address it was
/// fetched from.
#[derive(Clone, Copy, Debug, PartialEq, Eq)]
pub struct Fault {
    pub opcode: u8,
    pub pc: u16,
}

} // verus!
