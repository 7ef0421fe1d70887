//! The mathematical model of the processor and its memory.
//!
//! A `Machine` is the registers together with the 64 KiB of memory. `step`
//! says what one instruction makes of a machine, and `run` what a cycle
//! budget makes of it. The executable processor is specified by these
//! functions.

use vstd::prelude::*;
use crate::instruction::{spec_decode, AddressingMode, Executed, Fault, Instruction};
use crate::memory::{zeroed, MEMORY_SIZE};
use crate::status::Flags;
use crate::word::{offset, offset_in_page, spec_high_byte, spec_low_byte, spec_word};

verus! {

/// Where the program counter points after a reset.
pub const RESET_VECTOR: u16 = 0xFFFC;

/// The stack pointer after a reset.
pub const STACK_TOP: u8 = 0xFF;

/// The first address of the page that holds the stack.
pub const STACK_PAGE: u16 = 0x0100;

/// The address in the stack page that the stack pointer `sp` names.
pub open spec fn stack_address(sp: u8) -> u16 {
    (STACK_PAGE as int + sp as int) as u16
}

/// The byte that `memory` holds at `address`.
pub open spec fn byte_at(memory: Seq<u8>, address: u16) -> u8 {
    memory[address as int]
}

/// The little-endian word that `memory` holds at `address`: low byte at
/// `address`, high byte at the next address.
pub open spec fn word_at(memory: Seq<u8>, address: u16) -> u16 {
    spec_word(byte_at(memory, address), byte_at(memory, offset(address, 1)))
}

/// `memory` after the little-endian word `value` was written at `address`.
pub open spec fn with_word(memory: Seq<u8>, address: u16, value: u16) -> Seq<u8> {
    memory.update(address as int, spec_low_byte(value)).update(
        offset(address, 1) as int,
        spec_high_byte(value),
    )
}

/// The registers of the processor: the model of `Cpu`.
pub struct Registers {
    /// Program counter: the address of the next instruction byte.
    pub pc: u16,
    /// Stack pointer: an offset into the stack page.
    pub sp: u8,
    /// Accumulator.
    pub a: u8,
    /// Index register X.
    pub x: u8,
    /// Index register Y.
    pub y: u8,
    /// Status flags.
    pub flags: Flags,
}

impl Registers {
    /// Every register and flag zero.
    pub open spec fn zeroed() -> Registers {
        Registers { pc: 0, sp: 0, a: 0, x: 0, y: 0, flags: Flags::cleared() }
    }

    /// The registers after a reset.
    pub open spec fn power_up() -> Registers {
        Registers { pc: RESET_VECTOR, sp: STACK_TOP, a: 0, x: 0, y: 0, flags: Flags::cleared() }
    }
}

/// The processor with its memory.
pub struct Machine {
    pub cpu: Registers,
    pub memory: Seq<u8>,
}

/// What one step made of a machine.
pub struct Step {
    /// The machine after the step.
    pub machine: Machine,
    /// The cycles that the step took.
    pub cycles: int,
    /// What was executed, or the opcode that could not be.
    pub result: Result<Executed, Fault>,
}

/// What a cycle budget made of a machine.
pub struct Run {
    /// The machine when the run stopped.
    pub machine: Machine,
    /// What is left of the budget: zero or less, unless the run ended in a fault.
    pub budget: int,
    /// The instructions that were executed, in order.
    pub trace: Seq<Executed>,
    /// The fault that ended the run, if one did.
    pub fault: Option<Fault>,
}

impl Machine {
    /// The memory has a cell for every address.
    pub open spec fn wf(self) -> bool {
        self.memory.len() == MEMORY_SIZE
    }

    /// The machine after a reset, whatever it was before.
    pub open spec fn reset(self) -> Machine {
        Machine { cpu: Registers::power_up(), memory: zeroed() }
    }

    /// The byte at the program counter.
    pub open spec fn opcode(self) -> u8 {
        byte_at(self.memory, self.cpu.pc)
    }

    /// The byte after the opcode.
    pub open spec fn operand_byte(self) -> u8 {
        byte_at(self.memory, offset(self.cpu.pc, 1))
    }

    /// The little-endian word after the opcode.
    pub open spec fn operand_word(self) -> u16 {
        word_at(self.memory, offset(self.cpu.pc, 1))
    }

    /// The address that the operand bytes of the instruction at the program
    /// counter give in `mode`, before an index that can cross a page is added.
    pub open spec fn base_address(self, mode: AddressingMode) -> u16 {
        match mode {
            AddressingMode::Immediate => offset(self.cpu.pc, 1),
            AddressingMode::ZeroPage => self.operand_byte() as u16,
            AddressingMode::ZeroPageX => offset_in_page(self.operand_byte(), self.cpu.x as int) as u16,
            AddressingMode::Absolute | AddressingMode::AbsoluteX | AddressingMode::AbsoluteY => {
                self.operand_word()
            },
            AddressingMode::IndirectX => word_at(
                self.memory,
                offset_in_page(self.operand_byte(), self.cpu.x as int) as u16,
            ),
            AddressingMode::IndirectY => word_at(self.memory, self.operand_byte() as u16),
        }
    }

    /// The address of the operand of the instruction at the program counter.
    pub open spec fn effective_address(self, mode: AddressingMode) -> u16 {
        match mode {
            AddressingMode::AbsoluteX => offset(self.base_address(mode), self.cpu.x as int),
            AddressingMode::AbsoluteY | AddressingMode::IndirectY => offset(
                self.base_address(mode),
                self.cpu.y as int,
            ),
            _ => self.base_address(mode),
        }
    }

    /// Whether the index carried the effective address into another page
    /// than the base address, in a mode that pays for it.
    pub open spec fn page_crossed(self, mode: AddressingMode) -> bool {
        mode.pays_page_crossing() && spec_high_byte(self.effective_address(mode)) != spec_high_byte(
            self.base_address(mode),
        )
    }

    /// The cycles that a load in `mode` takes, opcode fetch included.
    pub open spec fn load_cycles(self, mode: AddressingMode) -> int {
        mode.base_cycles() + if self.page_crossed(mode) {
            1int
        } else {
            0int
        }
    }

    /// The step of a load instruction in `mode`: the accumulator takes the
    /// operand, zero and negative follow it, the program counter moves past
    /// the instruction. Memory and the other registers and flags stay.
    pub open spec fn load(self, mode: AddressingMode) -> Step {
        let value = byte_at(self.memory, self.effective_address(mode));
        Step {
            machine: Machine {
                cpu: Registers {
                    pc: offset(self.cpu.pc, 1 + mode.operand_len()),
                    a: value,
                    flags: self.cpu.flags.with_zero_negative(value),
                    ..self.cpu
                },
                memory: self.memory,
            },
            cycles: self.load_cycles(mode),
            result: Ok(Executed::Load { mode, value }),
        }
    }

    /// The step of a subroutine call: the stack pointer goes down by one,
    /// the address of the last byte of the call is written as a word at the
    /// stack address it then names, and the program counter takes the operand.
    pub open spec fn call(self) -> Step {
        let target = self.operand_word();
        let return_address = offset(self.cpu.pc, 2);
        let sp = offset_in_page(self.cpu.sp, -1);
        Step {
            machine: Machine {
                cpu: Registers { pc: target, sp, ..self.cpu },
                memory: with_word(self.memory, stack_address(sp), return_address),
            },
            cycles: 6,
            result: Ok(Executed::Call { target, return_address }),
        }
    }

    /// The step of an opcode that stands for no instruction: the opcode
    /// fetch took place, and nothing else.
    pub open spec fn fault(self) -> Step {
        Step {
            machine: Machine {
                cpu: Registers { pc: offset(self.cpu.pc, 1), ..self.cpu },
                memory: self.memory,
            },
            cycles: 1,
            result: Err(Fault { opcode: self.opcode(), pc: self.cpu.pc }),
        }
    }

    /// One fetch, decode and execute.
    pub open spec fn step(self) -> Step {
        match spec_decode(self.opcode()) {
            Some(Instruction::Lda(mode)) => self.load(mode),
            Some(Instruction::Jsr) => self.call(),
            None => self.fault(),
        }
    }

    /// Every step takes at least one cycle and at most six, and a step that
    /// executes an instruction takes at least two.
    pub proof fn lemma_step_takes_cycles(self)
        ensures
            1 <= self.step().cycles <= 6,
            self.step().result is Ok ==> 2 <= self.step().cycles,
            self.step().result is Err <==> spec_decode(self.opcode()) is None,
    {
    }

    /// Steps while the budget is above zero. An instruction that has begun
    /// is completed even where it takes the budget below zero; a fault ends
    /// the run at once.
    pub open spec fn run(self, budget: int) -> Run
        decreases
            (if budget > 0 {
                budget
            } else {
                0
            }),
    {
        if budget <= 0 {
            Run { machine: self, budget, trace: Seq::empty(), fault: None }
        } else {
            let step = self.step();
            match step.result {
                Err(fault) => Run {
                    machine: step.machine,
                    budget: budget - step.cycles,
                    trace: Seq::empty(),
                    fault: Some(fault),
                },
                Ok(executed) => {
                    let rest = step.machine.run(budget - step.cycles);
                    Run { trace: seq![executed] + rest.trace, ..rest }
                },
            }
        }
    }
}

} // verus!
