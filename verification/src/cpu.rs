//! The executable processor.
//!
//! `Cpu` holds the registers; the memory is handed to each operation. Every
//! operation is specified by the model in `machine`: `step` by
//! `Machine::step`, `execute` by `Machine::run`.

use vstd::prelude::*;
use crate::instruction::{
    decode, AddressingMode, Executed, Fault, Instruction, MAX_INSTRUCTION_CYCLES,
};
use crate::machine::{
    byte_at, with_word, word_at, Machine, Registers, RESET_VECTOR, STACK_PAGE, STACK_TOP,
};
use crate::memory::{zeroed, Memory};
use crate::status::Status;
use crate::word::{high_byte, low_byte, offset, word};

verus! {

/// The registers of one processor.
#[derive(Clone, Copy, Debug, PartialEq, Eq)]
pub struct Cpu {
    pc: u16,
    sp: u8,
    a: u8,
    x: u8,
    y: u8,
    status: Status,
}

impl View for Cpu {
    type V = Registers;

    closed spec fn view(&self) -> Registers {
        Registers {
            pc: self.pc,
            sp: self.sp,
            a: self.a,
            x: self.x,
            y: self.y,
            flags: self.status@,
        }
    }
}

/// `base` plus `index` in 16-bit arithmetic. Takes one cycle where the sum
/// lies in another page than `base`, and none where it does not.
fn indexed(base: u16, index: u8, cycles: &mut i64) -> (address: u16)
    requires
        *old(cycles) - 1 >= i64::MIN,
    ensures
        address == offset(base, index as int),
        *final(cycles) == *old(cycles) - if high_byte(address) != high_byte(base) {
            1int
        } else {
            0int
        },
{
    let address = base.wrapping_add(index as u16);
    if high_byte(address) != high_byte(base) {
        *cycles = *cycles - 1;
    }
    address
}

impl Cpu {
    /// A processor with every register and flag zero. It is not ready to
    /// run before `reset`.
    pub fn new() -> (cpu: Cpu)
        ensures
            cpu@ == Registers::zeroed(),
    {
        Cpu { pc: 0, sp: 0, a: 0, x: 0, y: 0, status: Status::new() }
    }

    /// Puts the processor into its power-up state and zeroes the memory,
    /// whatever either held before.
    pub fn reset(&mut self, memory: &mut Memory)
        ensures
            final(self)@ == Registers::power_up(),
            final(memory)@ == zeroed(),
            (Machine { cpu: final(self)@, memory: final(memory)@ }) == (Machine {
                cpu: old(self)@,
                memory: old(memory)@,
            }).reset(),
    {
        self.pc = RESET_VECTOR;
        self.sp = STACK_TOP;
        self.a = 0;
        self.x = 0;
        self.y = 0;
        self.status = Status::new();
        memory.initialize();
    }

    /// Reads the byte at the program counter and moves the program counter
    /// past it. Takes one cycle.
    pub fn fetch_byte(&mut self, cycles: &mut i64, memory: &Memory) -> (data: u8)
        requires
            *old(cycles) - 1 >= i64::MIN,
        ensures
            data == byte_at(memory@, old(self)@.pc),
            final(self)@ == (Registers { pc: offset(old(self)@.pc, 1), ..old(self)@ }),
            *final(cycles) == *old(cycles) - 1,
    {
        let data = memory.read(self.pc);
        self.pc = self.pc.wrapping_add(1);
        *cycles = *cycles - 1;
        data
    }

    /// Reads the byte at `address`. Takes one cycle and leaves the
    /// processor as it is: only a fetch moves the program counter.
    pub fn read_byte(&mut self, cycles: &mut i64, address: u16, memory: &Memory) -> (data: u8)
        requires
            *old(cycles) - 1 >= i64::MIN,
        ensures
            data == byte_at(memory@, address),
            *final(self) == *old(self),
            *final(cycles) == *old(cycles) - 1,
    {
        let data = memory.read(address);
        *cycles = *cycles - 1;
        data
    }

    /// Reads the little-endian word at the program counter and moves the
    /// program counter past it. Takes two cycles.
    pub fn fetch_word(&mut self, cycles: &mut i64, memory: &Memory) -> (data: u16)
        requires
            *old(cycles) - 2 >= i64::MIN,
        ensures
            data == word_at(memory@, old(self)@.pc),
            final(self)@ == (Registers { pc: offset(old(self)@.pc, 2), ..old(self)@ }),
            *final(cycles) == *old(cycles) - 2,
    {
        let lo = self.fetch_byte(cycles, memory);
        let hi = self.fetch_byte(cycles, memory);
        word(lo, hi)
    }

    /// Reads the little-endian word at `address`. Takes two cycles and
    /// leaves the processor as it is.
    pub fn read_word(&mut self, cycles: &mut i64, address: u16, memory: &Memory) -> (data: u16)
        requires
            *old(cycles) - 2 >= i64::MIN,
        ensures
            data == word_at(memory@, address),
            *final(self) == *old(self),
            *final(cycles) == *old(cycles) - 2,
    {
        let lo = self.read_byte(cycles, address, memory);
        let hi = self.read_byte(cycles, address.wrapping_add(1), memory);
        word(lo, hi)
    }

    /// Writes `data` as a little-endian word at `address`. Takes two cycles
    /// and leaves the processor as it is.
    pub fn write_word(&mut self, cycles: &mut i64, address: u16, data: u16, memory: &mut Memory)
        requires
            *old(cycles) - 2 >= i64::MIN,
        ensures
            final(memory)@ == with_word(old(memory)@, address, data),
            *final(self) == *old(self),
            *final(cycles) == *old(cycles) - 2,
    {
        memory.write(address, low_byte(data));
        memory.write(address.wrapping_add(1), high_byte(data));
        *cycles = *cycles - 2;
    }

    /// Reads the operand that the instruction finds in `mode`, after the
    /// opcode fetch: consumes the operand bytes and takes the cycles of the
    /// mode, less the one of the opcode fetch.
    fn operand(
        &mut self,
        mode: AddressingMode,
        cycles: &mut i64,
        memory: &Memory,
        Ghost(start): Ghost<Machine>,
    ) -> (value: u8)
        requires
            old(self)@ == (Registers { pc: offset(start.cpu.pc, 1), ..start.cpu }),
            memory@ == start.memory,
            *old(cycles) - 5 >= i64::MIN,
        ensures
            value == byte_at(start.memory, start.effective_address(mode)),
            final(self)@ == (Registers {
                pc: offset(start.cpu.pc, 1 + mode.operand_len()),
                ..start.cpu
            }),
            *final(cycles) == *old(cycles) - (start.load_cycles(mode) - 1),
    {
        match mode {
            AddressingMode::Immediate => self.fetch_byte(cycles, memory),
            AddressingMode::ZeroPage => {
                let zero_page = self.fetch_byte(cycles, memory);
                self.read_byte(cycles, zero_page as u16, memory)
            },
            AddressingMode::ZeroPageX => {
                let zero_page = self.fetch_byte(cycles, memory);
                // One cycle to add the index.
                *cycles = *cycles - 1;
                self.read_byte(cycles, zero_page.wrapping_add(self.x) as u16, memory)
            },
            AddressingMode::Absolute => {
                let address = self.fetch_word(cycles, memory);
                self.read_byte(cycles, address, memory)
            },
            AddressingMode::AbsoluteX => {
                let base = self.fetch_word(cycles, memory);
                let address = indexed(base, self.x, cycles);
                self.read_byte(cycles, address, memory)
            },
            AddressingMode::AbsoluteY => {
                let base = self.fetch_word(cycles, memory);
                let address = indexed(base, self.y, cycles);
                self.read_byte(cycles, address, memory)
            },
            AddressingMode::IndirectX => {
                let zero_page = self.fetch_byte(cycles, memory);
                // One cycle to add the index.
                *cycles = *cycles - 1;
                let pointer = zero_page.wrapping_add(self.x) as u16;
                let address = self.read_word(cycles, pointer, memory);
                self.read_byte(cycles, address, memory)
            },
            AddressingMode::IndirectY => {
                let zero_page = self.fetch_byte(cycles, memory);
                let base = self.read_word(cycles, zero_page as u16, memory);
                let address = indexed(base, self.y, cycles);
                self.read_byte(cycles, address, memory)
            },
        }
    }

    /// Executes a load of the accumulator in `mode`, after the opcode fetch.
    fn lda(
        &mut self,
        mode: AddressingMode,
        cycles: &mut i64,
        memory: &Memory,
        Ghost(start): Ghost<Machine>,
    ) -> (executed: Executed)
        requires
            old(self)@ == (Registers { pc: offset(start.cpu.pc, 1), ..start.cpu }),
            memory@ == start.memory,
            *old(cycles) - 5 >= i64::MIN,
        ensures
            final(self)@ == start.load(mode).machine.cpu,
            *final(cycles) == *old(cycles) - (start.load(mode).cycles - 1),
            Ok::<Executed, Fault>(executed) == start.load(mode).result,
    {
        let value = self.operand(mode, cycles, memory, Ghost(start));
        self.a = value;
        self.status = self.status.with_zero_negative(value);
        Executed::Load { mode, value }
    }

    /// Executes a subroutine call, after the opcode fetch.
    fn jsr(
        &mut self,
        cycles: &mut i64,
        memory: &mut Memory,
        Ghost(start): Ghost<Machine>,
    ) -> (executed: Executed)
        requires
            old(self)@ == (Registers { pc: offset(start.cpu.pc, 1), ..start.cpu }),
            old(memory)@ == start.memory,
            *old(cycles) - 5 >= i64::MIN,
        ensures
            final(self)@ == start.call().machine.cpu,
            final(memory)@ == start.call().machine.memory,
            *final(cycles) == *old(cycles) - (start.call().cycles - 1),
            Ok::<Executed, Fault>(executed) == start.call().result,
    {
        let target = self.fetch_word(cycles, memory);
        let return_address = self.pc.wrapping_sub(1);
        self.sp = self.sp.wrapping_sub(1);
        self.write_word(cycles, STACK_PAGE + self.sp as u16, return_address, memory);
        self.pc = target;
        *cycles = *cycles - 1;
        Executed::Call { target, return_address }
    }

    /// Fetches, decodes and executes one instruction. An opcode that stands
    /// for no instruction is reported with the address it was fetched from;
    /// its fetch has then taken place, and nothing else.
    pub fn step(&mut self, cycles: &mut i64, memory: &mut Memory) -> (result: Result<Executed, Fault>)
        requires
            *old(cycles) - MAX_INSTRUCTION_CYCLES >= i64::MIN,
        ensures
            ({
                let step = (Machine { cpu: old(self)@, memory: old(memory)@ }).step();
                &&& final(self)@ == step.machine.cpu
                &&& final(memory)@ == step.machine.memory
                &&& *final(cycles) == *old(cycles) - step.cycles
                &&& result == step.result
            }),
    {
        let ghost start = Machine { cpu: self@, memory: memory@ };
        let pc = self.pc;
        let opcode = self.fetch_byte(cycles, memory);
        match decode(opcode) {
            Some(Instruction::Lda(mode)) => Ok(self.lda(mode, cycles, memory, Ghost(start))),
            Some(Instruction::Jsr) => Ok(self.jsr(cycles, memory, Ghost(start))),
            None => Err(Fault { opcode, pc }),
        }
    }

    /// Executes instructions while `cycles` is above zero. An instruction
    /// that has begun is completed even where it takes `cycles` below zero.
    /// An opcode that stands for no instruction ends the call with it.
    pub fn execute(&mut self, cycles: &mut i64, memory: &mut Memory) -> (result: Result<(), Fault>)
        ensures
            ({
                let run = (Machine { cpu: old(self)@, memory: old(memory)@ }).run(
                    *old(cycles) as int,
                );
                &&& final(self)@ == run.machine.cpu
                &&& final(memory)@ == run.machine.memory
                &&& *final(cycles) == run.budget
                &&& result == match run.fault {
                    Some(fault) => Err::<(), Fault>(fault),
                    None => Ok::<(), Fault>(()),
                }
            }),
    {
        let ghost goal = (Machine { cpu: self@, memory: memory@ }).run(*cycles as int);
        while *cycles > 0
            invariant
                goal == (Machine { cpu: old(self)@, memory: old(memory)@ }).run(
                    *old(cycles) as int,
                ),
                ({
                    let run = (Machine { cpu: self@, memory: memory@ }).run(*cycles as int);
                    &&& run.machine == goal.machine
                    &&& run.budget == goal.budget
                    &&& run.fault == goal.fault
                }),
            decreases
                (if *cycles > 0 {
                    *cycles as int
                } else {
                    0
                }),
        {
            proof {
                (Machine { cpu: self@, memory: memory@ }).lemma_step_takes_cycles();
            }
            match self.step(cycles, memory) {
                Ok(_) => {},
                Err(fault) => {
                    return Err(fault);
                },
            }
        }
        Ok(())
    }

    /// As `execute`, and appends to `trace` what each executed instruction
    /// did, in order. The trace has no influence on the processor.
    pub fn execute_traced(
        &mut self,
        cycles: &mut i64,
        memory: &mut Memory,
        trace: &mut Vec<Executed>,
    ) -> (result: Result<(), Fault>)
        ensures
            ({
                let run = (Machine { cpu: old(self)@, memory: old(memory)@ }).run(
                    *old(cycles) as int,
                );
                &&& final(self)@ == run.machine.cpu
                &&& final(memory)@ == run.machine.memory
                &&& *final(cycles) == run.budget
                &&& result == match run.fault {
                    Some(fault) => Err::<(), Fault>(fault),
                    None => Ok::<(), Fault>(()),
                }
                &&& final(trace)@ == old(trace)@ + run.trace
            }),
    {
        let ghost goal = (Machine { cpu: self@, memory: memory@ }).run(*cycles as int);
        while *cycles > 0
            invariant
                goal == (Machine { cpu: old(self)@, memory: old(memory)@ }).run(
                    *old(cycles) as int,
                ),
                ({
                    let run = (Machine { cpu: self@, memory: memory@ }).run(*cycles as int);
                    &&& run.machine == goal.machine
                    &&& run.budget == goal.budget
                    &&& run.fault == goal.fault
                    &&& trace@ + run.trace == old(trace)@ + goal.trace
                }),
            decreases
                (if *cycles > 0 {
                    *cycles as int
                } else {
                    0
                }),
        {
            let ghost before = (Machine { cpu: self@, memory: memory@ }).run(*cycles as int);
            let ghost recorded = trace@;
            proof {
                (Machine { cpu: self@, memory: memory@ }).lemma_step_takes_cycles();
            }
            match self.step(cycles, memory) {
                Ok(executed) => {
                    trace.push(executed);
                    proof {
                        let rest = (Machine { cpu: self@, memory: memory@ }).run(*cycles as int);
                        assert(before.trace == seq![executed] + rest.trace);
                        assert(trace@ + rest.trace =~= recorded + before.trace);
                    }
                },
                Err(fault) => {
                    assert(trace@ =~= recorded + before.trace);
                    return Err(fault);
                },
            }
        }
        assert(trace@ =~= old(trace)@ + goal.trace);
        Ok(())
    }

    /// The program counter.
    pub fn pc(&self) -> (pc: u16)
        ensures
            pc == self@.pc,
    {
        self.pc
    }

    /// The stack pointer.
    pub fn sp(&self) -> (sp: u8)
        ensures
            sp == self@.sp,
    {
        self.sp
    }

    /// The accumulator.
    pub fn a(&self) -> (a: u8)
        ensures
            a == self@.a,
    {
        self.a
    }

    /// Index register X.
    pub fn x(&self) -> (x: u8)
        ensures
            x == self@.x,
    {
        self.x
    }

    /// Index register Y.
    pub fn y(&self) -> (y: u8)
        ensures
            y == self@.y,
    {
        self.y
    }

    /// The status register.
    pub fn status(&self) -> (status: Status)
        ensures
            status@ == self@.flags,
    {
        self.status
    }

    /// Sets the program counter and nothing else.
    pub fn set_pc(&mut self, pc: u16)
        ensures
            final(self)@ == (Registers { pc, ..old(self)@ }),
    {
        self.pc = pc;
    }

    /// Sets the stack pointer and nothing else.
    pub fn set_sp(&mut self, sp: u8)
        ensures
            final(self)@ == (Registers { sp, ..old(self)@ }),
    {
        self.sp = sp;
    }

    /// Sets the accumulator and nothing else; the flags stay as they are.
    pub fn set_a(&mut self, a: u8)
        ensures
            final(self)@ == (Registers { a, ..old(self)@ }),
    {
        self.a = a;
    }

    /// Sets index register X and nothing else.
    pub fn set_x(&mut self, x: u8)
        ensures
            final(self)@ == (Registers { x, ..old(self)@ }),
    {
        self.x = x;
    }

    /// Sets index register Y and nothing else.
    pub fn set_y(&mut self, y: u8)
        ensures
            final(self)@ == (Registers { y, ..old(self)@ }),
    {
        self.y = y;
    }

    /// Sets the status register and nothing else.
    pub fn set_status(&mut self, status: Status)
        ensures
            final(self)@ == (Registers { flags: status@, ..old(self)@ }),
    {
        self.status = status;
    }
}

} // verus!
