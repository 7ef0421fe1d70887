//! What holds of every machine: flags and costs of the loads, the stack
//! after a call, reset, and how a run ends.

use vstd::prelude::*;
use crate::instruction::{spec_decode, AddressingMode, Instruction};
use crate::machine::{byte_at, stack_address, word_at, Machine, Registers};
use crate::word::{bit7, offset, offset_in_page, spec_high_byte, spec_low_byte};

verus! {

/// A load in any addressing mode puts its operand into the accumulator,
/// sets the zero flag exactly when the operand is zero and the negative flag
/// exactly when bit 7 of the operand is set, and alters no other flag, no
/// other register but the program counter, and no memory.
pub proof fn load_sets_zero_and_negative_only(machine: Machine, mode: AddressingMode)
    requires
        spec_decode(machine.opcode()) == Some(Instruction::Lda(mode)),
    ensures
        ({
            let before = machine.cpu;
            let after = machine.step().machine;
            let value = byte_at(machine.memory, machine.effective_address(mode));
            &&& after.cpu.a == value
            &&& after.cpu.flags.zero <==> value == 0
            &&& after.cpu.flags.negative <==> bit7(value)
            &&& after.cpu.flags.carry == before.flags.carry
            &&& after.cpu.flags.interrupt_disable == before.flags.interrupt_disable
            &&& after.cpu.flags.decimal == before.flags.decimal
            &&& after.cpu.flags.break_command == before.flags.break_command
            &&& after.cpu.flags.overflow == before.flags.overflow
            &&& after.cpu.sp == before.sp
            &&& after.cpu.x == before.x
            &&& after.cpu.y == before.y
            &&& after.cpu.pc == offset(before.pc, 1 + mode.operand_len())
            &&& after.memory == machine.memory
        }),
{
}

/// The cost of a load by addressing mode: immediate 2 cycles, zero page 3,
/// zero page indexed 4, absolute 4, indirect pre-indexed 6. Absolute indexed
/// costs 4 and indirect post-indexed 5, each one more where the high byte
/// of the effective address differs from that of the base address.
pub proof fn load_cycles_by_mode(machine: Machine, mode: AddressingMode)
    requires
        spec_decode(machine.opcode()) == Some(Instruction::Lda(mode)),
    ensures
        ({
            let cycles = machine.step().cycles;
            let base = machine.base_address(mode);
            let crossing: int = if spec_high_byte(machine.effective_address(mode))
                != spec_high_byte(base) {
                1
            } else {
                0
            };
            &&& mode == AddressingMode::Immediate ==> cycles == 2
            &&& mode == AddressingMode::ZeroPage ==> cycles == 3
            &&& mode == AddressingMode::ZeroPageX ==> cycles == 4
            &&& mode == AddressingMode::Absolute ==> cycles == 4
            &&& mode == AddressingMode::AbsoluteX ==> base == machine.operand_word()
                && machine.effective_address(mode) == offset(base, machine.cpu.x as int) && cycles
                == 4 + crossing
            &&& mode == AddressingMode::AbsoluteY ==> base == machine.operand_word()
                && machine.effective_address(mode) == offset(base, machine.cpu.y as int) && cycles
                == 4 + crossing
            &&& mode == AddressingMode::IndirectX ==> cycles == 6
            &&& mode == AddressingMode::IndirectY ==> machine.effective_address(mode) == offset(
                base,
                machine.cpu.y as int,
            ) && cycles == 5 + crossing
        }),
{
}

/// After a subroutine call the stack pointer is one lower, the two bytes
/// at the stack address it names hold the address of the last byte of the
/// call instruction, low byte first, the program counter is the operand of
/// the call, and six cycles were taken. Flags, the other registers and every
/// other memory cell are as before.
pub proof fn call_pushes_return_address(machine: Machine)
    requires
        machine.wf(),
        spec_decode(machine.opcode()) == Some(Instruction::Jsr),
    ensures
        ({
            let before = machine.cpu;
            let step = machine.step();
            let after = step.machine;
            let return_address = offset(before.pc, 2);
            let slot = stack_address(after.cpu.sp);
            &&& after.wf()
            &&& after.cpu.sp == offset_in_page(before.sp, -1)
            &&& word_at(after.memory, slot) == return_address
            &&& byte_at(after.memory, slot) == spec_low_byte(return_address)
            &&& byte_at(after.memory, offset(slot, 1)) == spec_high_byte(return_address)
            &&& after.cpu.pc == machine.operand_word()
            &&& step.cycles == 6
            &&& after.cpu == (Registers { pc: after.cpu.pc, sp: after.cpu.sp, ..before })
            &&& forall|address: u16|
                address != slot && address != offset(slot, 1) ==> byte_at(after.memory, address)
                    == byte_at(machine.memory, address)
        }),
{
}

/// Reset is total and idempotent: a second reset changes nothing, and after
/// a reset every register has its power-up value and every memory cell
/// holds zero, whatever the machine was before.
pub proof fn reset_is_idempotent(machine: Machine)
    ensures
        machine.reset().reset() == machine.reset(),
        machine.reset().cpu == Registers::power_up(),
        machine.reset().wf(),
        forall|address: u16| byte_at(machine.reset().memory, address) == 0,
{
}

/// No step alters a flag other than zero and negative, nor an index
/// register: what no instruction is documented to affect is preserved.
pub proof fn step_preserves_reserved_state(machine: Machine)
    ensures
        ({
            let before = machine.cpu;
            let after = machine.step().machine.cpu;
            &&& after.flags.carry == before.flags.carry
            &&& after.flags.interrupt_disable == before.flags.interrupt_disable
            &&& after.flags.decimal == before.flags.decimal
            &&& after.flags.break_command == before.flags.break_command
            &&& after.flags.overflow == before.flags.overflow
            &&& after.x == before.x
            &&& after.y == before.y
        }),
{
}

/// A step keeps the memory whole.
pub proof fn step_preserves_wf(machine: Machine)
    requires
        machine.wf(),
    ensures
        machine.step().machine.wf(),
{
}

/// How a run ends. With nothing to spend, nothing happens. Otherwise the
/// run stops on a fault or with the budget used up, and the instruction that
/// used it up overdrew it by less than its own cost.
pub proof fn run_spends_budget(machine: Machine, budget: int)
    requires
        machine.wf(),
    ensures
        ({
            let run = machine.run(budget);
            &&& run.machine.wf()
            &&& budget <= 0 ==> run.machine == machine && run.budget == budget && run.fault is None
                && run.trace.len() == 0
            &&& budget > 0 ==> -6 < run.budget < budget
            &&& budget > 0 && run.fault is None ==> run.budget <= 0 && run.trace.len() >= 1
        }),
    decreases
        (if budget > 0 {
            budget
        } else {
            0
        }),
{
    if budget > 0 {
        let step = machine.step();
        machine.lemma_step_takes_cycles();
        step_preserves_wf(machine);
        if step.result is Ok {
            run_spends_budget(step.machine, budget - step.cycles);
        }
    }
}

} // verus!
