//! Reset, the fetch primitives, memory, the status register, words and the
//! decoder.

use mos6502::cpu::Cpu;
use mos6502::instruction::{
    decode, AddressingMode, Instruction, INS_JSR, INS_LDA_ABS, INS_LDA_ABX, INS_LDA_ABY,
    INS_LDA_IDX, INS_LDA_IDY, INS_LDA_IM, INS_LDA_ZP, INS_LDA_ZPX,
};
use mos6502::memory::{Memory, MEMORY_SIZE};
use mos6502::status::{Flag, Status};
use mos6502::word::{high_byte, low_byte, word};

const ALL_FLAGS: [Flag; 7] = [
    Flag::Carry,
    Flag::Zero,
    Flag::InterruptDisable,
    Flag::Decimal,
    Flag::Break,
    Flag::Overflow,
    Flag::Negative,
];

fn scribbled() -> (Cpu, Memory) {
    let mut cpu = Cpu::new();
    let mut memory = Memory::new();
    cpu.set_pc(0x1234);
    cpu.set_sp(0x56);
    cpu.set_a(0x78);
    cpu.set_x(0x9A);
    cpu.set_y(0xBC);
    cpu.set_status(Status::from_bits(0xFF));
    memory.write(0x0000, 0x01);
    memory.write(0x8000, 0x02);
    memory.write(0xFFFF, 0x03);
    (cpu, memory)
}

#[test]
fn new_processor_is_all_zero() {
    let cpu = Cpu::new();
    assert_eq!(cpu.pc(), 0);
    assert_eq!(cpu.sp(), 0);
    assert_eq!(cpu.a(), 0);
    assert_eq!(cpu.x(), 0);
    assert_eq!(cpu.y(), 0);
    assert_eq!(cpu.status().bits(), 0);
}

#[test]
fn reset_gives_power_up_state() {
    let (mut cpu, mut memory) = scribbled();
    cpu.reset(&mut memory);
    assert_eq!(cpu.pc(), 0xFFFC);
    assert_eq!(cpu.sp(), 0xFF);
    assert_eq!(cpu.a(), 0);
    assert_eq!(cpu.x(), 0);
    assert_eq!(cpu.y(), 0);
    assert_eq!(cpu.status().bits(), 0);
    for flag in ALL_FLAGS {
        assert_eq!(cpu.status().get(flag), false);
    }
}

#[test]
fn reset_zeroes_every_memory_cell() {
    let (mut cpu, mut memory) = scribbled();
    cpu.reset(&mut memory);
    for address in 0..=0xFFFFu16 {
        assert_eq!(memory.read(address), 0);
    }
}

#[test]
fn reset_twice_is_reset_once() {
    let (mut once, mut once_memory) = scribbled();
    once.reset(&mut once_memory);
    let (mut twice, mut twice_memory) = scribbled();
    twice.reset(&mut twice_memory);
    twice.reset(&mut twice_memory);
    assert_eq!(once, twice);
    for address in 0..=0xFFFFu16 {
        assert_eq!(once_memory.read(address), twice_memory.read(address));
    }
}

#[test]
fn fetch_byte_advances_program_counter_and_takes_one_cycle() {
    let mut cpu = Cpu::new();
    let mut memory = Memory::new();
    cpu.reset(&mut memory);
    memory.write(0xFFFC, 0x5A);
    let mut cycles: i64 = 10;
    assert_eq!(cpu.fetch_byte(&mut cycles, &memory), 0x5A);
    assert_eq!(cpu.pc(), 0xFFFD);
    assert_eq!(cycles, 9);
}

#[test]
fn fetch_byte_wraps_program_counter() {
    let mut cpu = Cpu::new();
    let mut memory = Memory::new();
    cpu.set_pc(0xFFFF);
    memory.write(0xFFFF, 0x5B);
    let mut cycles: i64 = 0;
    assert_eq!(cpu.fetch_byte(&mut cycles, &memory), 0x5B);
    assert_eq!(cpu.pc(), 0x0000);
    assert_eq!(cycles, -1);
}

#[test]
fn fetch_word_is_little_endian_and_takes_two_cycles() {
    let mut cpu = Cpu::new();
    let mut memory = Memory::new();
    cpu.set_pc(0x0400);
    memory.write(0x0400, 0xCD);
    memory.write(0x0401, 0xAB);
    let mut cycles: i64 = 10;
    assert_eq!(cpu.fetch_word(&mut cycles, &memory), 0xABCD);
    assert_eq!(cpu.pc(), 0x0402);
    assert_eq!(cycles, 8);
}

#[test]
fn read_byte_leaves_program_counter() {
    let mut cpu = Cpu::new();
    let mut memory = Memory::new();
    cpu.reset(&mut memory);
    memory.write(0x1234, 0x77);
    memory.write(0x0034, 0x11);
    let before = cpu;
    let mut cycles: i64 = 10;
    assert_eq!(cpu.read_byte(&mut cycles, 0x1234, &memory), 0x77);
    assert_eq!(cpu, before);
    assert_eq!(cpu.pc(), 0xFFFC);
    assert_eq!(cycles, 9);
}

#[test]
fn read_word_is_little_endian_and_leaves_program_counter() {
    let mut cpu = Cpu::new();
    let mut memory = Memory::new();
    cpu.reset(&mut memory);
    memory.write(0x2000, 0x34);
    memory.write(0x2001, 0x12);
    let before = cpu;
    let mut cycles: i64 = 10;
    assert_eq!(cpu.read_word(&mut cycles, 0x2000, &memory), 0x1234);
    assert_eq!(cpu, before);
    assert_eq!(cycles, 8);
}

#[test]
fn read_word_wraps_at_the_end_of_the_address_space() {
    let mut cpu = Cpu::new();
    let mut memory = Memory::new();
    memory.write(0xFFFF, 0x34);
    memory.write(0x0000, 0x12);
    let mut cycles: i64 = 2;
    assert_eq!(cpu.read_word(&mut cycles, 0xFFFF, &memory), 0x1234);
    assert_eq!(cycles, 0);
}

#[test]
fn write_word_is_little_endian_and_leaves_program_counter() {
    let mut cpu = Cpu::new();
    let mut memory = Memory::new();
    cpu.reset(&mut memory);
    let before = cpu;
    let mut cycles: i64 = 10;
    cpu.write_word(&mut cycles, 0x3000, 0xBEEF, &mut memory);
    assert_eq!(memory.read(0x3000), 0xEF);
    assert_eq!(memory.read(0x3001), 0xBE);
    assert_eq!(memory.read(0x2FFF), 0x00);
    assert_eq!(memory.read(0x3002), 0x00);
    assert_eq!(cpu, before);
    assert_eq!(cycles, 8);
}

#[test]
fn write_word_then_read_word_gives_the_word_back() {
    let mut cpu = Cpu::new();
    let mut memory = Memory::new();
    let mut cycles: i64 = 4;
    cpu.write_word(&mut cycles, 0xFFFF, 0xA55A, &mut memory);
    assert_eq!(memory.read(0xFFFF), 0x5A);
    assert_eq!(memory.read(0x0000), 0xA5);
    assert_eq!(cpu.read_word(&mut cycles, 0xFFFF, &memory), 0xA55A);
    assert_eq!(cycles, 0);
}

#[test]
fn new_memory_is_zero() {
    let memory = Memory::new();
    assert_eq!(MEMORY_SIZE, 65536);
    for address in 0..=0xFFFFu16 {
        assert_eq!(memory.read(address), 0);
    }
}

#[test]
fn memory_write_changes_one_cell() {
    let mut memory = Memory::new();
    memory.write(0x8000, 0xAA);
    assert_eq!(memory.read(0x8000), 0xAA);
    assert_eq!(memory.read(0x7FFF), 0x00);
    assert_eq!(memory.read(0x8001), 0x00);
    memory.write(0x8000, 0xBB);
    assert_eq!(memory.read(0x8000), 0xBB);
    memory.write(0x0000, 0x01);
    memory.write(0xFFFF, 0x02);
    assert_eq!(memory.read(0x0000), 0x01);
    assert_eq!(memory.read(0xFFFF), 0x02);
}

#[test]
fn memory_initialize_zeroes_every_cell() {
    let mut memory = Memory::new();
    memory.write(0x0000, 0x01);
    memory.write(0x1234, 0x02);
    memory.write(0xFFFF, 0x03);
    memory.initialize();
    for address in 0..=0xFFFFu16 {
        assert_eq!(memory.read(address), 0);
    }
    memory.initialize();
    for address in 0..=0xFFFFu16 {
        assert_eq!(memory.read(address), 0);
    }
}

#[test]
fn status_flags_are_independent() {
    for flag in ALL_FLAGS {
        let status = Status::new().with(flag, true);
        for other in ALL_FLAGS {
            assert_eq!(status.get(other), other == flag);
        }
        assert_eq!(status.bits(), flag.mask());
        let cleared = Status::from_bits(0xFF).with(flag, false);
        for other in ALL_FLAGS {
            assert_eq!(cleared.get(other), other != flag);
        }
        assert_eq!(cleared.bits(), 0xDF & !flag.mask());
        assert_eq!(status.with(flag, false), Status::new());
    }
}

#[test]
fn status_bits_follow_the_register_layout() {
    assert_eq!(Flag::Carry.mask(), 0x01);
    assert_eq!(Flag::Zero.mask(), 0x02);
    assert_eq!(Flag::InterruptDisable.mask(), 0x04);
    assert_eq!(Flag::Decimal.mask(), 0x08);
    assert_eq!(Flag::Break.mask(), 0x10);
    assert_eq!(Flag::Overflow.mask(), 0x40);
    assert_eq!(Flag::Negative.mask(), 0x80);
    assert_eq!(Status::new().bits(), 0x00);
    assert_eq!(Status::from_bits(0x20).bits(), 0x00);
    assert_eq!(Status::from_bits(0xFF).bits(), 0xDF);
    assert_eq!(Status::from_bits(0x43).bits(), 0x43);
    assert_eq!(Status::from_bits(0x43).get(Flag::Overflow), true);
    assert_eq!(Status::from_bits(0x43).get(Flag::Negative), false);
}

#[test]
fn status_after_load_follows_the_value() {
    assert_eq!(Status::new().with_zero_negative(0x00).bits(), 0x02);
    assert_eq!(Status::new().with_zero_negative(0x01).bits(), 0x00);
    assert_eq!(Status::new().with_zero_negative(0x7F).bits(), 0x00);
    assert_eq!(Status::new().with_zero_negative(0x80).bits(), 0x80);
    assert_eq!(Status::new().with_zero_negative(0xFF).bits(), 0x80);
    assert_eq!(Status::from_bits(0xFF).with_zero_negative(0x00).bits(), 0x5F);
    assert_eq!(Status::from_bits(0xFF).with_zero_negative(0x40).bits(), 0x5D);
    assert_eq!(Status::from_bits(0x5D).with_zero_negative(0xC0).bits(), 0xDD);
}

#[test]
fn words_are_joined_and_split() {
    assert_eq!(word(0x34, 0x12), 0x1234);
    assert_eq!(word(0xFF, 0x00), 0x00FF);
    assert_eq!(word(0x00, 0xFF), 0xFF00);
    assert_eq!(word(0xFF, 0xFF), 0xFFFF);
    assert_eq!(low_byte(0x1234), 0x34);
    assert_eq!(high_byte(0x1234), 0x12);
    assert_eq!(low_byte(0xFF00), 0x00);
    assert_eq!(high_byte(0xFF00), 0xFF);
    assert_eq!(high_byte(0x00FF), 0x00);
    assert_eq!(high_byte(0x0100), 0x01);
}

#[test]
fn every_opcode_decodes_to_its_instruction() {
    assert_eq!(INS_LDA_IM, 0xA9);
    assert_eq!(INS_LDA_ZP, 0xA5);
    assert_eq!(INS_LDA_ZPX, 0xB5);
    assert_eq!(INS_LDA_ABS, 0xAD);
    assert_eq!(INS_LDA_ABX, 0xBD);
    assert_eq!(INS_LDA_ABY, 0xB9);
    assert_eq!(INS_LDA_IDX, 0xA1);
    assert_eq!(INS_LDA_IDY, 0xB1);
    assert_eq!(INS_JSR, 0x20);
    assert_eq!(decode(0xA9), Some(Instruction::Lda(AddressingMode::Immediate)));
    assert_eq!(decode(0xA5), Some(Instruction::Lda(AddressingMode::ZeroPage)));
    assert_eq!(decode(0xB5), Some(Instruction::Lda(AddressingMode::ZeroPageX)));
    assert_eq!(decode(0xAD), Some(Instruction::Lda(AddressingMode::Absolute)));
    assert_eq!(decode(0xBD), Some(Instruction::Lda(AddressingMode::AbsoluteX)));
    assert_eq!(decode(0xB9), Some(Instruction::Lda(AddressingMode::AbsoluteY)));
    assert_eq!(decode(0xA1), Some(Instruction::Lda(AddressingMode::IndirectX)));
    assert_eq!(decode(0xB1), Some(Instruction::Lda(AddressingMode::IndirectY)));
    assert_eq!(decode(0x20), Some(Instruction::Jsr));
}

#[test]
fn every_other_byte_decodes_to_nothing() {
    let known = [0xA9u8, 0xA5, 0xB5, 0xAD, 0xBD, 0xB9, 0xA1, 0xB1, 0x20];
    let mut unknown = 0;
    for opcode in 0..=0xFFu8 {
        if known.contains(&opcode) {
            assert!(decode(opcode).is_some());
        } else {
            assert_eq!(decode(opcode), None);
            unknown += 1;
        }
    }
    assert_eq!(unknown, 247);
}
