//! The load family: immediate, register-pair-indirect, HL-indirect,
//! high-page indexed and absolute 16-bit addressing, and the little-endian
//! composition of 16-bit immediates.

use gb_core::cpu::Cpu;
use gb_core::disassembler::get_next_two_bytes;
use gb_core::registers::Register;
use gb_core::registers::RegisterPair;

fn cpu_with(memory: Vec<u8>) -> Cpu {
    let mut cpu = Cpu::new();
    cpu.load_memory(memory);
    cpu
}

#[test]
fn immediate_loads_reach_every_register() {
    let table: [(u8, Register); 7] = [
        (0x3E, Register::A),
        (0x06, Register::B),
        (0x0E, Register::C),
        (0x16, Register::D),
        (0x1E, Register::E),
        (0x26, Register::H),
        (0x2E, Register::L),
    ];
    for (opcode, register) in table {
        let mut cpu = cpu_with(vec![opcode, 0x5A]);
        assert!(cpu.step().is_ok());
        assert_eq!(cpu.registers.get(register), 0x5A);
        assert_eq!(cpu.program_counter, 2);
    }
}

#[test]
fn pair_indirect_load_reads_through_bc_and_de() {
    let mut memory = vec![0u8; 0x10];
    memory[0] = 0x0A; // LD A,(BC)
    memory[0x08] = 0xAB;
    let mut cpu = cpu_with(memory);
    cpu.registers.set_pair(RegisterPair::BC, 0x08);
    assert!(cpu.step().is_ok());
    assert_eq!(cpu.registers.a, 0xAB);

    let mut memory = vec![0u8; 0x10];
    memory[0] = 0x1A; // LD A,(DE)
    memory[0x09] = 0xCD;
    let mut cpu = cpu_with(memory);
    cpu.registers.set_pair(RegisterPair::DE, 0x09);
    assert!(cpu.step().is_ok());
    assert_eq!(cpu.registers.a, 0xCD);
}

#[test]
fn pair_indirect_store_writes_through_bc_and_de() {
    let mut cpu = cpu_with(vec![0x02, 0x00, 0x00, 0x00]); // LD (BC),A
    cpu.registers.a = 0x42;
    cpu.registers.set_pair(RegisterPair::BC, 0x03);
    assert!(cpu.step().is_ok());
    assert_eq!(cpu.memory[3], 0x42);

    let mut cpu = cpu_with(vec![0x12, 0x00, 0x00, 0x00]); // LD (DE),A
    cpu.registers.a = 0x24;
    cpu.registers.set_pair(RegisterPair::DE, 0x02);
    assert!(cpu.step().is_ok());
    assert_eq!(cpu.memory[2], 0x24);
}

#[test]
fn hl_indirect_load_and_store_for_plain_registers() {
    let mut memory = vec![0u8; 0x10];
    memory[0] = 0x46; // LD B,(HL)
    memory[0x0C] = 0x33;
    let mut cpu = cpu_with(memory);
    cpu.registers.set_pair(RegisterPair::HL, 0x0C);
    assert!(cpu.step().is_ok());
    assert_eq!(cpu.registers.b, 0x33);

    let mut cpu = cpu_with(vec![0x70, 0x00, 0x00]); // LD (HL),B
    cpu.registers.b = 0x66;
    cpu.registers.set_pair(RegisterPair::HL, 0x02);
    assert!(cpu.step().is_ok());
    assert_eq!(cpu.memory[2], 0x66);
}

#[test]
fn hl_immediate_store_consumes_the_operand() {
    let mut cpu = cpu_with(vec![0x36, 0x7F, 0x00]); // LD (HL),d8
    cpu.registers.set_pair(RegisterPair::HL, 0x02);
    assert!(cpu.step().is_ok());
    assert_eq!(cpu.memory[2], 0x7F);
    assert_eq!(cpu.program_counter, 2);
}

#[test]
fn pair_immediate_loads_compose_little_endian() {
    // LD HL,d16: the first fetched byte is the low byte.
    let mut cpu = cpu_with(vec![0x21, 0x34, 0x12]);
    assert!(cpu.step().is_ok());
    assert_eq!(cpu.registers.pair(RegisterPair::HL), 0x1234);
    assert_eq!(cpu.registers.h, 0x12);
    assert_eq!(cpu.registers.l, 0x34);
    assert_eq!(cpu.program_counter, 3);

    let mut cpu = cpu_with(vec![0x01, 0xCD, 0xAB]);
    assert!(cpu.step().is_ok());
    assert_eq!(cpu.registers.pair(RegisterPair::BC), 0xABCD);

    let mut cpu = cpu_with(vec![0x11, 0x01, 0x00]);
    assert!(cpu.step().is_ok());
    assert_eq!(cpu.registers.pair(RegisterPair::DE), 0x0001);
}

#[test]
fn stack_pointer_immediate_load() {
    let mut cpu = cpu_with(vec![0x31, 0xFE, 0xFF]); // LD SP,d16
    assert!(cpu.step().is_ok());
    assert_eq!(cpu.stack_pointer, 0xFFFE);
    assert_eq!(cpu.program_counter, 3);
}

#[test]
fn absolute_16_bit_load_and_store() {
    // LD A,(a16) reads through a little-endian absolute address.
    let mut memory = vec![0u8; 0x10];
    memory[0] = 0xFA;
    memory[1] = 0x08;
    memory[2] = 0x00;
    memory[0x08] = 0xEE;
    let mut cpu = cpu_with(memory);
    assert!(cpu.step().is_ok());
    assert_eq!(cpu.registers.a, 0xEE);
    assert_eq!(cpu.program_counter, 3);

    // LD (a16),A writes through the same composition.
    let mut memory = vec![0u8; 0x10];
    memory[0] = 0xEA;
    memory[1] = 0x0F;
    memory[2] = 0x00;
    let mut cpu = cpu_with(memory);
    cpu.registers.a = 0x5C;
    assert!(cpu.step().is_ok());
    assert_eq!(cpu.memory[0x0F], 0x5C);
}

#[test]
fn high_page_loads_through_register_c() {
    // LD A,(C) and LD (C),A resolve to 0xFF00 plus C.
    let mut memory = vec![0u8; 0x10000];
    memory[0] = 0xF2;
    memory[0xFF03] = 0x21;
    let mut cpu = cpu_with(memory);
    cpu.registers.c = 0x03;
    assert!(cpu.step().is_ok());
    assert_eq!(cpu.registers.a, 0x21);

    let mut memory = vec![0u8; 0x10000];
    memory[0] = 0xE2;
    let mut cpu = cpu_with(memory);
    cpu.registers.a = 0x77;
    cpu.registers.c = 0x04;
    assert!(cpu.step().is_ok());
    assert_eq!(cpu.memory[0xFF04], 0x77);
}

#[test]
fn high_page_loads_through_an_immediate_offset() {
    // LD A,(a8) and LD (a8),A resolve to 0xFF00 plus the immediate.
    let mut memory = vec![0u8; 0x10000];
    memory[0] = 0xF0;
    memory[1] = 0x01;
    memory[0xFF01] = 0x99;
    let mut cpu = cpu_with(memory);
    assert!(cpu.step().is_ok());
    assert_eq!(cpu.registers.a, 0x99);
    assert_eq!(cpu.program_counter, 2);

    let mut memory = vec![0u8; 0x10000];
    memory[0] = 0xE0;
    memory[1] = 0xFF;
    let mut cpu = cpu_with(memory);
    cpu.registers.a = 0x13;
    assert!(cpu.step().is_ok());
    assert_eq!(cpu.memory[0xFFFF], 0x13);
}

#[test]
fn register_arithmetic_reads_the_named_register() {
    // ADD A,B / ADC A,B / SUB B / SBC B through a run.
    let mut cpu = cpu_with(vec![0x80]);
    cpu.registers.a = 2;
    cpu.registers.b = 3;
    assert!(cpu.run().is_ok());
    assert_eq!(cpu.registers.a, 5);

    let mut cpu = cpu_with(vec![0x88]);
    cpu.registers.a = 2;
    cpu.registers.b = 3;
    cpu.flags.cy = true;
    assert!(cpu.run().is_ok());
    assert_eq!(cpu.registers.a, 6);

    let mut cpu = cpu_with(vec![0x90]);
    cpu.registers.a = 9;
    cpu.registers.b = 3;
    assert!(cpu.run().is_ok());
    assert_eq!(cpu.registers.a, 6);

    let mut cpu = cpu_with(vec![0x98]);
    cpu.registers.a = 9;
    cpu.registers.b = 3;
    cpu.flags.cy = true;
    assert!(cpu.run().is_ok());
    assert_eq!(cpu.registers.a, 5);
}

#[test]
fn hl_indirect_arithmetic_reads_through_hl() {
    let mut memory = vec![0u8; 8];
    memory[0] = 0x86; // ADD A,(HL)
    memory[5] = 0x40;
    let mut cpu = cpu_with(memory);
    cpu.registers.a = 0x02;
    cpu.registers.set_pair(RegisterPair::HL, 5);
    assert!(cpu.run().is_ok());
    assert_eq!(cpu.registers.a, 0x42);

    let mut memory = vec![0u8; 8];
    memory[0] = 0x96; // SUB (HL)
    memory[5] = 0x02;
    let mut cpu = cpu_with(memory);
    cpu.registers.a = 0x44;
    cpu.registers.set_pair(RegisterPair::HL, 5);
    assert!(cpu.run().is_ok());
    assert_eq!(cpu.registers.a, 0x42);
}

#[test]
fn peeking_the_operand_word_is_little_endian_and_bounded() {
    let memory = vec![0x21u8, 0x34, 0x12];
    assert_eq!(get_next_two_bytes(&memory, 1), Some(0x1234));
    assert_eq!(get_next_two_bytes(&memory, 2), None);
    assert_eq!(get_next_two_bytes(&memory, 3), None);
    let empty: Vec<u8> = Vec::new();
    assert_eq!(get_next_two_bytes(&empty, 0), None);
}
