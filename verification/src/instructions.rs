//! The instruction set and the opcode decoder.

use vstd::prelude::*;
use crate::registers::Register;
use crate::registers::RegisterPair;

verus! {

/// A decoded instruction. Variants fall into families: accumulator arithmetic
/// against a register, the HL-indirect byte or an immediate byte; register
/// increment; 8-bit loads across immediate, register-indirect, HL-indirect
/// with optional pointer increment or decrement, high-page indexed and
/// absolute 16-bit forms; 16-bit immediate loads into a register pair or the
/// stack pointer; a no-operation; and an explicit variant for every byte the
/// decoder does not recognize.
#[derive(Clone, Copy, Debug, PartialEq, Eq, Structural)]
pub enum Instruction {
    Adc(Register),
    Add(Register),
    Inc(Register),
    Sbc(Register),
    Sub(Register),
    Ld(RegisterPair),
    AdcHL,
    AddHL,
    LdFromInternalRAM,
    LdToInternalRAM,
    SbcHL,
    SubHL,
    LdFromHL(Register),
    LdToHL(Register),
    LdFromHLIncrement,
    LdFromHLDecrement,
    LdToHLIncrement,
    LdToHLDecrement,
    LdToPair(RegisterPair),
    AdcImmediate,
    AddImmediate,
    LdFromInternalRAMImmediate,
    LdHLImmediate,
    LdToInternalRAMImmediate,
    SbcImmediate,
    SubImmediate,
    LdImmediate(Register),
    LdFromRAMImmediate16,
    LdToRAMImmediate16,
    LdPairImmediate16(RegisterPair),
    LdStackPointerImmediate16,
    Nop,
    Unknown,
}

/// The opcode table: the instruction that each of the 256 byte values decodes
/// to. Every byte outside the table maps to `Unknown`.
pub open spec fn spec_decode(byte: u8) -> Instruction {
    match byte {
        0x00 => Instruction::Nop,
        0x01 => Instruction::LdPairImmediate16(RegisterPair::BC),
        0x02 => Instruction::LdToPair(RegisterPair::BC),
        0x04 => Instruction::Inc(Register::B),
        0x06 => Instruction::LdImmediate(Register::B),
        0x0A => Instruction::Ld(RegisterPair::BC),
        0x0C => Instruction::Inc(Register::C),
        0x0E => Instruction::LdImmediate(Register::C),
        0x11 => Instruction::LdPairImmediate16(RegisterPair::DE),
        0x12 => Instruction::LdToPair(RegisterPair::DE),
        0x14 => Instruction::Inc(Register::D),
        0x16 => Instruction::LdImmediate(Register::D),
        0x1A => Instruction::Ld(RegisterPair::DE),
        0x1C => Instruction::Inc(Register::E),
        0x1E => Instruction::LdImmediate(Register::E),
        0x21 => Instruction::LdPairImmediate16(RegisterPair::HL),
        0x22 => Instruction::LdToHLIncrement,
        0x24 => Instruction::Inc(Register::H),
        0x26 => Instruction::LdImmediate(Register::H),
        0x2A => Instruction::LdFromHLIncrement,
        0x2C => Instruction::Inc(Register::L),
        0x2E => Instruction::LdImmediate(Register::L),
        0x31 => Instruction::LdStackPointerImmediate16,
        0x32 => Instruction::LdToHLDecrement,
        0x36 => Instruction::LdHLImmediate,
        0x3A => Instruction::LdFromHLDecrement,
        0x3C => Instruction::Inc(Register::A),
        0x3E => Instruction::LdImmediate(Register::A),
        0x46 => Instruction::LdFromHL(Register::B),
        0x4E => Instruction::LdFromHL(Register::C),
        0x56 => Instruction::LdFromHL(Register::D),
        0x5E => Instruction::LdFromHL(Register::E),
        0x66 => Instruction::LdFromHL(Register::H),
        0x6E => Instruction::LdFromHL(Register::L),
        0x70 => Instruction::LdToHL(Register::B),
        0x71 => Instruction::LdToHL(Register::C),
        0x72 => Instruction::LdToHL(Register::D),
        0x73 => Instruction::LdToHL(Register::E),
        0x74 => Instruction::LdToHL(Register::H),
        0x75 => Instruction::LdToHL(Register::L),
        0x77 => Instruction::LdToHL(Register::A),
        0x7E => Instruction::LdFromHL(Register::A),
        0x80 => Instruction::Add(Register::B),
        0x81 => Instruction::Add(Register::C),
        0x82 => Instruction::Add(Register::D),
        0x83 => Instruction::Add(Register::E),
        0x84 => Instruction::Add(Register::H),
        0x85 => Instruction::Add(Register::L),
        0x86 => Instruction::AddHL,
        0x87 => Instruction::Add(Register::A),
        0x88 => Instruction::Adc(Register::B),
        0x89 => Instruction::Adc(Register::C),
        0x8A => Instruction::Adc(Register::D),
        0x8B => Instruction::Adc(Register::E),
        0x8C => Instruction::Adc(Register::H),
        0x8D => Instruction::Adc(Register::L),
        0x8E => Instruction::AdcHL,
        0x8F => Instruction::Adc(Register::A),
        0x90 => Instruction::Sub(Register::B),
        0x91 => Instruction::Sub(Register::C),
        0x92 => Instruction::Sub(Register::D),
        0x93 => Instruction::Sub(Register::E),
        0x94 => Instruction::Sub(Register::H),
        0x95 => Instruction::Sub(Register::L),
        0x96 => Instruction::SubHL,
        0x97 => Instruction::Sub(Register::A),
        0x98 => Instruction::Sbc(Register::B),
        0x99 => Instruction::Sbc(Register::C),
        0x9A => Instruction::Sbc(Register::D),
        0x9B => Instruction::Sbc(Register::E),
        0x9C => Instruction::Sbc(Register::H),
        0x9D => Instruction::Sbc(Register::L),
        0x9E => Instruction::SbcHL,
        0x9F => Instruction::Sbc(Register::A),
        0xC6 => Instruction::AddImmediate,
        0xCE => Instruction::AdcImmediate,
        0xD6 => Instruction::SubImmediate,
        0xDE => Instruction::SbcImmediate,
        0xE0 => Instruction::LdToInternalRAMImmediate,
        0xE2 => Instruction::LdToInternalRAM,
        0xEA => Instruction::LdToRAMImmediate16,
        0xF0 => Instruction::LdFromInternalRAMImmediate,
        0xF2 => Instruction::LdFromInternalRAM,
        0xFA => Instruction::LdFromRAMImmediate16,
        _ => Instruction::Unknown,
    }
}

impl Instruction {
    /// Decode one opcode byte. The decoder is total: it covers all 256 byte
    /// values, never fails, and maps every unrecognized byte to `Unknown`.
    /// It has no side effects and consumes no further bytes; immediate
    /// operands are fetched later by the execution engine.
    pub fn from_byte(byte: u8) -> (instruction: Instruction)
        ensures
            instruction == spec_decode(byte),
    {
        match byte {
            0x00 => Instruction::Nop,
            0x01 => Instruction::LdPairImmediate16(RegisterPair::BC),
            0x02 => Instruction::LdToPair(RegisterPair::BC),
            0x04 => Instruction::Inc(Register::B),
            0x06 => Instruction::LdImmediate(Register::B),
            0x0A => Instruction::Ld(RegisterPair::BC),
            0x0C => Instruction::Inc(Register::C),
            0x0E => Instruction::LdImmediate(Register::C),
            0x11 => Instruction::LdPairImmediate16(RegisterPair::DE),
            0x12 => Instruction::LdToPair(RegisterPair::DE),
            0x14 => Instruction::Inc(Register::D),
            0x16 => Instruction::LdImmediate(Register::D),
            0x1A => Instruction::Ld(RegisterPair::DE),
            0x1C => Instruction::Inc(Register::E),
            0x1E => Instruction::LdImmediate(Register::E),
            0x21 => Instruction::LdPairImmediate16(RegisterPair::HL),
            0x22 => Instruction::LdToHLIncrement,
            0x24 => Instruction::Inc(Register::H),
            0x26 => Instruction::LdImmediate(Register::H),
            0x2A => Instruction::LdFromHLIncrement,
            0x2C => Instruction::Inc(Register::L),
            0x2E => Instruction::LdImmediate(Register::L),
            0x31 => Instruction::LdStackPointerImmediate16,
            0x32 => Instruction::LdToHLDecrement,
            0x36 => Instruction::LdHLImmediate,
            0x3A => Instruction::LdFromHLDecrement,
            0x3C => Instruction::Inc(Register::A),
            0x3E => Instruction::LdImmediate(Register::A),
            0x46 => Instruction::LdFromHL(Register::B),
            0x4E => Instruction::LdFromHL(Register::C),
            0x56 => Instruction::LdFromHL(Register::D),
            0x5E => Instruction::LdFromHL(Register::E),
            0x66 => Instruction::LdFromHL(Register::H),
            0x6E => Instruction::LdFromHL(Register::L),
            0x70 => Instruction::LdToHL(Register::B),
            0x71 => Instruction::LdToHL(Register::C),
            0x72 => Instruction::LdToHL(Register::D),
            0x73 => Instruction::LdToHL(Register::E),
            0x74 => Instruction::LdToHL(Register::H),
            0x75 => Instruction::LdToHL(Register::L),
            0x77 => Instruction::LdToHL(Register::A),
            0x7E => Instruction::LdFromHL(Register::A),
            0x80 => Instruction::Add(Register::B),
            0x81 => Instruction::Add(Register::C),
            0x82 => Instruction::Add(Register::D),
            0x83 => Instruction::Add(Register::E),
            0x84 => Instruction::Add(Register::H),
            0x85 => Instruction::Add(Register::L),
            0x86 => Instruction::AddHL,
            0x87 => Instruction::Add(Register::A),
            0x88 => Instruction::Adc(Register::B),
            0x89 => Instruction::Adc(Register::C),
            0x8A => Instruction::Adc(Register::D),
            0x8B => Instruction::Adc(Register::E),
            0x8C => Instruction::Adc(Register::H),
            0x8D => Instruction::Adc(Register::L),
            0x8E => Instruction::AdcHL,
            0x8F => Instruction::Adc(Register::A),
            0x90 => Instruction::Sub(Register::B),
            0x91 => Instruction::Sub(Register::C),
            0x92 => Instruction::Sub(Register::D),
            0x93 => Instruction::Sub(Register::E),
            0x94 => Instruction::Sub(Register::H),
            0x95 => Instruction::Sub(Register::L),
            0x96 => Instruction::SubHL,
            0x97 => Instruction::Sub(Register::A),
            0x98 => Instruction::Sbc(Register::B),
            0x99 => Instruction::Sbc(Register::C),
            0x9A => Instruction::Sbc(Register::D),
            0x9B => Instruction::Sbc(Register::E),
            0x9C => Instruction::Sbc(Register::H),
            0x9D => Instruction::Sbc(Register::L),
            0x9E => Instruction::SbcHL,
            0x9F => Instruction::Sbc(Register::A),
            0xC6 => Instruction::AddImmediate,
            0xCE => Instruction::AdcImmediate,
            0xD6 => Instruction::SubImmediate,
            0xDE => Instruction::SbcImmediate,
            0xE0 => Instruction::LdToInternalRAMImmediate,
            0xE2 => Instruction::LdToInternalRAM,
            0xEA => Instruction::LdToRAMImmediate16,
            0xF0 => Instruction::LdFromInternalRAMImmediate,
            0xF2 => Instruction::LdFromInternalRAM,
            0xFA => Instruction::LdFromRAMImmediate16,
            _ => Instruction::Unknown,
        }
    }
}

} // verus!
