//! Operand classification for an external tracer. A tracer renders a decoded
//! instruction together with its operand bytes; these predicates say which
//! instructions carry an absolute 16-bit address, an 8-bit immediate or a
//! 16-bit immediate in the bytes that follow the opcode, and the peek below
//! reads those bytes without disturbing the engine's fetch position.

use vstd::prelude::*;
use crate::instructions::Instruction;
use crate::registers::spec_word;

verus! {

/// Instructions whose operand is an absolute 16-bit address.
pub open spec fn spec_is_a16_instruction(instruction: Instruction) -> bool {
    match instruction {
        Instruction::LdFromRAMImmediate16 => true,
        Instruction::LdToRAMImmediate16 => true,
        _ => false,
    }
}

/// Instructions whose operand is an 8-bit immediate value.
pub open spec fn spec_is_d8_instruction(instruction: Instruction) -> bool {
    match instruction {
        Instruction::AdcImmediate => true,
        Instruction::AddImmediate => true,
        Instruction::LdHLImmediate => true,
        Instruction::LdImmediate(_) => true,
        Instruction::SbcImmediate => true,
        Instruction::SubImmediate => true,
        _ => false,
    }
}

/// Instructions whose operand is a 16-bit immediate value.
pub open spec fn spec_is_d16_instruction(instruction: Instruction) -> bool {
    match instruction {
        Instruction::LdPairImmediate16(_) => true,
        Instruction::LdStackPointerImmediate16 => true,
        _ => false,
    }
}

impl Instruction {
    /// Whether this instruction's operand is an absolute 16-bit address.
    pub fn is_a16_instruction(self) -> (r: bool)
        ensures
            r == spec_is_a16_instruction(self),
    {
        match self {
            Instruction::LdFromRAMImmediate16 => true,
            Instruction::LdToRAMImmediate16 => true,
            _ => false,
        }
    }

    /// Whether this instruction's operand is an 8-bit immediate value.
    pub fn is_d8_instruction(self) -> (r: bool)
        ensures
            r == spec_is_d8_instruction(self),
    {
        match self {
            Instruction::AdcImmediate => true,
            Instruction::AddImmediate => true,
            Instruction::LdHLImmediate => true,
            Instruction::LdImmediate(_) => true,
            Instruction::SbcImmediate => true,
            Instruction::SubImmediate => true,
            _ => false,
        }
    }

    /// Whether this instruction's operand is a 16-bit immediate value.
    pub fn is_d16_instruction(self) -> (r: bool)
        ensures
            r == spec_is_d16_instruction(self),
    {
        match self {
            Instruction::LdPairImmediate16(_) => true,
            Instruction::LdStackPointerImmediate16 => true,
            _ => false,
        }
    }
}

/// Read the two bytes that follow at the given position in memory, composed
/// little-endian (the first byte in storage order is the low byte), without
/// moving the fetch position. Returns `None` when either byte lies outside
/// the loaded image.
pub fn get_next_two_bytes(memory: &Vec<u8>, program_counter: u16) -> (r: Option<u16>)
    ensures
        match r {
            Some(value) => {
                &&& (program_counter as int) < memory@.len()
                &&& (program_counter.wrapping_add(1) as int) < memory@.len()
                &&& value == spec_word(
                    memory@[program_counter.wrapping_add(1) as int],
                    memory@[program_counter as int],
                )
            },
            None => {
                ||| memory@.len() <= program_counter as int
                ||| memory@.len() <= program_counter.wrapping_add(1) as int
            },
        },
{
    let second_position: u16 = program_counter.wrapping_add(1);
    if (program_counter as usize) < memory.len() && (second_position as usize) < memory.len() {
        let first_byte: u8 = memory[program_counter as usize];
        let second_byte: u8 = memory[second_position as usize];
        Some((second_byte as u16) * 256 + (first_byte as u16))
    } else {
        None
    }
}

} // verus!
