//! Decoder behaviour: totality over all 256 bytes, the exact table for
//! recognized opcodes, and the operand classification predicates.

use gb_core::instructions::Instruction;
use gb_core::registers::Register;
use gb_core::registers::RegisterPair;

const RECOGNIZED: [u8; 84] = [
    0x00, 0x01, 0x02, 0x04, 0x06, 0x0A, 0x0C, 0x0E, 0x11, 0x12, 0x14, 0x16, 0x1A, 0x1C, 0x1E,
    0x21, 0x22, 0x24, 0x26, 0x2A, 0x2C, 0x2E, 0x31, 0x32, 0x36, 0x3A, 0x3C, 0x3E, 0x46, 0x4E,
    0x56, 0x5E, 0x66, 0x6E, 0x70, 0x71, 0x72, 0x73, 0x74, 0x75, 0x77, 0x7E, 0x80, 0x81, 0x82,
    0x83, 0x84, 0x85, 0x86, 0x87, 0x88, 0x89, 0x8A, 0x8B, 0x8C, 0x8D, 0x8E, 0x8F, 0x90, 0x91,
    0x92, 0x93, 0x94, 0x95, 0x96, 0x97, 0x98, 0x99, 0x9A, 0x9B, 0x9C, 0x9D, 0x9E, 0x9F, 0xC6,
    0xCE, 0xD6, 0xDE, 0xE0, 0xE2, 0xEA, 0xF0, 0xF2, 0xFA,
];

#[test]
fn decoding_every_byte_is_total_and_unrecognized_bytes_are_unknown() {
    for byte in 0..=255u8 {
        let instruction = Instruction::from_byte(byte);
        if RECOGNIZED.contains(&byte) {
            assert_ne!(instruction, Instruction::Unknown, "byte {byte:#04X}");
        } else {
            assert_eq!(instruction, Instruction::Unknown, "byte {byte:#04X}");
        }
    }
}

#[test]
fn decode_spot_checks() {
    assert_eq!(Instruction::from_byte(0x00), Instruction::Nop);
    assert_eq!(Instruction::from_byte(0x3E), Instruction::LdImmediate(Register::A));
    assert_eq!(Instruction::from_byte(0x87), Instruction::Add(Register::A));
    assert_eq!(Instruction::from_byte(0x86), Instruction::AddHL);
    assert_eq!(Instruction::from_byte(0xC6), Instruction::AddImmediate);
    assert_eq!(Instruction::from_byte(0x8E), Instruction::AdcHL);
    assert_eq!(Instruction::from_byte(0x9F), Instruction::Sbc(Register::A));
    assert_eq!(Instruction::from_byte(0x96), Instruction::SubHL);
    assert_eq!(Instruction::from_byte(0xDE), Instruction::SbcImmediate);
    assert_eq!(Instruction::from_byte(0x0A), Instruction::Ld(RegisterPair::BC));
    assert_eq!(Instruction::from_byte(0x1A), Instruction::Ld(RegisterPair::DE));
    assert_eq!(Instruction::from_byte(0x02), Instruction::LdToPair(RegisterPair::BC));
    assert_eq!(Instruction::from_byte(0x12), Instruction::LdToPair(RegisterPair::DE));
    assert_eq!(Instruction::from_byte(0x46), Instruction::LdFromHL(Register::B));
    assert_eq!(Instruction::from_byte(0x77), Instruction::LdToHL(Register::A));
    assert_eq!(Instruction::from_byte(0x22), Instruction::LdToHLIncrement);
    assert_eq!(Instruction::from_byte(0x32), Instruction::LdToHLDecrement);
    assert_eq!(Instruction::from_byte(0x2A), Instruction::LdFromHLIncrement);
    assert_eq!(Instruction::from_byte(0x3A), Instruction::LdFromHLDecrement);
    assert_eq!(Instruction::from_byte(0x36), Instruction::LdHLImmediate);
    assert_eq!(Instruction::from_byte(0x01), Instruction::LdPairImmediate16(RegisterPair::BC));
    assert_eq!(Instruction::from_byte(0x11), Instruction::LdPairImmediate16(RegisterPair::DE));
    assert_eq!(Instruction::from_byte(0x21), Instruction::LdPairImmediate16(RegisterPair::HL));
    assert_eq!(Instruction::from_byte(0x31), Instruction::LdStackPointerImmediate16);
    assert_eq!(Instruction::from_byte(0xE0), Instruction::LdToInternalRAMImmediate);
    assert_eq!(Instruction::from_byte(0xF0), Instruction::LdFromInternalRAMImmediate);
    assert_eq!(Instruction::from_byte(0xE2), Instruction::LdToInternalRAM);
    assert_eq!(Instruction::from_byte(0xF2), Instruction::LdFromInternalRAM);
    assert_eq!(Instruction::from_byte(0xEA), Instruction::LdToRAMImmediate16);
    assert_eq!(Instruction::from_byte(0xFA), Instruction::LdFromRAMImmediate16);
}

#[test]
fn a16_classification() {
    assert!(Instruction::LdFromRAMImmediate16.is_a16_instruction());
    assert!(Instruction::LdToRAMImmediate16.is_a16_instruction());
    assert!(!Instruction::Nop.is_a16_instruction());
    assert!(!Instruction::LdImmediate(Register::B).is_a16_instruction());
}

#[test]
fn d8_classification() {
    assert!(Instruction::AdcImmediate.is_d8_instruction());
    assert!(Instruction::AddImmediate.is_d8_instruction());
    assert!(Instruction::LdHLImmediate.is_d8_instruction());
    assert!(Instruction::LdImmediate(Register::C).is_d8_instruction());
    assert!(Instruction::SbcImmediate.is_d8_instruction());
    assert!(Instruction::SubImmediate.is_d8_instruction());
    assert!(!Instruction::Add(Register::A).is_d8_instruction());
    assert!(!Instruction::LdStackPointerImmediate16.is_d8_instruction());
}

#[test]
fn d16_classification() {
    assert!(Instruction::LdPairImmediate16(RegisterPair::HL).is_d16_instruction());
    assert!(Instruction::LdStackPointerImmediate16.is_d16_instruction());
    assert!(!Instruction::LdFromRAMImmediate16.is_d16_instruction());
    assert!(!Instruction::Unknown.is_d16_instruction());
}
