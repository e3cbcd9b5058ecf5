//! The register file: seven 8-bit general-purpose registers and the derived
//! 16-bit register-pair view.

use vstd::prelude::*;

verus! {

/// One of the seven single-byte general-purpose registers. `A` is the
/// accumulator: all arithmetic operations read and write it implicitly.
#[derive(Clone, Copy, Debug, PartialEq, Eq, Structural)]
pub enum Register {
    A,
    B,
    C,
    D,
    E,
    H,
    L,
}

/// One of the three 16-bit register pairs, composed big-endian from a high
/// and a low 8-bit register. `HL` additionally serves as an indirect memory
/// pointer.
#[derive(Clone, Copy, Debug, PartialEq, Eq, Structural)]
pub enum RegisterPair {
    BC,
    DE,
    HL,
}

/// The register file. No other storage duplicates register state; a register
/// pair is always decomposable into exactly its two underlying registers.
#[derive(Clone, Copy, Debug, PartialEq, Eq, Structural)]
pub struct Registers {
    pub a: u8,
    pub b: u8,
    pub c: u8,
    pub d: u8,
    pub e: u8,
    pub h: u8,
    pub l: u8,
}

/// The value of one named 8-bit register.
pub open spec fn spec_register(registers: Registers, register: Register) -> u8 {
    match register {
        Register::A => registers.a,
        Register::B => registers.b,
        Register::C => registers.c,
        Register::D => registers.d,
        Register::E => registers.e,
        Register::H => registers.h,
        Register::L => registers.l,
    }
}

/// The register file after writing one named 8-bit register.
pub open spec fn spec_set_register(registers: Registers, register: Register, value: u8) -> Registers {
    match register {
        Register::A => Registers { a: value, ..registers },
        Register::B => Registers { b: value, ..registers },
        Register::C => Registers { c: value, ..registers },
        Register::D => Registers { d: value, ..registers },
        Register::E => Registers { e: value, ..registers },
        Register::H => Registers { h: value, ..registers },
        Register::L => Registers { l: value, ..registers },
    }
}

/// Big-endian composition of two bytes into a 16-bit word: the high byte is
/// shifted left eight bits and combined with the low byte.
pub open spec fn spec_word(high: u8, low: u8) -> u16 {
    (high * 256 + low) as u16
}

/// The high byte of a 16-bit word.
pub open spec fn spec_high_byte(value: u16) -> u8 {
    (value / 256) as u8
}

/// The low byte of a 16-bit word.
pub open spec fn spec_low_byte(value: u16) -> u8 {
    (value % 256) as u8
}

/// The 16-bit value of a register pair.
pub open spec fn spec_pair(registers: Registers, pair: RegisterPair) -> u16 {
    match pair {
        RegisterPair::BC => spec_word(registers.b, registers.c),
        RegisterPair::DE => spec_word(registers.d, registers.e),
        RegisterPair::HL => spec_word(registers.h, registers.l),
    }
}

/// The register file after writing a 16-bit value into a register pair: the
/// high byte lands in the first register of the pair, the low byte in the
/// second, and no other register changes.
pub open spec fn spec_set_pair(registers: Registers, pair: RegisterPair, value: u16) -> Registers {
    match pair {
        RegisterPair::BC => Registers {
            b: spec_high_byte(value),
            c: spec_low_byte(value),
            ..registers
        },
        RegisterPair::DE => Registers {
            d: spec_high_byte(value),
            e: spec_low_byte(value),
            ..registers
        },
        RegisterPair::HL => Registers {
            h: spec_high_byte(value),
            l: spec_low_byte(value),
            ..registers
        },
    }
}

impl Registers {
    /// A fresh register file with every register zero.
    pub fn new() -> (registers: Registers)
        ensures
            registers == (Registers { a: 0, b: 0, c: 0, d: 0, e: 0, h: 0, l: 0 }),
    {
        Registers { a: 0, b: 0, c: 0, d: 0, e: 0, h: 0, l: 0 }
    }

    /// Read one named 8-bit register.
    pub fn get(&self, register: Register) -> (value: u8)
        ensures
            value == spec_register(*self, register),
    {
        match register {
            Register::A => self.a,
            Register::B => self.b,
            Register::C => self.c,
            Register::D => self.d,
            Register::E => self.e,
            Register::H => self.h,
            Register::L => self.l,
        }
    }

    /// Write one named 8-bit register, leaving the others unchanged.
    pub fn set(&mut self, register: Register, value: u8)
        ensures
            *final(self) == spec_set_register(*old(self), register, value),
    {
        match register {
            Register::A => self.a = value,
            Register::B => self.b = value,
            Register::C => self.c = value,
            Register::D => self.d = value,
            Register::E => self.e = value,
            Register::H => self.h = value,
            Register::L => self.l = value,
        }
    }

    /// Compose a register pair into its 16-bit value.
    pub fn pair(&self, pair: RegisterPair) -> (value: u16)
        ensures
            value == spec_pair(*self, pair),
    {
        match pair {
            RegisterPair::BC => (self.b as u16) * 256 + (self.c as u16),
            RegisterPair::DE => (self.d as u16) * 256 + (self.e as u16),
            RegisterPair::HL => (self.h as u16) * 256 + (self.l as u16),
        }
    }

    /// Decompose a 16-bit value into a register pair, leaving every register
    /// outside the pair unchanged.
    pub fn set_pair(&mut self, pair: RegisterPair, value: u16)
        ensures
            *final(self) == spec_set_pair(*old(self), pair, value),
    {
        let high: u8 = (value / 256) as u8;
        let low: u8 = (value % 256) as u8;

        match pair {
            RegisterPair::BC => {
                self.b = high;
                self.c = low;
            },
            RegisterPair::DE => {
                self.d = high;
                self.e = low;
            },
            RegisterPair::HL => {
                self.h = high;
                self.l = low;
            },
        }
    }
}

/// Law: register-pair composition and decomposition round-trip. Writing any
/// 16-bit value into any pair and reading the pair back yields that value,
/// whatever the register file held before.
pub proof fn lemma_pair_round_trip(registers: Registers, pair: RegisterPair, value: u16)
    ensures
        spec_pair(spec_set_pair(registers, pair, value), pair) == value,
{
    assert(spec_word(spec_high_byte(value), spec_low_byte(value)) == value) by {
        vstd::arithmetic::div_mod::lemma_fundamental_div_mod(value as int, 256);
    };
}

} // verus!
