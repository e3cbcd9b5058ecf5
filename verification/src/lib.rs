//! Instruction-execution core of a Game Boy-class (LR35902) CPU emulator.
//!
//! The core fetches bytes from an addressable memory image, decodes them into
//! a fixed instruction set, executes each instruction against a register file
//! and memory, and updates condition flags with bit-exact arithmetic
//! semantics. Every component carries a contract over a mathematical model of
//! the machine state, and the execution loop is proved to realise that model.

pub mod cpu;
pub mod disassembler;
pub mod flags;
pub mod instructions;
pub mod registers;
