//! The execution engine: fetch, decode, operand resolution, execution and
//! flag update, looping over a loaded memory image.

use vstd::prelude::*;
use crate::flags::Flags;
use crate::instructions::Instruction;
use crate::instructions::spec_decode;
use crate::registers::Register;
use crate::registers::RegisterPair;
use crate::registers::Registers;
use crate::registers::spec_pair;
use crate::registers::spec_register;
use crate::registers::spec_set_pair;
use crate::registers::spec_set_register;
use crate::registers::spec_word;

verus! {

/// The one fatal condition: a fetch or operand access addressed a byte past
/// the end of the loaded memory image. Carry, borrow and address wraparound
/// are well-defined hardware semantics and are never errors.
#[derive(Clone, Copy, Debug, PartialEq, Eq, Structural)]
pub enum CpuError {
    OutOfBoundsAccess,
}

/// The execution engine: the single owner of the register file, the flags,
/// the program counter, the stack pointer and the memory image for the
/// duration of a run.
pub struct Cpu {
    pub flags: Flags,
    pub memory: Vec<u8>,
    pub program_counter: u16,
    pub registers: Registers,
    pub stack_pointer: u16,
}

/// The mathematical state of the whole machine: the register file, the flag
/// register, the memory image as a byte sequence, the program counter and the
/// stack pointer.
pub ghost struct CpuState {
    pub registers: Registers,
    pub flags: Flags,
    pub memory: Seq<u8>,
    pub program_counter: u16,
    pub stack_pointer: u16,
}

impl View for Cpu {
    type V = CpuState;

    open spec fn view(&self) -> CpuState {
        CpuState {
            registers: self.registers,
            flags: self.flags,
            memory: self.memory@,
            program_counter: self.program_counter,
            stack_pointer: self.stack_pointer,
        }
    }
}

/// The state of a freshly constructed engine: all registers and flags zero,
/// an empty memory image, and both pointers at zero.
pub open spec fn spec_initial_state() -> CpuState {
    CpuState {
        registers: Registers { a: 0, b: 0, c: 0, d: 0, e: 0, h: 0, l: 0 },
        flags: Flags { z: false, n: false, h: false, cy: false },
        memory: Seq::empty(),
        program_counter: 0,
        stack_pointer: 0,
    }
}

/// A 16-bit value incremented by one with hardware wraparound.
pub open spec fn spec_wrap_inc(value: u16) -> u16 {
    if value == 0xFFFF {
        0
    } else {
        (value + 1) as u16
    }
}

/// A 16-bit value decremented by one with hardware wraparound.
pub open spec fn spec_wrap_dec(value: u16) -> u16 {
    if value == 0 {
        0xFFFF
    } else {
        (value - 1) as u16
    }
}

/// Whether an address falls inside the loaded memory image.
pub open spec fn spec_in_bounds(state: CpuState, address: u16) -> bool {
    (address as int) < state.memory.len()
}

// ---------------------------------------------------------------------------
// Arithmetic/logic unit semantics.
// ---------------------------------------------------------------------------

/// The effective carry-in: one exactly when carry-in is enabled for the
/// operation and the carry flag is currently set.
pub open spec fn spec_carry_in(carry: bool, cy_flag: bool) -> int {
    if carry && cy_flag {
        1
    } else {
        0
    }
}

/// The 8-bit result of an addition: the sum modulo 256.
pub open spec fn spec_add_result(lhs: u8, rhs: u8, carry_in: int) -> u8 {
    ((lhs + rhs + carry_in) % 256) as u8
}

/// The carry flag of an addition: set exactly when the unbounded sum exceeds
/// the largest 8-bit value.
pub open spec fn spec_add_carry(lhs: u8, rhs: u8, carry_in: int) -> bool {
    lhs + rhs + carry_in > 0xFF
}

/// The half-carry flag of an addition: set exactly when the low nibbles sum
/// past a nibble, carrying from bit 3 into bit 4.
pub open spec fn spec_add_half_carry(lhs: u8, rhs: u8, carry_in: int) -> bool {
    (lhs as int % 16) + (rhs as int % 16) + carry_in > 0xF
}

/// The flag register after an addition: all four flags recomputed.
pub open spec fn spec_add_flags(lhs: u8, rhs: u8, carry_in: int) -> Flags {
    Flags {
        z: spec_add_result(lhs, rhs, carry_in) == 0,
        n: false,
        h: spec_add_half_carry(lhs, rhs, carry_in),
        cy: spec_add_carry(lhs, rhs, carry_in),
    }
}

/// The 8-bit result of a subtraction: the difference modulo 256.
pub open spec fn spec_sub_result(lhs: u8, rhs: u8, carry_in: int) -> u8 {
    ((lhs + 256 - rhs - carry_in) % 256) as u8
}

/// The carry flag of a subtraction: set exactly when a borrow occurred, that
/// is when the subtrahend plus the carry-in exceeds the minuend as integers.
pub open spec fn spec_sub_borrow(lhs: u8, rhs: u8, carry_in: int) -> bool {
    rhs + carry_in > lhs
}

/// The half-carry flag of a subtraction: set exactly when the low nibble
/// borrows, that is when the subtrahend's low nibble plus the carry-in
/// exceeds the minuend's low nibble.
pub open spec fn spec_sub_half_borrow(lhs: u8, rhs: u8, carry_in: int) -> bool {
    (rhs as int % 16) + carry_in > (lhs as int % 16)
}

/// The flag register after a subtraction: all four flags recomputed.
pub open spec fn spec_sub_flags(lhs: u8, rhs: u8, carry_in: int) -> Flags {
    Flags {
        z: spec_sub_result(lhs, rhs, carry_in) == 0,
        n: true,
        h: spec_sub_half_borrow(lhs, rhs, carry_in),
        cy: spec_sub_borrow(lhs, rhs, carry_in),
    }
}

// ---------------------------------------------------------------------------
// Instruction semantics: the state transition of each instruction. `None`
// stands for the fatal out-of-bounds access; in that case the machine state
// is left exactly as it was.
// ---------------------------------------------------------------------------

/// The state with the program counter advanced by one, wrapping.
pub open spec fn spec_advance(state: CpuState) -> CpuState {
    CpuState { program_counter: spec_wrap_inc(state.program_counter), ..state }
}

/// Accumulator addition against a resolved operand byte: the result lands in
/// the accumulator and all four flags are recomputed.
pub open spec fn spec_acc_add(state: CpuState, rhs: u8, carry: bool) -> CpuState {
    let carry_in = spec_carry_in(carry, state.flags.cy);
    CpuState {
        registers: spec_set_register(
            state.registers,
            Register::A,
            spec_add_result(state.registers.a, rhs, carry_in),
        ),
        flags: spec_add_flags(state.registers.a, rhs, carry_in),
        ..state
    }
}

/// Accumulator subtraction against a resolved operand byte.
pub open spec fn spec_acc_sub(state: CpuState, rhs: u8, carry: bool) -> CpuState {
    let carry_in = spec_carry_in(carry, state.flags.cy);
    CpuState {
        registers: spec_set_register(
            state.registers,
            Register::A,
            spec_sub_result(state.registers.a, rhs, carry_in),
        ),
        flags: spec_sub_flags(state.registers.a, rhs, carry_in),
        ..state
    }
}

/// Accumulator arithmetic against the HL-indirect byte.
pub open spec fn spec_acc_add_hl(state: CpuState, carry: bool) -> Option<CpuState> {
    let address = spec_pair(state.registers, RegisterPair::HL);
    if spec_in_bounds(state, address) {
        Some(spec_acc_add(state, state.memory[address as int], carry))
    } else {
        None
    }
}

/// Accumulator subtraction against the HL-indirect byte.
pub open spec fn spec_acc_sub_hl(state: CpuState, carry: bool) -> Option<CpuState> {
    let address = spec_pair(state.registers, RegisterPair::HL);
    if spec_in_bounds(state, address) {
        Some(spec_acc_sub(state, state.memory[address as int], carry))
    } else {
        None
    }
}

/// Accumulator arithmetic against an 8-bit immediate: the immediate is
/// consumed from the instruction stream, advancing the program counter.
pub open spec fn spec_acc_add_immediate(state: CpuState, carry: bool) -> Option<CpuState> {
    if spec_in_bounds(state, state.program_counter) {
        Some(spec_acc_add(spec_advance(state), state.memory[state.program_counter as int], carry))
    } else {
        None
    }
}

/// Accumulator subtraction against an 8-bit immediate.
pub open spec fn spec_acc_sub_immediate(state: CpuState, carry: bool) -> Option<CpuState> {
    if spec_in_bounds(state, state.program_counter) {
        Some(spec_acc_sub(spec_advance(state), state.memory[state.program_counter as int], carry))
    } else {
        None
    }
}

/// Register increment: one added to the register with 8-bit wraparound. The
/// zero, subtract and half-carry flags are recomputed; the carry flag is
/// preserved.
pub open spec fn spec_inc_register(state: CpuState, register: Register) -> CpuState {
    let lhs = spec_register(state.registers, register);
    CpuState {
        registers: spec_set_register(state.registers, register, spec_add_result(lhs, 1, 0)),
        flags: Flags {
            z: spec_add_result(lhs, 1, 0) == 0,
            n: false,
            h: spec_add_half_carry(lhs, 1, 0),
            cy: state.flags.cy,
        },
        ..state
    }
}

/// Load the byte at an address into a register.
pub open spec fn spec_load_register_from(
    state: CpuState,
    register: Register,
    address: u16,
) -> Option<CpuState> {
    if spec_in_bounds(state, address) {
        Some(
            CpuState {
                registers: spec_set_register(
                    state.registers,
                    register,
                    state.memory[address as int],
                ),
                ..state
            },
        )
    } else {
        None
    }
}

/// Store one byte at an address of the memory image.
pub open spec fn spec_store(state: CpuState, address: u16, value: u8) -> Option<CpuState> {
    if spec_in_bounds(state, address) {
        Some(CpuState { memory: state.memory.update(address as int, value), ..state })
    } else {
        None
    }
}

/// The state transition of one decoded instruction, starting from the state
/// after the opcode fetch. `None` is the fatal out-of-bounds access: a fetch
/// or operand address past the end of the loaded image. Opaque so that
/// reasoning about whole runs can treat one transition as a value; proofs
/// about a single instruction reveal it.
#[verifier::opaque]
pub open spec fn spec_exec(state: CpuState, instruction: Instruction) -> Option<CpuState> {
    match instruction {
        Instruction::Adc(register) => Some(
            spec_acc_add(state, spec_register(state.registers, register), true),
        ),
        Instruction::Add(register) => Some(
            spec_acc_add(state, spec_register(state.registers, register), false),
        ),
        Instruction::Inc(register) => Some(spec_inc_register(state, register)),
        Instruction::Sbc(register) => Some(
            spec_acc_sub(state, spec_register(state.registers, register), true),
        ),
        Instruction::Sub(register) => Some(
            spec_acc_sub(state, spec_register(state.registers, register), false),
        ),
        Instruction::Ld(pair) => spec_load_register_from(
            state,
            Register::A,
            spec_pair(state.registers, pair),
        ),
        Instruction::AdcHL => spec_acc_add_hl(state, true),
        Instruction::AddHL => spec_acc_add_hl(state, false),
        Instruction::LdFromInternalRAM => spec_load_register_from(
            state,
            Register::A,
            (0xFF00 + state.registers.c) as u16,
        ),
        Instruction::LdToInternalRAM => spec_store(
            state,
            (0xFF00 + state.registers.c) as u16,
            state.registers.a,
        ),
        Instruction::SbcHL => spec_acc_sub_hl(state, true),
        Instruction::SubHL => spec_acc_sub_hl(state, false),
        Instruction::LdFromHL(register) => spec_load_register_from(
            state,
            register,
            spec_pair(state.registers, RegisterPair::HL),
        ),
        Instruction::LdToHL(register) => spec_store(
            state,
            spec_pair(state.registers, RegisterPair::HL),
            spec_register(state.registers, register),
        ),
        Instruction::LdFromHLIncrement => {
            let address = spec_pair(state.registers, RegisterPair::HL);
            if spec_in_bounds(state, address) {
                Some(
                    CpuState {
                        registers: spec_set_pair(
                            spec_set_register(
                                state.registers,
                                Register::A,
                                state.memory[address as int],
                            ),
                            RegisterPair::HL,
                            spec_wrap_inc(address),
                        ),
                        ..state
                    },
                )
            } else {
                None
            }
        },
        Instruction::LdFromHLDecrement => {
            let address = spec_pair(state.registers, RegisterPair::HL);
            if spec_in_bounds(state, address) {
                Some(
                    CpuState {
                        registers: spec_set_pair(
                            spec_set_register(
                                state.registers,
                                Register::A,
                                state.memory[address as int],
                            ),
                            RegisterPair::HL,
                            spec_wrap_dec(address),
                        ),
                        ..state
                    },
                )
            } else {
                None
            }
        },
        Instruction::LdToHLIncrement => {
            let address = spec_pair(state.registers, RegisterPair::HL);
            if spec_in_bounds(state, address) {
                Some(
                    CpuState {
                        memory: state.memory.update(address as int, state.registers.a),
                        registers: spec_set_pair(
                            state.registers,
                            RegisterPair::HL,
                            spec_wrap_inc(address),
                        ),
                        ..state
                    },
                )
            } else {
                None
            }
        },
        Instruction::LdToHLDecrement => {
            let address = spec_pair(state.registers, RegisterPair::HL);
            if spec_in_bounds(state, address) {
                Some(
                    CpuState {
                        memory: state.memory.update(address as int, state.registers.a),
                        registers: spec_set_pair(
                            state.registers,
                            RegisterPair::HL,
                            spec_wrap_dec(address),
                        ),
                        ..state
                    },
                )
            } else {
                None
            }
        },
        Instruction::LdToPair(pair) => spec_store(
            state,
            spec_pair(state.registers, pair),
            state.registers.a,
        ),
        Instruction::AdcImmediate => spec_acc_add_immediate(state, true),
        Instruction::AddImmediate => spec_acc_add_immediate(state, false),
        Instruction::LdFromInternalRAMImmediate => {
            if spec_in_bounds(state, state.program_counter) {
                let address = (0xFF00 + state.memory[state.program_counter as int]) as u16;
                spec_load_register_from(spec_advance(state), Register::A, address)
            } else {
                None
            }
        },
        Instruction::LdHLImmediate => {
            if spec_in_bounds(state, state.program_counter) {
                spec_store(
                    spec_advance(state),
                    spec_pair(state.registers, RegisterPair::HL),
                    state.memory[state.program_counter as int],
                )
            } else {
                None
            }
        },
        Instruction::LdToInternalRAMImmediate => {
            if spec_in_bounds(state, state.program_counter) {
                let address = (0xFF00 + state.memory[state.program_counter as int]) as u16;
                spec_store(spec_advance(state), address, state.registers.a)
            } else {
                None
            }
        },
        Instruction::SbcImmediate => spec_acc_sub_immediate(state, true),
        Instruction::SubImmediate => spec_acc_sub_immediate(state, false),
        Instruction::LdImmediate(register) => spec_load_register_from(
            spec_advance(state),
            register,
            state.program_counter,
        ),
        Instruction::LdFromRAMImmediate16 => {
            if spec_in_bounds(state, state.program_counter) && spec_in_bounds(
                state,
                spec_wrap_inc(state.program_counter),
            ) {
                let address = spec_word(
                    state.memory[spec_wrap_inc(state.program_counter) as int],
                    state.memory[state.program_counter as int],
                );
                spec_load_register_from(spec_advance(spec_advance(state)), Register::A, address)
            } else {
                None
            }
        },
        Instruction::LdToRAMImmediate16 => {
            if spec_in_bounds(state, state.program_counter) && spec_in_bounds(
                state,
                spec_wrap_inc(state.program_counter),
            ) {
                let address = spec_word(
                    state.memory[spec_wrap_inc(state.program_counter) as int],
                    state.memory[state.program_counter as int],
                );
                spec_store(spec_advance(spec_advance(state)), address, state.registers.a)
            } else {
                None
            }
        },
        Instruction::LdPairImmediate16(pair) => {
            if spec_in_bounds(state, state.program_counter) && spec_in_bounds(
                state,
                spec_wrap_inc(state.program_counter),
            ) {
                let value = spec_word(
                    state.memory[spec_wrap_inc(state.program_counter) as int],
                    state.memory[state.program_counter as int],
                );
                Some(
                    CpuState {
                        registers: spec_set_pair(state.registers, pair, value),
                        program_counter: spec_wrap_inc(spec_wrap_inc(state.program_counter)),
                        ..state
                    },
                )
            } else {
                None
            }
        },
        Instruction::LdStackPointerImmediate16 => {
            if spec_in_bounds(state, state.program_counter) && spec_in_bounds(
                state,
                spec_wrap_inc(state.program_counter),
            ) {
                let value = spec_word(
                    state.memory[spec_wrap_inc(state.program_counter) as int],
                    state.memory[state.program_counter as int],
                );
                Some(
                    CpuState {
                        stack_pointer: value,
                        program_counter: spec_wrap_inc(spec_wrap_inc(state.program_counter)),
                        ..state
                    },
                )
            } else {
                None
            }
        },
        Instruction::Nop => Some(state),
        Instruction::Unknown => Some(state),
    }
}

// ---------------------------------------------------------------------------
// Run semantics: iterated fetch-decode-execute.
// ---------------------------------------------------------------------------

/// The outcome of one full fetch-decode-execute iteration, started with the
/// program counter inside the loaded image. On the fatal out-of-bounds
/// access, the machine is left in the state it had right after the opcode
/// fetch.
pub ghost enum StepResult {
    Next(CpuState),
    Fault(CpuState),
}

/// One full iteration: fetch the opcode at the program counter, advance the
/// counter by one with wraparound, decode, and execute.
pub open spec fn spec_step(state: CpuState) -> StepResult {
    let opcode = state.memory[state.program_counter as int];
    let fetched = spec_advance(state);
    match spec_exec(fetched, spec_decode(opcode)) {
        Some(next) => StepResult::Next(next),
        None => StepResult::Fault(fetched),
    }
}

/// The outcome of a whole run: either a normal termination or the fatal
/// out-of-bounds access, each with the machine state it left behind.
pub ghost enum RunOutcome {
    Halt(CpuState),
    Fault(CpuState),
}

/// The run loop: step while the program counter indexes within the bounds of
/// the memory image, and stop when an executed instruction moved the counter
/// numerically backwards - the wraparound sentinel standing in for true
/// control flow. The fuel bounds the recursion; any fuel at least as large as
/// the distance from the program counter to the end of the image yields the
/// same outcome, because every continuing step advances the counter.
pub open spec fn spec_run(state: CpuState, fuel: nat) -> RunOutcome
    decreases fuel,
{
    if state.memory.len() <= state.program_counter as int {
        RunOutcome::Halt(state)
    } else if fuel == 0 {
        RunOutcome::Halt(state)
    } else {
        match spec_step(state) {
            StepResult::Fault(faulted) => RunOutcome::Fault(faulted),
            StepResult::Next(next) => {
                if next.program_counter < state.program_counter {
                    RunOutcome::Halt(next)
                } else {
                    spec_run(next, (fuel - 1) as nat)
                }
            },
        }
    }
}

/// The distance from the program counter to the end of the loaded image;
/// every continuing iteration of the run loop shrinks it.
pub open spec fn spec_run_measure(state: CpuState) -> int {
    if state.program_counter as int <= state.memory.len() {
        state.memory.len() - state.program_counter as int
    } else {
        0
    }
}

/// Executing any instruction preserves the length of the memory image and
/// moves the program counter by zero, one or two, wrapping.
proof fn lemma_spec_exec_frame(state: CpuState, instruction: Instruction)
    ensures
        match spec_exec(state, instruction) {
            Some(next) => next.memory.len() == state.memory.len() && (next.program_counter
                == state.program_counter || next.program_counter == spec_wrap_inc(
                state.program_counter,
            ) || next.program_counter == spec_wrap_inc(spec_wrap_inc(state.program_counter))),
            None => true,
        },
{
    reveal(spec_exec);
}

/// One step from inside the image preserves the memory length and never
/// leaves the program counter where it was.
proof fn lemma_spec_step_frame(state: CpuState)
    requires
        (state.program_counter as int) < state.memory.len(),
    ensures
        match spec_step(state) {
            StepResult::Next(next) => next.memory.len() == state.memory.len()
                && next.program_counter != state.program_counter,
            StepResult::Fault(faulted) => faulted == spec_advance(state),
        },
{
    lemma_spec_exec_frame(
        spec_advance(state),
        spec_decode(state.memory[state.program_counter as int]),
    );
}

/// The run outcome does not depend on the fuel, as long as the fuel covers
/// the distance from the program counter to the end of the image.
proof fn lemma_spec_run_fuel(state: CpuState, fuel1: nat, fuel2: nat)
    requires
        state.memory.len() - state.program_counter as int <= fuel1,
        state.memory.len() - state.program_counter as int <= fuel2,
    ensures
        spec_run(state, fuel1) == spec_run(state, fuel2),
    decreases fuel1,
{
    if (state.program_counter as int) < state.memory.len() {
        lemma_spec_step_frame(state);
        match spec_step(state) {
            StepResult::Next(next) => {
                if next.program_counter >= state.program_counter {
                    lemma_spec_run_fuel(next, (fuel1 - 1) as nat, (fuel2 - 1) as nat);
                }
            },
            StepResult::Fault(_) => {},
        }
    }
}

impl Cpu {
    /// A fresh engine: everything zeroed, no memory loaded.
    pub fn new() -> (cpu: Cpu)
        ensures
            cpu@ == spec_initial_state(),
    {
        Cpu {
            flags: Flags::new(),
            memory: Vec::<u8>::new(),
            program_counter: 0,
            registers: Registers::new(),
            stack_pointer: 0,
        }
    }

    /// Replace the memory image wholesale. Meant to be called before a run
    /// starts; the rest of the engine state is untouched.
    pub fn load_memory(&mut self, memory: Vec<u8>)
        ensures
            final(self)@ == (CpuState { memory: memory@, ..old(self)@ }),
    {
        self.memory = memory;
    }

    /// Read the byte at an address of the memory image, or report the fatal
    /// out-of-bounds condition, exactly when the address lies past the end of
    /// the image.
    fn read_memory(&self, address: u16) -> (r: Result<u8, CpuError>)
        ensures
            match r {
                Ok(value) => spec_in_bounds(self@, address) && value == self@.memory[address as int],
                Err(error) => !spec_in_bounds(self@, address) && error
                    == CpuError::OutOfBoundsAccess,
            },
    {
        if (address as usize) < self.memory.len() {
            Ok(self.memory[address as usize])
        } else {
            Err(CpuError::OutOfBoundsAccess)
        }
    }

    /// Write one byte at an address of the memory image, or report the fatal
    /// out-of-bounds condition, exactly when the address lies past the end of
    /// the image; on the error nothing changes.
    fn write_memory(&mut self, address: u16, value: u8) -> (r: Result<(), CpuError>)
        ensures
            match r {
                Ok(_) => spec_in_bounds(old(self)@, address) && final(self)@ == (CpuState {
                    memory: old(self)@.memory.update(address as int, value),
                    ..old(self)@
                }),
                Err(error) => {
                    &&& !spec_in_bounds(old(self)@, address)
                    &&& final(self)@ == old(self)@
                    &&& error == CpuError::OutOfBoundsAccess
                },
            },
    {
        if (address as usize) < self.memory.len() {
            self.memory.set(address as usize, value);
            Ok(())
        } else {
            Err(CpuError::OutOfBoundsAccess)
        }
    }

    /// Read the byte the HL-indirect (or another register-pair-indirect)
    /// addressing mode designates: the byte at the address held in the pair.
    fn byte_for_register_pair(&self, pair: RegisterPair) -> (r: Result<u8, CpuError>)
        ensures
            match r {
                Ok(value) => spec_in_bounds(self@, spec_pair(self@.registers, pair)) && value
                    == self@.memory[spec_pair(self@.registers, pair) as int],
                Err(error) => !spec_in_bounds(self@, spec_pair(self@.registers, pair)) && error
                    == CpuError::OutOfBoundsAccess,
            },
    {
        let address: u16 = self.registers.pair(pair);
        self.read_memory(address)
    }

    /// Consume the byte at the program counter and advance the counter by one
    /// with 16-bit wraparound; on the out-of-bounds error nothing changes.
    fn get_next_byte(&mut self) -> (r: Result<u8, CpuError>)
        ensures
            match r {
                Ok(value) => {
                    &&& spec_in_bounds(old(self)@, old(self)@.program_counter)
                    &&& value == old(self)@.memory[old(self)@.program_counter as int]
                    &&& final(self)@ == (CpuState {
                        program_counter: spec_wrap_inc(old(self)@.program_counter),
                        ..old(self)@
                    })
                },
                Err(error) => {
                    &&& !spec_in_bounds(old(self)@, old(self)@.program_counter)
                    &&& final(self)@ == old(self)@
                    &&& error == CpuError::OutOfBoundsAccess
                },
            },
    {
        if (self.program_counter as usize) < self.memory.len() {
            let byte: u8 = self.memory[self.program_counter as usize];
            self.program_counter = self.program_counter.wrapping_add(1);
            Ok(byte)
        } else {
            Err(CpuError::OutOfBoundsAccess)
        }
    }

    /// Consume the two bytes at the program counter, composed little-endian
    /// (the first fetched byte is the low byte), and advance the counter by
    /// two with 16-bit wraparound; on the out-of-bounds error nothing
    /// changes.
    fn get_next_two_bytes(&mut self) -> (r: Result<u16, CpuError>)
        ensures
            match r {
                Ok(value) => {
                    &&& spec_in_bounds(old(self)@, old(self)@.program_counter)
                    &&& spec_in_bounds(old(self)@, spec_wrap_inc(old(self)@.program_counter))
                    &&& value == spec_word(
                        old(self)@.memory[spec_wrap_inc(old(self)@.program_counter) as int],
                        old(self)@.memory[old(self)@.program_counter as int],
                    )
                    &&& final(self)@ == (CpuState {
                        program_counter: spec_wrap_inc(spec_wrap_inc(old(self)@.program_counter)),
                        ..old(self)@
                    })
                },
                Err(error) => {
                    &&& {
                        ||| !spec_in_bounds(old(self)@, old(self)@.program_counter)
                        ||| !spec_in_bounds(old(self)@, spec_wrap_inc(old(self)@.program_counter))
                    }
                    &&& final(self)@ == old(self)@
                    &&& error == CpuError::OutOfBoundsAccess
                },
            },
    {
        let first_position: u16 = self.program_counter;
        let second_position: u16 = first_position.wrapping_add(1);
        if (first_position as usize) < self.memory.len() && (second_position as usize)
            < self.memory.len() {
            let first_byte: u8 = self.memory[first_position as usize];
            let second_byte: u8 = self.memory[second_position as usize];
            self.program_counter = second_position.wrapping_add(1);
            Ok((second_byte as u16) * 256 + (first_byte as u16))
        } else {
            Err(CpuError::OutOfBoundsAccess)
        }
    }

    // -----------------------------------------------------------------------
    // The run loop.
    // -----------------------------------------------------------------------

    /// One full iteration of the engine: fetch the byte at the program
    /// counter, advance the counter by one with wraparound, decode the byte
    /// and execute the instruction. The caller guards that the program
    /// counter indexes within the bounds of the image, as the run loop does.
    pub fn step(&mut self) -> (r: Result<(), CpuError>)
        requires
            (old(self)@.program_counter as int) < old(self)@.memory.len(),
        ensures
            match spec_step(old(self)@) {
                StepResult::Next(state) => r is Ok && final(self)@ == state,
                StepResult::Fault(state) => r == Err::<(), CpuError>(CpuError::OutOfBoundsAccess)
                    && final(self)@ == state,
            },
    {
        let byte: u8 = match self.get_next_byte() {
            Ok(byte) => byte,
            Err(error) => return Err(error),
        };
        let instruction: Instruction = Instruction::from_byte(byte);
        self.process_instruction(instruction)
    }

    /// Run until termination: step while the program counter indexes within
    /// the bounds of the memory image, and stop once an instruction moved the
    /// counter numerically backwards - the wraparound sentinel that stands in
    /// for control-flow instructions, which this core does not decode. An
    /// out-of-bounds fetch or operand access stops the run at once and is
    /// surfaced as the fatal error, distinct from a normal termination. A
    /// finished engine is not resumable; construct a fresh one to run again.
    pub fn run(&mut self) -> (r: Result<(), CpuError>)
        ensures
            match spec_run(old(self)@, old(self)@.memory.len() as nat) {
                RunOutcome::Halt(state) => r is Ok && final(self)@ == state,
                RunOutcome::Fault(state) => r == Err::<(), CpuError>(CpuError::OutOfBoundsAccess)
                    && final(self)@ == state,
            },
    {
        let ghost initial = self@;
        let ghost full_fuel = initial.memory.len() as nat;

        while (self.program_counter as usize) < self.memory.len()
            invariant_except_break
                initial == old(self)@,
                self@.memory.len() == initial.memory.len(),
                spec_run(initial, full_fuel) == spec_run(self@, full_fuel),
                full_fuel == initial.memory.len(),
            ensures
                spec_run(initial, full_fuel) == RunOutcome::Halt(self@),
            decreases spec_run_measure(self@),
        {
            let starting_program_counter: u16 = self.program_counter;
            let ghost before = self@;
            proof {
                lemma_spec_step_frame(before);
            }

            match self.step() {
                Ok(_) => {},
                Err(error) => return Err(error),
            }

            if self.program_counter < starting_program_counter {
                break;
            }
            proof {
                lemma_spec_run_fuel(self@, (full_fuel - 1) as nat, full_fuel);
            }
        }
        Ok(())
    }

    // -----------------------------------------------------------------------
    // Accumulator write-back.
    // -----------------------------------------------------------------------

    /// Accumulator addition against a resolved operand byte: run the
    /// arithmetic unit and write the result back into the accumulator.
    fn acc_add(&mut self, rhs: u8, carry: bool)
        ensures
            final(self)@ == spec_acc_add(old(self)@, rhs, carry),
    {
        let lhs: u8 = self.registers.a;
        let result: u8 = self.add(lhs, rhs, carry);
        self.registers.a = result;
    }

    /// Accumulator subtraction against a resolved operand byte: run the
    /// arithmetic unit and write the result back into the accumulator.
    fn acc_sub(&mut self, rhs: u8, carry: bool)
        ensures
            final(self)@ == spec_acc_sub(old(self)@, rhs, carry),
    {
        let lhs: u8 = self.registers.a;
        let result: u8 = self.sub(lhs, rhs, carry);
        self.registers.a = result;
    }

    /// Register increment: the core adder with no carry-in, whose raw result
    /// is written back while the carry flag keeps its prior value.
    fn inc_register(&mut self, register: Register)
        ensures
            final(self)@ == spec_inc_register(old(self)@, register),
    {
        let lhs: u8 = self.registers.get(register);
        let sum: u16 = self.add_core(lhs, 1, false);
        self.registers.set(register, (sum % 256) as u8);
    }

    // -----------------------------------------------------------------------
    // Dispatch.
    // -----------------------------------------------------------------------

    /// Execute one decoded instruction against the machine state: resolve its
    /// operands, invoke the arithmetic unit where applicable, write results
    /// back to the register file or memory, and update the flags. Exactly on
    /// an out-of-bounds fetch or operand access the fatal error is returned
    /// and the state is left as it was.
    #[verifier::rlimit(60)]
    fn process_instruction(&mut self, instruction: Instruction) -> (r: Result<(), CpuError>)
        ensures
            match spec_exec(old(self)@, instruction) {
                Some(state) => r is Ok && final(self)@ == state,
                None => r == Err::<(), CpuError>(CpuError::OutOfBoundsAccess) && final(self)@
                    == old(self)@,
            },
    {
        proof {
            reveal(spec_exec);
        }
        match instruction {
            Instruction::Adc(register) => {
                let rhs: u8 = self.registers.get(register);
                self.acc_add(rhs, true);
                Ok(())
            },
            Instruction::Add(register) => {
                let rhs: u8 = self.registers.get(register);
                self.acc_add(rhs, false);
                Ok(())
            },
            Instruction::Inc(register) => {
                self.inc_register(register);
                Ok(())
            },
            Instruction::Sbc(register) => {
                let rhs: u8 = self.registers.get(register);
                self.acc_sub(rhs, true);
                Ok(())
            },
            Instruction::Sub(register) => {
                let rhs: u8 = self.registers.get(register);
                self.acc_sub(rhs, false);
                Ok(())
            },
            Instruction::Ld(pair) => {
                let value: u8 = match self.byte_for_register_pair(pair) {
                    Ok(value) => value,
                    Err(error) => return Err(error),
                };
                self.registers.a = value;
                Ok(())
            },
            Instruction::AdcHL => {
                let rhs: u8 = match self.byte_for_register_pair(RegisterPair::HL) {
                    Ok(value) => value,
                    Err(error) => return Err(error),
                };
                self.acc_add(rhs, true);
                Ok(())
            },
            Instruction::AddHL => {
                let rhs: u8 = match self.byte_for_register_pair(RegisterPair::HL) {
                    Ok(value) => value,
                    Err(error) => return Err(error),
                };
                self.acc_add(rhs, false);
                Ok(())
            },
            Instruction::LdFromInternalRAM => {
                let address: u16 = internal_ram_address(self.registers.c);
                let value: u8 = match self.read_memory(address) {
                    Ok(value) => value,
                    Err(error) => return Err(error),
                };
                self.registers.a = value;
                Ok(())
            },
            Instruction::LdToInternalRAM => {
                let address: u16 = internal_ram_address(self.registers.c);
                let value: u8 = self.registers.a;
                self.write_memory(address, value)
            },
            Instruction::SbcHL => {
                let rhs: u8 = match self.byte_for_register_pair(RegisterPair::HL) {
                    Ok(value) => value,
                    Err(error) => return Err(error),
                };
                self.acc_sub(rhs, true);
                Ok(())
            },
            Instruction::SubHL => {
                let rhs: u8 = match self.byte_for_register_pair(RegisterPair::HL) {
                    Ok(value) => value,
                    Err(error) => return Err(error),
                };
                self.acc_sub(rhs, false);
                Ok(())
            },
            Instruction::LdFromHL(register) => {
                let value: u8 = match self.byte_for_register_pair(RegisterPair::HL) {
                    Ok(value) => value,
                    Err(error) => return Err(error),
                };
                self.registers.set(register, value);
                Ok(())
            },
            Instruction::LdToHL(register) => {
                let address: u16 = self.registers.pair(RegisterPair::HL);
                let value: u8 = self.registers.get(register);
                self.write_memory(address, value)
            },
            Instruction::LdFromHLIncrement => {
                let address: u16 = self.registers.pair(RegisterPair::HL);
                let value: u8 = match self.read_memory(address) {
                    Ok(value) => value,
                    Err(error) => return Err(error),
                };
                self.registers.a = value;
                self.registers.set_pair(RegisterPair::HL, address.wrapping_add(1));
                Ok(())
            },
            Instruction::LdFromHLDecrement => {
                let address: u16 = self.registers.pair(RegisterPair::HL);
                let value: u8 = match self.read_memory(address) {
                    Ok(value) => value,
                    Err(error) => return Err(error),
                };
                self.registers.a = value;
                self.registers.set_pair(RegisterPair::HL, address.wrapping_sub(1));
                Ok(())
            },
            Instruction::LdToHLIncrement => {
                let address: u16 = self.registers.pair(RegisterPair::HL);
                let value: u8 = self.registers.a;
                match self.write_memory(address, value) {
                    Ok(_) => {},
                    Err(error) => return Err(error),
                };
                self.registers.set_pair(RegisterPair::HL, address.wrapping_add(1));
                Ok(())
            },
            Instruction::LdToHLDecrement => {
                let address: u16 = self.registers.pair(RegisterPair::HL);
                let value: u8 = self.registers.a;
                match self.write_memory(address, value) {
                    Ok(_) => {},
                    Err(error) => return Err(error),
                };
                self.registers.set_pair(RegisterPair::HL, address.wrapping_sub(1));
                Ok(())
            },
            Instruction::LdToPair(pair) => {
                let address: u16 = self.registers.pair(pair);
                let value: u8 = self.registers.a;
                self.write_memory(address, value)
            },
            Instruction::AdcImmediate => {
                let rhs: u8 = match self.get_next_byte() {
                    Ok(value) => value,
                    Err(error) => return Err(error),
                };
                self.acc_add(rhs, true);
                Ok(())
            },
            Instruction::AddImmediate => {
                let rhs: u8 = match self.get_next_byte() {
                    Ok(value) => value,
                    Err(error) => return Err(error),
                };
                self.acc_add(rhs, false);
                Ok(())
            },
            Instruction::LdFromInternalRAMImmediate => {
                let offset: u8 = match self.read_memory(self.program_counter) {
                    Ok(value) => value,
                    Err(error) => return Err(error),
                };
                let address: u16 = internal_ram_address(offset);
                let value: u8 = match self.read_memory(address) {
                    Ok(value) => value,
                    Err(error) => return Err(error),
                };
                self.registers.a = value;
                self.program_counter = self.program_counter.wrapping_add(1);
                Ok(())
            },
            Instruction::LdHLImmediate => {
                let address: u16 = self.registers.pair(RegisterPair::HL);
                let value: u8 = match self.read_memory(self.program_counter) {
                    Ok(value) => value,
                    Err(error) => return Err(error),
                };
                match self.write_memory(address, value) {
                    Ok(_) => {},
                    Err(error) => return Err(error),
                };
                self.program_counter = self.program_counter.wrapping_add(1);
                Ok(())
            },
            Instruction::LdToInternalRAMImmediate => {
                let offset: u8 = match self.read_memory(self.program_counter) {
                    Ok(value) => value,
                    Err(error) => return Err(error),
                };
                let address: u16 = internal_ram_address(offset);
                let value: u8 = self.registers.a;
                match self.write_memory(address, value) {
                    Ok(_) => {},
                    Err(error) => return Err(error),
                };
                self.program_counter = self.program_counter.wrapping_add(1);
                Ok(())
            },
            Instruction::SbcImmediate => {
                let rhs: u8 = match self.get_next_byte() {
                    Ok(value) => value,
                    Err(error) => return Err(error),
                };
                self.acc_sub(rhs, true);
                Ok(())
            },
            Instruction::SubImmediate => {
                let rhs: u8 = match self.get_next_byte() {
                    Ok(value) => value,
                    Err(error) => return Err(error),
                };
                self.acc_sub(rhs, false);
                Ok(())
            },
            Instruction::LdImmediate(register) => {
                let value: u8 = match self.get_next_byte() {
                    Ok(value) => value,
                    Err(error) => return Err(error),
                };
                self.registers.set(register, value);
                Ok(())
            },
            Instruction::LdFromRAMImmediate16 => {
                let low_position: u16 = self.program_counter;
                let high_position: u16 = low_position.wrapping_add(1);
                let low: u8 = match self.read_memory(low_position) {
                    Ok(value) => value,
                    Err(error) => return Err(error),
                };
                let high: u8 = match self.read_memory(high_position) {
                    Ok(value) => value,
                    Err(error) => return Err(error),
                };
                let address: u16 = (high as u16) * 256 + (low as u16);
                let value: u8 = match self.read_memory(address) {
                    Ok(value) => value,
                    Err(error) => return Err(error),
                };
                self.registers.a = value;
                self.program_counter = self.program_counter.wrapping_add(2);
                Ok(())
            },
            Instruction::LdToRAMImmediate16 => {
                let low_position: u16 = self.program_counter;
                let high_position: u16 = low_position.wrapping_add(1);
                let low: u8 = match self.read_memory(low_position) {
                    Ok(value) => value,
                    Err(error) => return Err(error),
                };
                let high: u8 = match self.read_memory(high_position) {
                    Ok(value) => value,
                    Err(error) => return Err(error),
                };
                let address: u16 = (high as u16) * 256 + (low as u16);
                let value: u8 = self.registers.a;
                match self.write_memory(address, value) {
                    Ok(_) => {},
                    Err(error) => return Err(error),
                };
                self.program_counter = self.program_counter.wrapping_add(2);
                Ok(())
            },
            Instruction::LdPairImmediate16(pair) => {
                let value: u16 = match self.get_next_two_bytes() {
                    Ok(value) => value,
                    Err(error) => return Err(error),
                };
                self.registers.set_pair(pair, value);
                Ok(())
            },
            Instruction::LdStackPointerImmediate16 => {
                let value: u16 = match self.get_next_two_bytes() {
                    Ok(value) => value,
                    Err(error) => return Err(error),
                };
                self.stack_pointer = value;
                Ok(())
            },
            Instruction::Nop => Ok(()),
            Instruction::Unknown => Ok(()),
        }
    }

    // -----------------------------------------------------------------------
    // Arithmetic/logic unit.
    // -----------------------------------------------------------------------

    /// 8-bit addition with optional carry-in. Recomputes all four flags and
    /// returns the truncated 8-bit result.
    pub fn add(&mut self, lhs: u8, rhs: u8, carry: bool) -> (result: u8)
        ensures
            ({
                let carry_in = spec_carry_in(carry, old(self)@.flags.cy);
                &&& result == spec_add_result(lhs, rhs, carry_in)
                &&& final(self)@ == (CpuState {
                    flags: spec_add_flags(lhs, rhs, carry_in),
                    ..old(self)@
                })
            }),
    {
        let result: u16 = self.add_core(lhs, rhs, carry);
        self.flags.cy = result > 0xFF;
        (result % 256) as u8
    }

    /// The core of addition: the widened sum of both operands and the
    /// effective carry-in. Updates the zero, subtract and half-carry flags
    /// but leaves the carry flag untouched, so that register increment can
    /// preserve it.
    pub fn add_core(&mut self, lhs: u8, rhs: u8, carry: bool) -> (result: u16)
        ensures
            ({
                let carry_in = spec_carry_in(carry, old(self)@.flags.cy);
                &&& result == lhs + rhs + carry_in
                &&& final(self)@ == (CpuState {
                    flags: Flags {
                        z: spec_add_result(lhs, rhs, carry_in) == 0,
                        n: false,
                        h: spec_add_half_carry(lhs, rhs, carry_in),
                        cy: old(self)@.flags.cy,
                    },
                    ..old(self)@
                })
            }),
    {
        let carry_in: u8 = if carry && self.flags.cy {
            1
        } else {
            0
        };
        let result: u16 = (lhs as u16) + (rhs as u16) + (carry_in as u16);
        self.flags.h = (lhs % 16) + (rhs % 16) + carry_in > 0xF;
        self.flags.n = false;
        self.set_flag_z((result % 256) as u8);
        result
    }

    /// 8-bit subtraction with optional carry-in (borrow). Recomputes all four
    /// flags and returns the 8-bit result with wraparound.
    pub fn sub(&mut self, lhs: u8, rhs: u8, carry: bool) -> (result: u8)
        ensures
            ({
                let carry_in = spec_carry_in(carry, old(self)@.flags.cy);
                &&& result == spec_sub_result(lhs, rhs, carry_in)
                &&& final(self)@ == (CpuState {
                    flags: spec_sub_flags(lhs, rhs, carry_in),
                    ..old(self)@
                })
            }),
    {
        let carry_in: u8 = if carry && self.flags.cy {
            1
        } else {
            0
        };
        let result: u8 = (((lhs as u16) + 256 - (rhs as u16) - (carry_in as u16)) % 256) as u8;
        self.flags.cy = (rhs as u16) + (carry_in as u16) > (lhs as u16);
        self.flags.h = (rhs % 16) + carry_in > (lhs % 16);
        self.flags.n = true;
        self.set_flag_z(result);
        result
    }

    /// Set the zero flag from an 8-bit result.
    fn set_flag_z(&mut self, result: u8)
        ensures
            final(self)@ == (CpuState {
                flags: Flags { z: result == 0, ..old(self)@.flags },
                ..old(self)@
            }),
    {
        self.flags.z = result == 0;
    }
}

/// The high-page effective address: an 8-bit offset added to the base of the
/// high-page window at 0xFF00.
pub fn internal_ram_address(offset: u8) -> (address: u16)
    ensures
        address == 0xFF00 + offset,
{
    0xFF00 + offset as u16
}

// ---------------------------------------------------------------------------
// Laws.
// ---------------------------------------------------------------------------

/// Law: register increment never faults and never alters the carry flag. The
/// incremented register takes the wrapped successor of its old value, the
/// zero, subtract and half-carry flags are recomputed, and the carry flag
/// keeps whatever value it had before.
pub proof fn lemma_increment_preserves_carry(state: CpuState, register: Register)
    ensures
        spec_exec(state, Instruction::Inc(register)) == Some(spec_inc_register(state, register)),
        spec_inc_register(state, register).flags.cy == state.flags.cy,
{
    reveal(spec_exec);
}

/// Law: a load-then-increment access leaves HL exactly one greater, wrapping,
/// whenever the address held in HL lies inside the loaded image.
pub proof fn lemma_hl_post_increment(state: CpuState)
    requires
        spec_in_bounds(state, spec_pair(state.registers, RegisterPair::HL)),
    ensures
        match spec_exec(state, Instruction::LdFromHLIncrement) {
            Some(next) => spec_pair(next.registers, RegisterPair::HL) == spec_wrap_inc(
                spec_pair(state.registers, RegisterPair::HL),
            ),
            None => false,
        },
{
    reveal(spec_exec);
    let address = spec_pair(state.registers, RegisterPair::HL);
    crate::registers::lemma_pair_round_trip(
        spec_set_register(state.registers, Register::A, state.memory[address as int]),
        RegisterPair::HL,
        spec_wrap_inc(address),
    );
}

/// Law: a load-then-decrement access leaves HL exactly one smaller, wrapping,
/// whenever the address held in HL lies inside the loaded image.
pub proof fn lemma_hl_post_decrement(state: CpuState)
    requires
        spec_in_bounds(state, spec_pair(state.registers, RegisterPair::HL)),
    ensures
        match spec_exec(state, Instruction::LdFromHLDecrement) {
            Some(next) => spec_pair(next.registers, RegisterPair::HL) == spec_wrap_dec(
                spec_pair(state.registers, RegisterPair::HL),
            ),
            None => false,
        },
{
    reveal(spec_exec);
    let address = spec_pair(state.registers, RegisterPair::HL);
    crate::registers::lemma_pair_round_trip(
        spec_set_register(state.registers, Register::A, state.memory[address as int]),
        RegisterPair::HL,
        spec_wrap_dec(address),
    );
}

/// Law: a program counter at or past the end of the loaded image ends the run
/// at once, without error and with the state untouched. In particular a
/// zero-length image terminates immediately, leaving every register and flag
/// at its prior value.
pub proof fn lemma_run_halts_past_end(state: CpuState, fuel: nat)
    requires
        state.memory.len() <= state.program_counter as int,
    ensures
        spec_run(state, fuel) == RunOutcome::Halt(state),
{
}

} // verus!
