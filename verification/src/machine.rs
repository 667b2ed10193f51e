//! The state of the machine: as the bundle of parts that the instruction
//! handlers work on, and as the mathematical value that the contracts speak of.

use vstd::prelude::*;
use crate::config::{CHIP8_MEM_SIZE, CHIP8_TOTAL_KEYS, CHIP8_TOTAL_STACK_DEPTH};
use crate::errors::VMError;
use crate::keyboard::Keyboard;
use crate::opcodes::Signal;
use crate::ram::{initial_memory, RAM};
use crate::registers::{CpuState, Registers};
use crate::screen::{blank_screen, screen_wf, Screen};
use crate::stack::Stack;

verus! {

/// The machine as a mathematical value.
pub struct Machine {
    /// The 4096 bytes of memory.
    pub memory: Seq<u8>,
    /// The register file.
    pub registers: CpuState,
    /// The sixteen slots of the call stack.
    pub stack: Seq<u16>,
    /// For each of the sixteen keys whether it is down.
    pub keys: Seq<bool>,
    /// The pixels of the screen, by column and row.
    pub pixels: Seq<Seq<bool>>,
    /// The key whose release a key-wait instruction is waiting for, if one is.
    pub pending_key: Option<u8>,
}

/// How an instruction ends: with the next state of the machine and a signal
/// to the caller, or with a failure.
pub type Outcome = Result<(Machine, Signal), VMError>;

impl Machine {
    /// Every part has its size and the stack pointer names a slot of the stack.
    pub open spec fn wf(self) -> bool {
        &&& self.memory.len() == CHIP8_MEM_SIZE
        &&& self.registers.wf()
        &&& self.stack.len() == CHIP8_TOTAL_STACK_DEPTH
        &&& self.keys.len() == CHIP8_TOTAL_KEYS
        &&& screen_wf(self.pixels)
    }

    /// The machine as it is built: the font in memory, everything else zero,
    /// off or up.
    pub open spec fn reset() -> Machine {
        Machine {
            memory: initial_memory(),
            registers: CpuState::reset(),
            stack: Seq::new(CHIP8_TOTAL_STACK_DEPTH as nat, |k: int| 0u16),
            keys: Seq::new(CHIP8_TOTAL_KEYS as nat, |k: int| false),
            pixels: blank_screen(),
            pending_key: None,
        }
    }

    /// General register `x`.
    pub open spec fn v(self, x: int) -> u8 {
        self.registers.v[x]
    }

    /// The machine with its register file replaced.
    pub open spec fn with_registers(self, registers: CpuState) -> Machine {
        Machine { registers, ..self }
    }

    /// The outcome of an instruction that leaves the machine as `self` but for
    /// the program counter, which moves `steps` instructions on: it fails where
    /// the program counter would pass the end of memory.
    pub open spec fn advance(self, steps: int, signal: Signal) -> Outcome {
        if self.registers.can_advance(steps) {
            Ok((self.with_registers(self.registers.advance(steps)), signal))
        } else {
            Err(VMError::ProgramCounterOverflow)
        }
    }

    /// The outcome of an instruction that only rewrites the register file and
    /// then moves to the next instruction.
    pub open spec fn next_with(self, registers: CpuState) -> Outcome {
        self.with_registers(registers).advance(1, Signal::NoSignal)
    }

    /// The outcome of a skip instruction: one instruction on, two if `skip`.
    pub open spec fn skip_if(self, skip: bool) -> Outcome {
        self.advance(if skip { 2 } else { 1 }, Signal::NoSignal)
    }
}

/// The parts of the machine together with the instruction that is being
/// executed: what an instruction handler works on.
pub struct VMContext {
    /// The instruction word that is being executed.
    pub opcode: u16,
    /// The call stack.
    pub stack: Stack,
    /// The memory.
    pub memory: RAM,
    /// The register file.
    pub registers: Registers,
    /// The key pad.
    pub keyboard: Keyboard,
    /// The screen.
    pub screen: Screen,
    /// The key whose release a key-wait instruction is waiting for, if one is.
    pub pending_key: Option<u8>,
    /// The description of the instruction that is being executed.
    pub pattern: &'static str,
}

impl View for VMContext {
    type V = Machine;

    open spec fn view(&self) -> Machine {
        Machine {
            memory: self.memory@,
            registers: self.registers@,
            stack: self.stack@,
            keys: self.keyboard@,
            pixels: self.screen@,
            pending_key: self.pending_key,
        }
    }
}

impl VMContext {
    /// The state of a machine in use is well formed.
    pub proof fn lemma_wf(&self)
        requires
            self.registers.well_formed(),
        ensures
            self@.wf(),
    {
        broadcast use {RAM::lemma_len, Stack::lemma_len, Keyboard::lemma_len, Screen::lemma_wf};

    }

    /// Whether a handler that took the context from `self` to `after` and
    /// returned `res` did what `expected` says: on success the machine is in
    /// the expected state and the expected signal is returned, on failure the
    /// expected error is returned and the machine is as it was. Either way the
    /// instruction that is being executed stays the same.
    pub open spec fn handled(self, after: VMContext, res: Result<Signal, VMError>, expected: Outcome) -> bool {
        &&& after.opcode == self.opcode
        &&& after.pattern == self.pattern
        &&& match expected {
            Ok((machine, signal)) => res == Ok::<Signal, VMError>(signal) && after@ == machine,
            Err(e) => res == Err::<Signal, VMError>(e) && after@ == self@,
        }
    }
}

impl Default for VMContext {
    /// The context of a machine as it is built.
    fn default() -> (ctx: VMContext)
        ensures
            ctx@ == Machine::reset(),
            ctx.opcode == 0,
    {
        VMContext {
            opcode: 0,
            stack: Stack::default(),
            memory: RAM::default(),
            registers: Registers::default(),
            keyboard: Keyboard::default(),
            screen: Screen::default(),
            pending_key: None,
            pattern: "",
        }
    }
}

} // verus!
