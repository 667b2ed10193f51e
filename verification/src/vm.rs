//! The execution engine: it owns the machine, fetches the instruction at the
//! program counter, finds its handler in the instruction table, runs it and
//! lets the timers tick.

use vstd::prelude::*;
use crate::config::{CHIP8_MEM_SIZE, CHIP8_PROGRAM_LOAD_ADDRESS, CHIP8_TIMER_PERIOD};
use crate::errors::VMError;
use crate::instructions::run_instruction;
use crate::keyboard::spec_key_event;
use crate::machine::{Machine, VMContext};
use crate::opcodes::{decode, matcher, Signal};
use crate::ram::spec_load_program;
use crate::screen::spec_is_pixel_set;
use crate::semantics::{cycle, fetch_cycle, run, CycleOutcome};
use crate::trace::{cycle_trace, fetch_cycle_trace, run_post_ex_dump, run_pre_ex_dump};

verus! {

/// The virtual machine.
pub struct VM {
    /// The parts of the machine and the instruction that is being executed.
    pub ctx: VMContext,
    /// The trace that the cycles have written and that nobody has taken yet.
    pub trace: String,
}

impl View for VM {
    type V = Machine;

    /// The state of the machine.
    open spec fn view(&self) -> Machine {
        self.ctx@
    }
}

impl VM {
    /// Whether a cycle that took the machine from `self` to `after` and the time
    /// accumulator from `time_before` to `time_after`, and returned `res`, did
    /// what `expected` says and wrote `written` to the trace. A cycle that fails
    /// leaves the machine and the accumulator as they were.
    pub open spec fn cycled(
        self,
        after: VM,
        res: Result<Signal, VMError>,
        time_before: u32,
        time_after: u32,
        expected: CycleOutcome,
        written: Seq<char>,
    ) -> bool {
        &&& after.trace@ == self.trace@ + written
        &&& match expected {
            Ok((machine, signal, time)) => {
                &&& res == Ok::<Signal, VMError>(signal)
                &&& after@ == machine
                &&& time_after == time
            },
            Err(e) => {
                &&& res == Err::<Signal, VMError>(e)
                &&& after@ == self@
                &&& time_after == time_before
            },
        }
    }

    /// A machine with the font in memory and everything else zero.
    pub fn new() -> (vm: VM)
        ensures
            vm@ == Machine::reset(),
            vm@.wf(),
            vm.trace@ == Seq::<char>::empty(),
    {
        let vm = VM { ctx: VMContext::default(), trace: String::new() };
        proof {
            use_type_invariant(&vm.ctx.registers);
            vm.ctx.lemma_wf();
        }
        vm
    }

    /// Hands out the trace that the cycles have written since it was last
    /// taken, and starts a new one.
    pub fn take_trace(&mut self) -> (text: String)
        ensures
            text@ == old(self).trace@,
            final(self).trace@ == Seq::<char>::empty(),
            final(self)@ == old(self)@,
    {
        let mut text = String::new();
        std::mem::swap(&mut self.trace, &mut text);
        text
    }

    /// Copies the program image `buf` to the load address and points the
    /// program counter at it. An image that does not fit is refused and the
    /// machine stays as it was.
    pub fn load_program(&mut self, buf: &[u8]) -> (res: Result<(), VMError>)
        ensures
            final(self).trace@ == old(self).trace@,
            res is Err <==> CHIP8_PROGRAM_LOAD_ADDRESS + buf@.len() > CHIP8_MEM_SIZE,
            match spec_load_program(old(self)@.memory, buf@) {
                Ok(memory) => res is Ok && final(self)@ == (Machine {
                    memory,
                    registers: old(self)@.registers.set_pc(CHIP8_PROGRAM_LOAD_ADDRESS as u16),
                    ..old(self)@
                }),
                Err(e) => res == Err::<(), VMError>(e) && final(self)@ == old(self)@,
            },
    {
        self.ctx.memory.load_program(buf)?;
        self.ctx.registers.set_pc(CHIP8_PROGRAM_LOAD_ADDRESS as u16);
        Ok(())
    }

    /// Tells the machine that the outside key `key` went down. `keymap` says
    /// which key of the pad that is.
    pub fn keyboard_key_down(&mut self, key: i32, keymap: &[(i32, usize)])
        ensures
            final(self).trace@ == old(self).trace@,
            final(self)@ == (Machine {
                keys: spec_key_event(old(self)@.keys, key, keymap@, true),
                ..old(self)@
            }),
    {
        self.ctx.keyboard.key_down(key, keymap)
    }

    /// Tells the machine that the outside key `key` went up. `keymap` says
    /// which key of the pad that is.
    pub fn keyboard_key_up(&mut self, key: i32, keymap: &[(i32, usize)])
        ensures
            final(self).trace@ == old(self).trace@,
            final(self)@ == (Machine {
                keys: spec_key_event(old(self)@.keys, key, keymap@, false),
                ..old(self)@
            }),
    {
        self.ctx.keyboard.key_up(key, keymap)
    }

    /// The state of the pixel at (`x`, `y`).
    pub fn screen_is_pixel_set(&mut self, x: usize, y: usize) -> (res: Result<bool, VMError>)
        ensures
            final(self).trace@ == old(self).trace@,
            res == spec_is_pixel_set(old(self)@.pixels, x as int, y as int),
            final(self)@ == old(self)@,
    {
        self.ctx.screen.is_pixel_set(x, y)
    }

    /// The delay timer.
    pub fn registers_dt(&mut self) -> (dt: u8)
        ensures
            final(self).trace@ == old(self).trace@,
            dt == old(self)@.registers.dt,
            final(self)@ == old(self)@,
    {
        self.ctx.registers.get_dt()
    }

    /// The sound timer: while it is not zero the machine sounds.
    pub fn registers_st(&mut self) -> (st: u8)
        ensures
            final(self).trace@ == old(self).trace@,
            st == old(self)@.registers.st,
            final(self)@ == old(self)@,
    {
        self.ctx.registers.get_st()
    }

    /// Runs one cycle: fetches the instruction word at the program counter and
    /// executes it. `time_acc` is the time that has passed since the timers last
    /// ticked; once it has passed the timer period, a successful cycle lets them
    /// tick and sets it to zero.
    ///
    /// Whatever random byte the instruction draws, the cycle ends as
    /// [`fetch_cycle`] says; a cycle that fails changes nothing.
    pub fn exec_next_opcode(&mut self, debug_dump: bool, time_acc: &mut u32) -> (res: Result<
        Signal,
        VMError,
    >)
        ensures
            final(self)@.wf(),
            exists|rnd: u8|
                old(self).cycled(
                    *final(self),
                    res,
                    *old(time_acc),
                    *final(time_acc),
                    #[trigger] fetch_cycle(old(self)@, rnd, *old(time_acc)),
                    fetch_cycle_trace(debug_dump, old(self)@, rnd),
                ),
    {
        match self.ctx.memory.get_opcode(self.ctx.registers.get_pc() as usize) {
            Ok(binary_opcode) => {
                let res = self.exec_opcode(binary_opcode, debug_dump, time_acc);
                proof {
                    let drawn = choose|rnd: u8|
                        old(self).cycled(
                            *self,
                            res,
                            *old(time_acc),
                            *time_acc,
                            #[trigger] cycle(old(self)@, binary_opcode, rnd, *old(time_acc)),
                            cycle_trace(debug_dump, old(self)@, binary_opcode, rnd),
                        );
                    assert(old(self).cycled(
                        *self,
                        res,
                        *old(time_acc),
                        *time_acc,
                        fetch_cycle(old(self)@, drawn, *old(time_acc)),
                        fetch_cycle_trace(debug_dump, old(self)@, drawn),
                    ));
                }
                res
            },
            Err(e) => {
                proof {
                    use_type_invariant(&self.ctx.registers);
                    self.ctx.lemma_wf();
                }
                assert(self.trace@ =~= old(self).trace@ + Seq::<char>::empty());
                assert(old(self).cycled(
                    *self,
                    Err(e),
                    *old(time_acc),
                    *time_acc,
                    fetch_cycle(old(self)@, 0u8, *old(time_acc)),
                    fetch_cycle_trace(debug_dump, old(self)@, 0u8),
                ));
                Err(e)
            },
        }
    }

    /// Runs one cycle on the instruction word `binary_opcode`: finds the first
    /// entry of the instruction table that matches it and runs its handler; a
    /// word that no entry matches is an error. Then the timers tick as in
    /// [`VM::exec_next_opcode`].
    ///
    /// Whatever random byte the instruction draws, the cycle ends as [`cycle`]
    /// says; a cycle that fails changes nothing.
    pub fn exec_opcode(&mut self, binary_opcode: u16, debug_dump: bool, time_acc: &mut u32) -> (res:
        Result<Signal, VMError>)
        ensures
            final(self)@.wf(),
            exists|rnd: u8|
                old(self).cycled(
                    *final(self),
                    res,
                    *old(time_acc),
                    *final(time_acc),
                    #[trigger] cycle(old(self)@, binary_opcode, rnd, *old(time_acc)),
                    cycle_trace(debug_dump, old(self)@, binary_opcode, rnd),
                ),
    {
        proof {
            use_type_invariant(&self.ctx.registers);
            self.ctx.lemma_wf();
        }
        let index: usize = match decode(binary_opcode) {
            Some(index) => index,
            None => {
                assert(self.trace@ =~= old(self).trace@ + Seq::<char>::empty());
                assert(old(self).cycled(
                    *self,
                    Err(VMError::InvalidOpcode(binary_opcode)),
                    *old(time_acc),
                    *time_acc,
                    cycle(old(self)@, binary_opcode, 0u8, *old(time_acc)),
                    cycle_trace(debug_dump, old(self)@, binary_opcode, 0u8),
                ));
                return Err(VMError::InvalidOpcode(binary_opcode));
            },
        };
        let opcode_matcher = matcher(index);
        self.build_vmcontext(binary_opcode, opcode_matcher.desc());

        let ghost built = self.ctx;

        if debug_dump {
            let before = run_pre_ex_dump(opcode_matcher.pre_ex_dump(), &self.ctx);
            self.trace.append(before.as_str());
        }

        // Execute the instructions of the opcode.
        let ran = run_instruction(opcode_matcher.instructions(), &mut self.ctx);
        let ghost drawn = choose|rnd: u8|
            built.handled(
                self.ctx,
                ran,
                #[trigger] run(opcode_matcher.instructions, built@, built.opcode, rnd),
            );
        proof {
            use_type_invariant(&self.ctx.registers);
            self.ctx.lemma_wf();
        }
        let signal: Signal = match ran {
            Ok(signal) => signal,
            Err(e) => {
                assert(self.trace@ =~= old(self).trace@ + cycle_trace(
                    debug_dump,
                    old(self)@,
                    binary_opcode,
                    drawn,
                ));
                assert(old(self).cycled(
                    *self,
                    Err(e),
                    *old(time_acc),
                    *time_acc,
                    cycle(old(self)@, binary_opcode, drawn, *old(time_acc)),
                    cycle_trace(debug_dump, old(self)@, binary_opcode, drawn),
                ));
                return Err(e);
            },
        };

        if debug_dump {
            let after = run_post_ex_dump(opcode_matcher.post_ex_dump(), &self.ctx);
            self.trace.append(after.as_str());
        }
        assert(self.trace@ =~= old(self).trace@ + cycle_trace(
            debug_dump,
            old(self)@,
            binary_opcode,
            drawn,
        ));

        self.update_timers(time_acc);
        proof {
            use_type_invariant(&self.ctx.registers);
            self.ctx.lemma_wf();
        }
        assert(old(self).cycled(
            *self,
            Ok(signal),
            *old(time_acc),
            *time_acc,
            cycle(old(self)@, binary_opcode, drawn, *old(time_acc)),
            cycle_trace(debug_dump, old(self)@, binary_opcode, drawn),
        ));
        Ok(signal)
    }

    /// Lets both timers tick, and starts the time accumulator again at zero, if
    /// it has passed the timer period.
    pub fn update_timers(&mut self, time_acc: &mut u32)
        ensures
            final(self).trace@ == old(self).trace@,
            *old(time_acc) > CHIP8_TIMER_PERIOD ==> {
                &&& *final(time_acc) == 0
                &&& final(self)@ == old(self)@.with_registers(old(self)@.registers.tick())
            },
            *old(time_acc) <= CHIP8_TIMER_PERIOD ==> {
                &&& *final(time_acc) == *old(time_acc)
                &&& final(self)@ == old(self)@
            },
    {
        if *time_acc > CHIP8_TIMER_PERIOD {
            if self.registers_dt() > 0 {
                self.registers_dec_dt();
            }
            if self.registers_st() > 0 {
                self.registers_dec_st();
            }
            *time_acc = 0;
        }
    }

    /// Makes `binary_opcode` the instruction that is being executed.
    pub fn build_vmcontext(&mut self, binary_opcode: u16, pattern: &'static str)
        ensures
            final(self).trace@ == old(self).trace@,
            final(self)@ == old(self)@,
            final(self).ctx.opcode == binary_opcode,
            final(self).ctx.pattern == pattern,
    {
        self.ctx.opcode = binary_opcode;
        self.ctx.pattern = pattern;
    }

    /// Lets the delay timer tick once; at zero it stays.
    pub fn registers_dec_dt(&mut self)
        ensures
            final(self).trace@ == old(self).trace@,
            final(self)@ == old(self)@.with_registers(
                old(self)@.registers.set_dt(old(self)@.registers.tick().dt),
            ),
    {
        self.ctx.registers.dec_dt();
    }

    /// Lets the sound timer tick once; at zero it stays.
    pub fn registers_dec_st(&mut self)
        ensures
            final(self).trace@ == old(self).trace@,
            final(self)@ == old(self)@.with_registers(
                old(self)@.registers.set_st(old(self)@.registers.tick().st),
            ),
    {
        self.ctx.registers.dec_st();
    }
}

impl Default for VM {
    /// A machine with the font in memory and everything else zero.
    fn default() -> (vm: VM)
        ensures
            vm@ == Machine::reset(),
    {
        VM::new()
    }
}

} // verus!
