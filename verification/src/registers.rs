//! The register file: sixteen byte registers, the index register, both timers,
//! the program counter and the stack pointer.

use vstd::prelude::*;
use crate::config::{
    CHIP8_FLAG_REGISTER, CHIP8_MEM_SIZE, CHIP8_OPCODE_SIZE, CHIP8_TOTAL_REGISTERS,
    CHIP8_TOTAL_STACK_DEPTH,
};
use crate::errors::VMError;
use crate::text::{digit, fixed_digits, push_char, push_fixed, spec_digit};

verus! {

/// The register file as a mathematical value.
pub struct CpuState {
    /// The general purpose registers V0 to VF.
    pub v: Seq<u8>,
    /// The index register.
    pub i: u16,
    /// The delay timer.
    pub dt: u8,
    /// The sound timer.
    pub st: u8,
    /// The program counter.
    pub pc: u16,
    /// The stack pointer.
    pub sp: u8,
}

impl CpuState {
    /// There are sixteen general registers and the stack pointer names a slot of the stack.
    pub open spec fn wf(self) -> bool {
        &&& self.v.len() == CHIP8_TOTAL_REGISTERS
        &&& self.sp < CHIP8_TOTAL_STACK_DEPTH
    }

    /// All registers zero.
    pub open spec fn reset() -> CpuState {
        CpuState { v: Seq::new(CHIP8_TOTAL_REGISTERS as nat, |x: int| 0u8), i: 0, dt: 0, st: 0, pc: 0, sp: 0 }
    }

    /// The state with register `x` set to `value`.
    pub open spec fn set_v(self, x: int, value: u8) -> CpuState {
        CpuState { v: self.v.update(x, value), ..self }
    }

    /// The state with the flag register set to 1 if `on`, to 0 if not.
    pub open spec fn set_flag(self, on: bool) -> CpuState {
        self.set_v(CHIP8_FLAG_REGISTER as int, if on { 1u8 } else { 0u8 })
    }

    /// The state with the index register set to `value`.
    pub open spec fn set_i(self, value: u16) -> CpuState {
        CpuState { i: value, ..self }
    }

    /// The state with the program counter set to `value`.
    pub open spec fn set_pc(self, value: u16) -> CpuState {
        CpuState { pc: value, ..self }
    }

    /// The state with the stack pointer set to `value`.
    pub open spec fn set_sp(self, value: u8) -> CpuState {
        CpuState { sp: value, ..self }
    }

    /// The state with the delay timer set to `value`.
    pub open spec fn set_dt(self, value: u8) -> CpuState {
        CpuState { dt: value, ..self }
    }

    /// The state with the sound timer set to `value`.
    pub open spec fn set_st(self, value: u8) -> CpuState {
        CpuState { st: value, ..self }
    }

    /// Whether the program counter can move `steps` instructions on without
    /// passing the end of memory. It may come to stand right behind the last
    /// byte, where nothing can be fetched.
    pub open spec fn can_advance(self, steps: int) -> bool {
        self.pc + steps * CHIP8_OPCODE_SIZE <= CHIP8_MEM_SIZE
    }

    /// The state with the program counter moved `steps` instructions on.
    pub open spec fn advance(self, steps: int) -> CpuState {
        self.set_pc((self.pc + steps * CHIP8_OPCODE_SIZE) as u16)
    }

    /// The program counter moved to the next instruction, refused where that
    /// would pass the end of memory.
    pub open spec fn inc_pc(self) -> Result<CpuState, VMError> {
        if self.can_advance(1) {
            Ok(self.advance(1))
        } else {
            Err(VMError::ProgramCounterOverflow)
        }
    }

    /// The program counter moved past the next instruction, refused where that
    /// would pass the end of memory.
    pub open spec fn skip_pc(self) -> Result<CpuState, VMError> {
        if self.can_advance(2) {
            Ok(self.advance(2))
        } else {
            Err(VMError::ProgramCounterOverflow)
        }
    }

    /// The program counter moved to the previous instruction, refused where
    /// there is none.
    pub open spec fn dec_pc(self) -> Result<CpuState, VMError> {
        if self.pc >= CHIP8_OPCODE_SIZE {
            Ok(self.set_pc((self.pc - CHIP8_OPCODE_SIZE) as u16))
        } else {
            Err(VMError::ProgramCounterUnderflow)
        }
    }

    /// The stack pointer moved one slot up, refused where it would leave the stack.
    pub open spec fn inc_sp(self) -> Result<CpuState, VMError> {
        if self.sp + 1 < CHIP8_TOTAL_STACK_DEPTH {
            Ok(self.set_sp((self.sp + 1) as u8))
        } else {
            Err(VMError::StackOverflow)
        }
    }

    /// The stack pointer moved one slot down, refused where it would leave the stack.
    pub open spec fn dec_sp(self) -> Result<CpuState, VMError> {
        if 0 <= self.sp - 1 < CHIP8_TOTAL_STACK_DEPTH {
            Ok(self.set_sp((self.sp - 1) as u8))
        } else {
            Err(VMError::StackOverflow)
        }
    }

    /// Both timers one tick on: each drops by one and stays at zero once there.
    pub open spec fn tick(self) -> CpuState {
        CpuState {
            dt: if self.dt > 0 { (self.dt - 1) as u8 } else { 0 },
            st: if self.st > 0 { (self.st - 1) as u8 } else { 0 },
            ..self
        }
    }
}

/// The value of a byte register in a trace: in decimal, hexadecimal and binary.
pub open spec fn byte_fields(value: u8) -> Seq<char> {
    ": dec:   "@ + fixed_digits(value as int, 10, 3) + ", hex:   "@ + fixed_digits(
        value as int,
        16,
        2,
    ) + ", bin:         "@ + fixed_digits(value as int, 2, 8) + "\n"@
}

/// The value of a sixteen bit register in a trace: in decimal, hexadecimal and
/// binary.
pub open spec fn word_fields(value: u16) -> Seq<char> {
    ": dec: "@ + fixed_digits(value as int, 10, 5) + ", hex: "@ + fixed_digits(
        value as int,
        16,
        4,
    ) + ", bin: "@ + fixed_digits(value as int, 2, 16) + "\n"@
}

/// The lines of a trace for the first `count` general registers.
pub open spec fn v_lines(v: Seq<u8>, count: int) -> Seq<char>
    decreases count,
{
    if count <= 0 {
        Seq::empty()
    } else {
        v_lines(v, count - 1) + "V"@ + seq![spec_digit(count - 1)] + byte_fields(v[count - 1])
    }
}

impl CpuState {
    /// The register file in a trace: one line for each register.
    pub open spec fn dump(self) -> Seq<char> {
        v_lines(self.v, CHIP8_TOTAL_REGISTERS as int) + "DT"@ + byte_fields(self.dt) + "ST"@
            + byte_fields(self.st) + "SP"@ + byte_fields(self.sp) + "I "@ + word_fields(self.i)
            + "PC"@ + word_fields(self.pc)
    }
}

/// Appends the value of a byte register, as a trace shows it, to `out`.
fn push_byte_fields(out: &mut String, value: u8)
    ensures
        final(out)@ == old(out)@ + byte_fields(value),
{
    out.append(": dec:   ");
    push_fixed(out, value as u32, 10, 3);
    out.append(", hex:   ");
    push_fixed(out, value as u32, 16, 2);
    out.append(", bin:         ");
    push_fixed(out, value as u32, 2, 8);
    out.append("\n");
    assert(out@ =~= old(out)@ + byte_fields(value));
}

/// Appends the value of a sixteen bit register, as a trace shows it, to `out`.
fn push_word_fields(out: &mut String, value: u16)
    ensures
        final(out)@ == old(out)@ + word_fields(value),
{
    out.append(": dec: ");
    push_fixed(out, value as u32, 10, 5);
    out.append(", hex: ");
    push_fixed(out, value as u32, 16, 4);
    out.append(", bin: ");
    push_fixed(out, value as u32, 2, 16);
    out.append("\n");
    assert(out@ =~= old(out)@ + word_fields(value));
}

/// The register file of the machine.
pub struct Registers {
    v: [u8; CHIP8_TOTAL_REGISTERS],
    i: u16,
    dt: u8,
    st: u8,
    pc: u16,
    sp: u8,
}

impl View for Registers {
    type V = CpuState;

    closed spec fn view(&self) -> CpuState {
        CpuState { v: self.v@, i: self.i, dt: self.dt, st: self.st, pc: self.pc, sp: self.sp }
    }
}

impl Registers {
    /// Every register file in use is well formed.
    #[verifier::type_invariant]
    pub open spec fn well_formed(&self) -> bool {
        self@.wf()
    }

    /// The check behind both moves of the stack pointer: `sp` names a slot of the stack.
    pub fn validate_sp_in_bounds(sp: i16) -> (res: Result<(), VMError>)
        ensures
            res is Ok <==> 0 <= sp < CHIP8_TOTAL_STACK_DEPTH,
            res is Err ==> res == Err::<(), VMError>(VMError::StackOverflow),
    {
        if 0 <= sp && sp < CHIP8_TOTAL_STACK_DEPTH as i16 {
            return Ok(());
        }
        Err(VMError::StackOverflow)
    }

    /// Moves the stack pointer one slot up.
    pub fn inc_sp(&mut self) -> (res: Result<(), VMError>)
        ensures
            match old(self)@.inc_sp() {
                Ok(s) => res is Ok && final(self)@ == s,
                Err(e) => res == Err::<(), VMError>(e) && final(self)@ == old(self)@,
            },
    {
        proof {
            use_type_invariant(&*self);
        }
        Self::validate_sp_in_bounds(self.sp as i16 + 1)?;
        self.sp += 1;
        Ok(())
    }

    /// Moves the stack pointer one slot down.
    pub fn dec_sp(&mut self) -> (res: Result<(), VMError>)
        ensures
            match old(self)@.dec_sp() {
                Ok(s) => res is Ok && final(self)@ == s,
                Err(e) => res == Err::<(), VMError>(e) && final(self)@ == old(self)@,
            },
    {
        proof {
            use_type_invariant(&*self);
        }
        Self::validate_sp_in_bounds(self.sp as i16 - 1)?;
        self.sp -= 1;
        Ok(())
    }

    /// Lets the delay timer tick once; at zero it stays.
    pub fn dec_dt(&mut self)
        ensures
            final(self)@ == old(self)@.set_dt(old(self)@.tick().dt),
    {
        proof {
            use_type_invariant(&*self);
        }
        if self.dt > 0 {
            self.dt -= 1;
        }
    }

    /// Lets the sound timer tick once; at zero it stays.
    pub fn dec_st(&mut self)
        ensures
            final(self)@ == old(self)@.set_st(old(self)@.tick().st),
    {
        proof {
            use_type_invariant(&*self);
        }
        if self.st > 0 {
            self.st -= 1;
        }
    }

    /// Sets the program counter.
    pub fn set_pc(&mut self, value: u16)
        ensures
            final(self)@ == old(self)@.set_pc(value),
    {
        proof {
            use_type_invariant(&*self);
        }
        self.pc = value;
    }

    /// The program counter.
    pub fn get_pc(&self) -> (pc: u16)
        ensures
            pc == self@.pc,
    {
        self.pc
    }

    /// The address of the next instruction, which must not pass the end of memory.
    pub fn next_pc(&self) -> (res: Result<u16, VMError>)
        ensures
            match self@.inc_pc() {
                Ok(s) => res == Ok::<u16, VMError>(s.pc),
                Err(e) => res == Err::<u16, VMError>(e),
            },
    {
        if self.pc > CHIP8_MEM_SIZE as u16 - CHIP8_OPCODE_SIZE {
            return Err(VMError::ProgramCounterOverflow);
        }
        Ok(self.pc + CHIP8_OPCODE_SIZE)
    }

    /// Moves the program counter past the next instruction.
    pub fn skip_pc(&mut self) -> (res: Result<(), VMError>)
        ensures
            match old(self)@.skip_pc() {
                Ok(s) => res is Ok && final(self)@ == s,
                Err(e) => res == Err::<(), VMError>(e) && final(self)@ == old(self)@,
            },
    {
        proof {
            use_type_invariant(&*self);
        }
        if self.pc > CHIP8_MEM_SIZE as u16 - 2 * CHIP8_OPCODE_SIZE {
            return Err(VMError::ProgramCounterOverflow);
        }
        self.pc += 2 * CHIP8_OPCODE_SIZE;
        Ok(())
    }

    /// Moves the program counter to the next instruction.
    pub fn inc_pc(&mut self) -> (res: Result<(), VMError>)
        ensures
            match old(self)@.inc_pc() {
                Ok(s) => res is Ok && final(self)@ == s,
                Err(e) => res == Err::<(), VMError>(e) && final(self)@ == old(self)@,
            },
    {
        proof {
            use_type_invariant(&*self);
        }
        if self.pc > CHIP8_MEM_SIZE as u16 - CHIP8_OPCODE_SIZE {
            return Err(VMError::ProgramCounterOverflow);
        }
        self.pc += CHIP8_OPCODE_SIZE;
        Ok(())
    }

    /// Moves the program counter to the previous instruction.
    pub fn dec_pc(&mut self) -> (res: Result<(), VMError>)
        ensures
            match old(self)@.dec_pc() {
                Ok(s) => res is Ok && final(self)@ == s,
                Err(e) => res == Err::<(), VMError>(e) && final(self)@ == old(self)@,
            },
    {
        proof {
            use_type_invariant(&*self);
        }
        if self.pc < CHIP8_OPCODE_SIZE {
            return Err(VMError::ProgramCounterUnderflow);
        }
        self.pc -= CHIP8_OPCODE_SIZE;
        Ok(())
    }

    /// Sets general register `index`.
    pub fn set_v_register(&mut self, index: usize, value: u8)
        requires
            index < CHIP8_TOTAL_REGISTERS,
        ensures
            final(self)@ == old(self)@.set_v(index as int, value),
    {
        proof {
            use_type_invariant(&*self);
        }
        self.v[index] = value;
    }

    /// General register `index`.
    pub fn get_v_register(&self, index: usize) -> (value: u8)
        requires
            index < CHIP8_TOTAL_REGISTERS,
        ensures
            value == self@.v[index as int],
    {
        self.v[index]
    }

    /// All sixteen general registers, V0 first.
    pub fn v_registers(&self) -> (all: &[u8; 16])
        ensures
            all@ == self@.v,
    {
        &self.v
    }

    /// Raises the flag: VF becomes 1.
    pub fn set_vf(&mut self)
        ensures
            final(self)@ == old(self)@.set_flag(true),
    {
        proof {
            use_type_invariant(&*self);
        }
        self.v[CHIP8_FLAG_REGISTER] = 1;
    }

    /// Clears the flag: VF becomes 0.
    pub fn unset_vf(&mut self)
        ensures
            final(self)@ == old(self)@.set_flag(false),
    {
        proof {
            use_type_invariant(&*self);
        }
        self.v[CHIP8_FLAG_REGISTER] = 0;
    }

    /// The flag register VF.
    pub fn get_vf(&self) -> (flag: u8)
        ensures
            flag == self@.v[CHIP8_FLAG_REGISTER as int],
    {
        self.v[CHIP8_FLAG_REGISTER]
    }

    /// Sets the index register.
    pub fn set_i(&mut self, value: u16)
        ensures
            final(self)@ == old(self)@.set_i(value),
    {
        proof {
            use_type_invariant(&*self);
        }
        self.i = value;
    }

    /// The index register.
    pub fn get_i(&self) -> (i: u16)
        ensures
            i == self@.i,
    {
        self.i
    }

    /// The delay timer.
    pub fn get_dt(&self) -> (dt: u8)
        ensures
            dt == self@.dt,
    {
        self.dt
    }

    /// Sets the delay timer.
    pub fn set_dt(&mut self, value: u8)
        ensures
            final(self)@ == old(self)@.set_dt(value),
    {
        proof {
            use_type_invariant(&*self);
        }
        self.dt = value;
    }

    /// The stack pointer, which always names a slot of the stack.
    pub fn get_sp(&self) -> (sp: u8)
        ensures
            sp == self@.sp,
            self@.wf(),
    {
        proof {
            use_type_invariant(self);
        }
        self.sp
    }

    /// Sets the sound timer.
    pub fn set_st(&mut self, value: u8)
        ensures
            final(self)@ == old(self)@.set_st(value),
    {
        proof {
            use_type_invariant(&*self);
        }
        self.st = value;
    }

    /// The sound timer.
    pub fn get_st(&self) -> (st: u8)
        ensures
            st == self@.st,
    {
        self.st
    }
}

impl Registers {
    /// The register file as a trace shows it: one line for each register, with
    /// its value in decimal, hexadecimal and binary.
    pub fn dump(&self) -> (text: String)
        ensures
            text@ == self@.dump(),
    {
        let mut text = String::new();
        let mut i: usize = 0;
        while i < CHIP8_TOTAL_REGISTERS
            invariant
                i <= CHIP8_TOTAL_REGISTERS,
                text@ == v_lines(self@.v, i as int),
            decreases CHIP8_TOTAL_REGISTERS - i,
        {
            let ghost before = text@;
            text.append("V");
            push_char(&mut text, digit(i as u32));
            push_byte_fields(&mut text, self.v[i]);
            assert(text@ =~= before + "V"@ + seq![spec_digit(i as int)] + byte_fields(
                self@.v[i as int],
            ));
            i += 1;
        }
        text.append("DT");
        push_byte_fields(&mut text, self.dt);
        text.append("ST");
        push_byte_fields(&mut text, self.st);
        text.append("SP");
        push_byte_fields(&mut text, self.sp);
        text.append("I ");
        push_word_fields(&mut text, self.i);
        text.append("PC");
        push_word_fields(&mut text, self.pc);
        assert(text@ =~= self@.dump());
        text
    }
}

impl Default for Registers {
    /// A register file with every register zero.
    fn default() -> (r: Registers)
        ensures
            r@ == CpuState::reset(),
    {
        let r = Registers { v: [0u8; CHIP8_TOTAL_REGISTERS], i: 0, dt: 0, st: 0, pc: 0, sp: 0 };
        assert(r.v@ =~= CpuState::reset().v);
        r
    }
}

} // verus!
