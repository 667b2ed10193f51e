//! The call stack: sixteen return addresses, addressed by slot.

use vstd::prelude::*;
use crate::config::CHIP8_TOTAL_STACK_DEPTH;
use crate::errors::VMError;
use crate::text::{prefixed_hex, push_prefixed_hex};

verus! {

/// The stack `s` with `value` stored in slot `sp`.
pub open spec fn spec_set_at(s: Seq<u16>, sp: int, value: u16) -> Result<Seq<u16>, VMError> {
    if 0 <= sp < CHIP8_TOTAL_STACK_DEPTH {
        Ok(s.update(sp, value))
    } else {
        Err(VMError::StackOutOfBounds(sp as usize))
    }
}

/// The address held in slot `sp` of the stack `s`.
pub open spec fn spec_get_at(s: Seq<u16>, sp: int) -> Result<u16, VMError> {
    if 0 <= sp < CHIP8_TOTAL_STACK_DEPTH {
        Ok(s[sp])
    } else {
        Err(VMError::StackOutOfBounds(sp as usize))
    }
}

/// The first `count` slots of the stack in a trace.
pub open spec fn slots_text(s: Seq<u16>, count: int) -> Seq<char>
    decreases count,
{
    if count <= 0 {
        Seq::empty()
    } else {
        slots_text(s, count - 1) + prefixed_hex(s[count - 1] as int, 4) + " "@
    }
}

/// The stack in a trace: its slots in hexadecimal, in brackets, on one line.
pub open spec fn spec_dump(s: Seq<u16>) -> Seq<char> {
    "["@ + slots_text(s, CHIP8_TOTAL_STACK_DEPTH as int) + "]\n"@
}

/// The call stack of the machine. It knows nothing of pushing and popping: the
/// stack pointer lives in the register file.
pub struct Stack {
    stack: [u16; CHIP8_TOTAL_STACK_DEPTH],
}

impl View for Stack {
    type V = Seq<u16>;

    /// The sixteen slots, slot 0 first.
    closed spec fn view(&self) -> Seq<u16> {
        self.stack@
    }
}

impl Stack {
    /// Every stack has sixteen slots.
    pub broadcast proof fn lemma_len(&self)
        ensures
            #[trigger] self@.len() == CHIP8_TOTAL_STACK_DEPTH,
    {
    }

    /// Stores `value` in slot `sp`.
    pub fn set_at(&mut self, sp: u8, value: u16) -> (res: Result<(), VMError>)
        ensures
            match spec_set_at(old(self)@, sp as int, value) {
                Ok(s) => res is Ok && final(self)@ == s,
                Err(e) => res == Err::<(), VMError>(e) && final(self)@ == old(self)@,
            },
    {
        if sp as usize >= CHIP8_TOTAL_STACK_DEPTH {
            return Err(VMError::StackOutOfBounds(sp as usize));
        }
        self.stack[sp as usize] = value;
        Ok(())
    }

    /// The address held in slot `sp`.
    pub fn get_at(&self, sp: u8) -> (res: Result<u16, VMError>)
        ensures
            res == spec_get_at(self@, sp as int),
    {
        if sp as usize >= CHIP8_TOTAL_STACK_DEPTH {
            return Err(VMError::StackOutOfBounds(sp as usize));
        }
        Ok(self.stack[sp as usize])
    }
}

impl Stack {
    /// The stack as a trace shows it: its slots in hexadecimal, in brackets, on
    /// one line.
    pub fn dump(&self) -> (text: String)
        ensures
            text@ == spec_dump(self@),
    {
        let mut text = String::new();
        text.append("[");
        let mut slot: usize = 0;
        while slot < CHIP8_TOTAL_STACK_DEPTH
            invariant
                slot <= CHIP8_TOTAL_STACK_DEPTH,
                text@ == "["@ + slots_text(self@, slot as int),
            decreases CHIP8_TOTAL_STACK_DEPTH - slot,
        {
            push_prefixed_hex(&mut text, self.stack[slot] as u32, 4);
            text.append(" ");
            assert(text@ =~= "["@ + slots_text(self@, slot as int + 1));
            slot += 1;
        }
        text.append("]\n");
        text
    }
}

impl Default for Stack {
    /// A stack whose slots all hold zero.
    fn default() -> (s: Stack)
        ensures
            s@ == Seq::new(CHIP8_TOTAL_STACK_DEPTH as nat, |k: int| 0u16),
    {
        let s = Stack { stack: [0x0000u16; CHIP8_TOTAL_STACK_DEPTH] };
        assert(s.stack@ =~= Seq::new(CHIP8_TOTAL_STACK_DEPTH as nat, |k: int| 0u16));
        s
    }
}

} // verus!
