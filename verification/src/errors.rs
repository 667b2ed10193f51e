//! The failures the machine reports to its caller.

use vstd::prelude::*;
use crate::text::{decimal_digits, prefixed_hex, push_decimal, push_prefixed_hex};

verus! {

/// Every way in which an operation of the machine can fail.
#[derive(Debug, Clone, Copy, PartialEq, Eq, Structural)]
pub enum VMError {
    /// A memory access at an address of 4096 or more.
    MemoryOutOfBounds(usize),
    /// A stack access at a slot of 16 or more.
    StackOutOfBounds(usize),
    /// The stack pointer would leave the range of the stack.
    StackOverflow,
    /// An outside key code that the key map does not list.
    KeyMapNotFound,
    /// A write into the reserved low region of memory.
    ReservedMemoryWriteAttempt,
    /// A pixel query outside of the screen.
    ScreenOutOfBounds(usize, usize),
    /// A program image that does not fit between the load address and the end of memory.
    ProgramSizeOverflow,
    /// The program counter would pass the end of memory.
    ProgramCounterOverflow,
    /// The program counter would drop below zero.
    ProgramCounterUnderflow,
    /// An instruction word that no entry of the instruction table matches.
    InvalidOpcode(u16),
}

impl VMError {
    /// The message of the failure, for a person to read.
    pub open spec fn spec_message(self) -> Seq<char> {
        match self {
            VMError::MemoryOutOfBounds(index) => "invalid memory index: "@ + decimal_digits(
                index as int,
            ),
            VMError::StackOutOfBounds(sp) => "invalid stack index: "@ + decimal_digits(sp as int),
            VMError::StackOverflow => "impossible to increment SP register, stackoverflow"@,
            VMError::KeyMapNotFound => "key map not found"@,
            VMError::ReservedMemoryWriteAttempt => "reserved memory write attempt (0x000 to 0x1FF)"@,
            VMError::ScreenOutOfBounds(x, y) => "screen pixel set/unset out of bounds: x="@
                + decimal_digits(x as int) + " y="@ + decimal_digits(y as int),
            VMError::ProgramSizeOverflow => "the program size si to big to be loaded in memmory"@,
            VMError::ProgramCounterOverflow => "the PC register overflow"@,
            VMError::ProgramCounterUnderflow => "the PC register underflow"@,
            VMError::InvalidOpcode(opcode) => "invalid opcode: "@ + prefixed_hex(opcode as int, 4),
        }
    }

    /// The message of the failure, for a person to read.
    pub fn message(&self) -> (text: String)
        ensures
            text@ == self.spec_message(),
    {
        let mut text = String::new();
        match *self {
            VMError::MemoryOutOfBounds(index) => {
                text.append("invalid memory index: ");
                push_decimal(&mut text, index);
            },
            VMError::StackOutOfBounds(sp) => {
                text.append("invalid stack index: ");
                push_decimal(&mut text, sp);
            },
            VMError::StackOverflow => {
                text.append("impossible to increment SP register, stackoverflow");
            },
            VMError::KeyMapNotFound => {
                text.append("key map not found");
            },
            VMError::ReservedMemoryWriteAttempt => {
                text.append("reserved memory write attempt (0x000 to 0x1FF)");
            },
            VMError::ScreenOutOfBounds(x, y) => {
                text.append("screen pixel set/unset out of bounds: x=");
                push_decimal(&mut text, x);
                text.append(" y=");
                push_decimal(&mut text, y);
            },
            VMError::ProgramSizeOverflow => {
                text.append("the program size si to big to be loaded in memmory");
            },
            VMError::ProgramCounterOverflow => {
                text.append("the PC register overflow");
            },
            VMError::ProgramCounterUnderflow => {
                text.append("the PC register underflow");
            },
            VMError::InvalidOpcode(opcode) => {
                text.append("invalid opcode: ");
                push_prefixed_hex(&mut text, opcode as u32, 4);
            },
        }
        assert(text@ =~= self.spec_message());
        text
    }
}

} // verus!
