//! Fixed dimensions of the machine.

use vstd::prelude::*;

verus! {

/// Number of addressable bytes.
pub const CHIP8_MEM_SIZE: usize = 4096;

/// Last address of the reserved low region, which rejects writes.
pub const CHIP8_MEM_RESEVED_LIMIT: usize = 0x1ff;

/// Number of return addresses the call stack holds.
pub const CHIP8_TOTAL_STACK_DEPTH: usize = 16;

/// Address at which a program image is placed and at which execution starts.
pub const CHIP8_PROGRAM_LOAD_ADDRESS: usize = 0x200;

/// Number of keys of the keypad.
pub const CHIP8_TOTAL_KEYS: usize = 16;

/// Number of pixel columns.
pub const CHIP8_SCREEN_WIDTH: usize = 64;

/// Number of pixel rows.
pub const CHIP8_SCREEN_HEIGHT: usize = 32;

/// Number of entries of the instruction table.
pub const CHIP8_TOTAL_STANDARD_OPCODES: usize = 35;

/// Number of general purpose registers.
pub const CHIP8_TOTAL_REGISTERS: usize = 16;

/// Index of the register that doubles as carry, borrow and collision flag.
pub const CHIP8_FLAG_REGISTER: usize = 0xf;

/// Bytes of one glyph of the built-in font.
pub const CHIP8_GLYPH_SIZE: usize = 5;

/// Bytes of the whole built-in font.
pub const CHIP8_FONT_SIZE: usize = 80;

/// Width of an instruction in bytes.
pub const CHIP8_OPCODE_SIZE: u16 = 2;

/// Value the time accumulator has to exceed before the timers tick.
pub const CHIP8_TIMER_PERIOD: u32 = 60;

} // verus!
