//! A virtual machine for the CHIP-8 instruction set: 4 KiB of memory, sixteen
//! byte registers, a sixteen level call stack, a 64 by 32 monochrome screen, a
//! sixteen key pad and two countdown timers.
//!
//! Every operation is specified over a mathematical model of the machine
//! ([`machine::Machine`]) and proved against it.

pub mod bcd;
pub mod config;
pub mod errors;
pub mod instructions;
pub mod keyboard;
pub mod laws;
pub mod machine;
pub mod opcodes;
pub mod ram;
pub mod registers;
pub mod screen;
pub mod semantics;
pub mod stack;
pub mod text;
pub mod trace;
pub mod vm;

pub use errors::VMError;
pub use machine::VMContext;
pub use opcodes::Signal;
pub use vm::VM;
