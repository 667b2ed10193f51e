//! What each instruction does, as a function from the state of the machine and
//! the instruction word to the outcome.
//!
//! An instruction that fails changes nothing: the state after a failure is the
//! state before the instruction.

use vstd::prelude::*;
use crate::bcd::spec_bcd;
use crate::config::{CHIP8_GLYPH_SIZE, CHIP8_TIMER_PERIOD, CHIP8_TOTAL_KEYS, CHIP8_TOTAL_REGISTERS};
use crate::errors::VMError;
use crate::keyboard::spec_is_key_down;
use crate::machine::{Machine, Outcome};
use crate::opcodes::{
    spec_decode, spec_kk_value, spec_nbytes_value, spec_nnn_value, spec_vx_index, spec_vy_index,
    Instruction, Signal, HANDLERS,
};
use crate::ram::{spec_block, spec_check_block, spec_get_opcode, spec_set_block};
use crate::screen::{blank_screen, spec_draw_sprite};
use crate::stack::{spec_get_at, spec_set_at};

verus! {

/// The value of register x of the instruction.
pub open spec fn vx(s: Machine, opcode: u16) -> u8 {
    s.v(spec_vx_index(opcode))
}

/// The value of register y of the instruction.
pub open spec fn vy(s: Machine, opcode: u16) -> u8 {
    s.v(spec_vy_index(opcode))
}

/// The sum of two bytes, cut to a byte.
pub open spec fn wrapping_sum(a: u8, b: u8) -> u8 {
    ((a + b) % 256) as u8
}

/// The difference of two bytes, cut to a byte.
pub open spec fn wrapping_difference(a: u8, b: u8) -> u8 {
    ((a - b) % 256) as u8
}

/// 0nnn. Does nothing but move on.
pub open spec fn sys(s: Machine, opcode: u16) -> Outcome {
    s.next_with(s.registers)
}

/// 00E0. Turns every pixel off.
pub open spec fn cls(s: Machine, opcode: u16) -> Outcome {
    Machine { pixels: blank_screen(), ..s }.advance(1, Signal::DrawScreen)
}

/// 00EE. Moves the stack pointer down and continues at the address in the slot
/// it then names.
pub open spec fn ret(s: Machine, opcode: u16) -> Outcome {
    match s.registers.dec_sp() {
        Err(e) => Err(e),
        Ok(popped) => match spec_get_at(s.stack, popped.sp as int) {
            Err(e) => Err(e),
            Ok(address) => Ok((s.with_registers(popped.set_pc(address)), Signal::NoSignal)),
        },
    }
}

/// 1nnn. Continues at nnn.
pub open spec fn jp(s: Machine, opcode: u16) -> Outcome {
    Ok((s.with_registers(s.registers.set_pc(spec_nnn_value(opcode))), Signal::NoSignal))
}

/// 2nnn. Stores the address of the next instruction in the slot that the stack
/// pointer names, moves the stack pointer up and continues at nnn.
pub open spec fn call(s: Machine, opcode: u16) -> Outcome {
    match s.registers.inc_pc() {
        Err(e) => Err(e),
        Ok(returning) => match spec_set_at(s.stack, returning.sp as int, returning.pc) {
            Err(e) => Err(e),
            Ok(stack) => match returning.inc_sp() {
                Err(e) => Err(e),
                Ok(pushed) => Ok(
                    (
                        Machine {
                            stack,
                            registers: pushed.set_pc(spec_nnn_value(opcode)),
                            ..s
                        },
                        Signal::NoSignal,
                    ),
                ),
            },
        },
    }
}

/// 3xkk. Skips the next instruction if Vx equals kk.
pub open spec fn se_vx_kk(s: Machine, opcode: u16) -> Outcome {
    s.skip_if(vx(s, opcode) == spec_kk_value(opcode))
}

/// 4xkk. Skips the next instruction if Vx differs from kk.
pub open spec fn sne_vx_kk(s: Machine, opcode: u16) -> Outcome {
    s.skip_if(vx(s, opcode) != spec_kk_value(opcode))
}

/// 5xy0. Skips the next instruction if Vx equals Vy.
pub open spec fn se_vx_vy(s: Machine, opcode: u16) -> Outcome {
    s.skip_if(vx(s, opcode) == vy(s, opcode))
}

/// 6xkk. Sets Vx to kk.
pub open spec fn ld_vx_kk(s: Machine, opcode: u16) -> Outcome {
    s.next_with(s.registers.set_v(spec_vx_index(opcode), spec_kk_value(opcode)))
}

/// 7xkk. Adds kk to Vx, cut to a byte. The flag stays.
pub open spec fn add_vx_kk(s: Machine, opcode: u16) -> Outcome {
    s.next_with(
        s.registers.set_v(
            spec_vx_index(opcode),
            wrapping_sum(vx(s, opcode), spec_kk_value(opcode)),
        ),
    )
}

/// 8xy0. Sets Vx to Vy.
pub open spec fn ld_vx_vy(s: Machine, opcode: u16) -> Outcome {
    s.next_with(s.registers.set_v(spec_vx_index(opcode), vy(s, opcode)))
}

/// 8xy1. Sets Vx to Vx OR Vy, then clears the flag.
pub open spec fn or_vx_vy(s: Machine, opcode: u16) -> Outcome {
    s.next_with(
        s.registers.set_v(spec_vx_index(opcode), vx(s, opcode) | vy(s, opcode)).set_flag(false),
    )
}

/// 8xy2. Sets Vx to Vx AND Vy, then clears the flag.
pub open spec fn and_vx_vy(s: Machine, opcode: u16) -> Outcome {
    s.next_with(
        s.registers.set_v(spec_vx_index(opcode), vx(s, opcode) & vy(s, opcode)).set_flag(false),
    )
}

/// 8xy3. Sets Vx to Vx XOR Vy, then clears the flag.
pub open spec fn xor_vx_vy(s: Machine, opcode: u16) -> Outcome {
    s.next_with(
        s.registers.set_v(spec_vx_index(opcode), vx(s, opcode) ^ vy(s, opcode)).set_flag(false),
    )
}

/// 8xy4. Sets the flag to the carry of Vx plus Vy, then Vx to the sum cut to a byte.
pub open spec fn add_vx_vy(s: Machine, opcode: u16) -> Outcome {
    s.next_with(
        s.registers.set_flag(vx(s, opcode) + vy(s, opcode) > 255).set_v(
            spec_vx_index(opcode),
            wrapping_sum(vx(s, opcode), vy(s, opcode)),
        ),
    )
}

/// 8xy5. Sets the flag if Vx is greater than Vy, then Vx to Vx minus Vy cut to
/// a byte.
pub open spec fn sub_vx_vy(s: Machine, opcode: u16) -> Outcome {
    s.next_with(
        s.registers.set_flag(vx(s, opcode) > vy(s, opcode)).set_v(
            spec_vx_index(opcode),
            wrapping_difference(vx(s, opcode), vy(s, opcode)),
        ),
    )
}

/// 8xy6. Halves Vx, then sets the flag to the bit that fell out. Vy plays no part.
pub open spec fn shr_vx(s: Machine, opcode: u16) -> Outcome {
    s.next_with(
        s.registers.set_v(spec_vx_index(opcode), (vx(s, opcode) / 2) as u8).set_flag(
            vx(s, opcode) % 2 == 1,
        ),
    )
}

/// 8xy7. Sets the flag if Vy is greater than Vx, then Vx to Vy minus Vx cut to
/// a byte.
pub open spec fn subn_vx_vy(s: Machine, opcode: u16) -> Outcome {
    s.next_with(
        s.registers.set_flag(vy(s, opcode) > vx(s, opcode)).set_v(
            spec_vx_index(opcode),
            wrapping_difference(vy(s, opcode), vx(s, opcode)),
        ),
    )
}

/// 8xyE. Doubles Vx, cut to a byte, then sets the flag to the bit that fell out.
/// Vy plays no part.
pub open spec fn shl_vx(s: Machine, opcode: u16) -> Outcome {
    s.next_with(
        s.registers.set_v(spec_vx_index(opcode), ((vx(s, opcode) * 2) % 256) as u8).set_flag(
            vx(s, opcode) >= 128,
        ),
    )
}

/// 9xy0. Skips the next instruction if Vx differs from Vy.
pub open spec fn sne_vx_vy(s: Machine, opcode: u16) -> Outcome {
    s.skip_if(vx(s, opcode) != vy(s, opcode))
}

/// Annn. Sets I to nnn.
pub open spec fn ld_i_addr(s: Machine, opcode: u16) -> Outcome {
    s.next_with(s.registers.set_i(spec_nnn_value(opcode)))
}

/// Bnnn. Continues at nnn plus V0.
pub open spec fn jp_v0_addr(s: Machine, opcode: u16) -> Outcome {
    Ok(
        (
            s.with_registers(s.registers.set_pc((spec_nnn_value(opcode) + s.v(0)) as u16)),
            Signal::NoSignal,
        ),
    )
}

/// Cxkk. Sets Vx to the byte `rnd` AND kk.
pub open spec fn rnd_vx_byte(s: Machine, opcode: u16, rnd: u8) -> Outcome {
    s.next_with(s.registers.set_v(spec_vx_index(opcode), rnd & spec_kk_value(opcode)))
}

/// Dxyn. Draws the n rows of the sprite at I with its top left corner at
/// (Vx, Vy) and sets the flag to whether a pixel that was on got overwritten.
pub open spec fn drw_vx_vy_nb(s: Machine, opcode: u16) -> Outcome {
    match spec_draw_sprite(
        s.pixels,
        vx(s, opcode) as int,
        vy(s, opcode) as int,
        s.memory,
        s.registers.i as int,
        spec_nbytes_value(opcode),
    ) {
        Err(e) => Err(e),
        Ok((pixels, collision)) => Machine {
            pixels,
            registers: s.registers.set_flag(collision),
            ..s
        }.advance(1, Signal::DrawScreen),
    }
}

/// Ex9E. Skips the next instruction if the key that Vx names is down.
pub open spec fn skp_vx(s: Machine, opcode: u16) -> Outcome {
    s.skip_if(spec_is_key_down(s.keys, vx(s, opcode)))
}

/// ExA1. Skips the next instruction if the key that Vx names is up.
pub open spec fn sknp_vx(s: Machine, opcode: u16) -> Outcome {
    s.skip_if(!spec_is_key_down(s.keys, vx(s, opcode)))
}

/// Fx07. Sets Vx to the delay timer.
pub open spec fn ld_vx_dt(s: Machine, opcode: u16) -> Outcome {
    s.next_with(s.registers.set_v(spec_vx_index(opcode), s.registers.dt))
}

/// The highest key among the first `below` keys of the pad that is down.
pub open spec fn highest_key_down(keys: Seq<bool>, below: int) -> Option<u8>
    decreases below,
{
    if below <= 0 {
        None
    } else if keys[below - 1] {
        Some((below - 1) as u8)
    } else {
        highest_key_down(keys, below - 1)
    }
}

/// Fx0A. Waits for a key, over several runs of the instruction.
///
/// While no key is awaited: if a key is down, the highest such key becomes the
/// awaited key and the caller is told to wait for its release; if none is down,
/// nothing happens. While a key is awaited: once it is up, Vx is set to it, the
/// wait ends and the machine moves on; as long as it is down, nothing happens.
pub open spec fn ld_vx_key(s: Machine, opcode: u16) -> Outcome {
    match s.pending_key {
        Some(key) => if spec_is_key_down(s.keys, key) {
            Ok((s, Signal::NoSignal))
        } else {
            Machine { pending_key: None, ..s }.next_with(
                s.registers.set_v(spec_vx_index(opcode), key),
            )
        },
        None => match highest_key_down(s.keys, CHIP8_TOTAL_KEYS as int) {
            Some(key) => Ok((Machine { pending_key: Some(key), ..s }, Signal::WaitKeyUp(key))),
            None => Ok((s, Signal::NoSignal)),
        },
    }
}

/// Fx15. Sets the delay timer to Vx.
pub open spec fn ld_dt_vx(s: Machine, opcode: u16) -> Outcome {
    s.next_with(s.registers.set_dt(vx(s, opcode)))
}

/// Fx18. Sets the sound timer to Vx.
pub open spec fn ld_st_vx(s: Machine, opcode: u16) -> Outcome {
    s.next_with(s.registers.set_st(vx(s, opcode)))
}

/// Fx1E. Adds Vx to I, cut to sixteen bits.
pub open spec fn add_i_vx(s: Machine, opcode: u16) -> Outcome {
    s.next_with(s.registers.set_i(((s.registers.i + vx(s, opcode)) % 0x1_0000) as u16))
}

/// Fx29. Sets I to the address of the glyph for the low nibble of Vx.
pub open spec fn ld_f_vx(s: Machine, opcode: u16) -> Outcome {
    s.next_with(s.registers.set_i(((vx(s, opcode) % 16) * CHIP8_GLYPH_SIZE) as u16))
}

/// Fx33. Stores the hundreds, tens and ones digit of Vx at I, I+1 and I+2.
pub open spec fn ld_bcd_vx(s: Machine, opcode: u16) -> Outcome {
    let digits = spec_bcd(vx(s, opcode));
    match spec_set_block(
        s.memory,
        s.registers.i as int,
        seq![digits.hundreds, digits.tens, digits.ones],
    ) {
        Err(e) => Err(e),
        Ok(memory) => Machine { memory, ..s }.next_with(s.registers),
    }
}

/// The index register after a block transfer of the registers V0 to Vx: it
/// moves on by one for each register and by one more.
pub open spec fn index_after_transfer(i: u16, x: int) -> u16 {
    ((i + x + 2) % 0x1_0000) as u16
}

/// Fx55. Stores V0 to Vx at I and moves I on.
pub open spec fn ld_i_vx(s: Machine, opcode: u16) -> Outcome {
    let x = spec_vx_index(opcode);
    match spec_set_block(s.memory, s.registers.i as int, s.registers.v.take(x + 1)) {
        Err(e) => Err(e),
        Ok(memory) => Machine { memory, ..s }.next_with(
            s.registers.set_i(index_after_transfer(s.registers.i, x)),
        ),
    }
}

/// The registers `v` with the first `count` of them replaced by `bytes`.
pub open spec fn load_registers(v: Seq<u8>, bytes: Seq<u8>, count: int) -> Seq<u8> {
    Seq::new(CHIP8_TOTAL_REGISTERS as nat, |k: int| if k < count { bytes[k] } else { v[k] })
}

/// Fx65. Loads V0 to Vx from I and moves I on.
pub open spec fn ld_vx_i(s: Machine, opcode: u16) -> Outcome {
    let x = spec_vx_index(opcode);
    match spec_check_block(s.registers.i as int, x + 1) {
        Err(e) => Err(e),
        Ok(_) => s.next_with(
            crate::registers::CpuState {
                v: load_registers(
                    s.registers.v,
                    spec_block(s.memory, s.registers.i as int, x + 1),
                    x + 1,
                ),
                i: index_after_transfer(s.registers.i, x),
                ..s.registers
            },
        ),
    }
}

/// What the handler `instruction` does with the instruction word `opcode` in
/// the state `s`. `rnd` is the random byte that the instruction draws, if it
/// draws one.
#[verifier::opaque]
pub open spec fn run(instruction: Instruction, s: Machine, opcode: u16, rnd: u8) -> Outcome {
    match instruction {
        Instruction::Cls => cls(s, opcode),
        Instruction::Ret => ret(s, opcode),
        Instruction::Sys => sys(s, opcode),
        Instruction::Jp => jp(s, opcode),
        Instruction::Call => call(s, opcode),
        Instruction::SeVxKk => se_vx_kk(s, opcode),
        Instruction::SneVxKk => sne_vx_kk(s, opcode),
        Instruction::SeVxVy => se_vx_vy(s, opcode),
        Instruction::LdVxKk => ld_vx_kk(s, opcode),
        Instruction::AddVxKk => add_vx_kk(s, opcode),
        Instruction::LdVxVy => ld_vx_vy(s, opcode),
        Instruction::OrVxVy => or_vx_vy(s, opcode),
        Instruction::AndVxVy => and_vx_vy(s, opcode),
        Instruction::XorVxVy => xor_vx_vy(s, opcode),
        Instruction::AddVxVy => add_vx_vy(s, opcode),
        Instruction::SubVxVy => sub_vx_vy(s, opcode),
        Instruction::ShrVx => shr_vx(s, opcode),
        Instruction::SubnVxVy => subn_vx_vy(s, opcode),
        Instruction::ShlVx => shl_vx(s, opcode),
        Instruction::SneVxVy => sne_vx_vy(s, opcode),
        Instruction::LdIAddr => ld_i_addr(s, opcode),
        Instruction::JpV0Addr => jp_v0_addr(s, opcode),
        Instruction::RndVxByte => rnd_vx_byte(s, opcode, rnd),
        Instruction::DrwVxVyNb => drw_vx_vy_nb(s, opcode),
        Instruction::SkpVx => skp_vx(s, opcode),
        Instruction::SknpVx => sknp_vx(s, opcode),
        Instruction::LdVxDt => ld_vx_dt(s, opcode),
        Instruction::LdVxKey => ld_vx_key(s, opcode),
        Instruction::LdDtVx => ld_dt_vx(s, opcode),
        Instruction::LdStVx => ld_st_vx(s, opcode),
        Instruction::AddIVx => add_i_vx(s, opcode),
        Instruction::LdFVx => ld_f_vx(s, opcode),
        Instruction::LdBcdVx => ld_bcd_vx(s, opcode),
        Instruction::LdIVx => ld_i_vx(s, opcode),
        Instruction::LdVxI => ld_vx_i(s, opcode),
    }
}

/// What the instruction word `opcode` does in the state `s`: what the handler
/// of the first matching entry of the instruction table does, and a failure
/// where no entry matches.
pub open spec fn execute(s: Machine, opcode: u16, rnd: u8) -> Outcome {
    match spec_decode(opcode) {
        Some(index) => run(HANDLERS@[index], s, opcode, rnd),
        None => Err(VMError::InvalidOpcode(opcode)),
    }
}

/// How one cycle of the machine ends: with the next state, a signal and the
/// time accumulator, or with a failure.
pub type CycleOutcome = Result<(Machine, Signal, u32), VMError>;

/// One cycle on a given instruction word: the instruction is executed; then,
/// if the time accumulator has passed the timer period, both timers tick and
/// the accumulator starts again at zero.
pub open spec fn cycle(s: Machine, opcode: u16, rnd: u8, time_acc: u32) -> CycleOutcome {
    match execute(s, opcode, rnd) {
        Err(e) => Err(e),
        Ok((after, signal)) => if time_acc > CHIP8_TIMER_PERIOD {
            Ok((after.with_registers(after.registers.tick()), signal, 0u32))
        } else {
            Ok((after, signal, time_acc))
        },
    }
}

/// One cycle of the machine: the instruction word at the program counter is
/// fetched and a cycle is run on it.
pub open spec fn fetch_cycle(s: Machine, rnd: u8, time_acc: u32) -> CycleOutcome {
    match spec_get_opcode(s.memory, s.registers.pc as int) {
        Err(e) => Err(e),
        Ok(opcode) => cycle(s, opcode, rnd, time_acc),
    }
}

} // verus!
