//! The handlers of the instruction set. Each one takes the context of the
//! machine, with the instruction word in it, and either brings the machine into
//! its next state or fails and leaves it as it was.
//!
//! A handler first makes every check that can fail, in the order in which the
//! steps of the instruction would fail, and changes the machine only then.

use vstd::prelude::*;
use vstd::slice::slice_subrange;
use crate::bcd::double_dabble;
use crate::config::{CHIP8_GLYPH_SIZE, CHIP8_MEM_SIZE, CHIP8_TOTAL_KEYS};
use crate::errors::VMError;
use crate::machine::VMContext;
use crate::opcodes::{
    kk_value, nbytes_value, nnn_value, vx_index, vy_index, Instruction, Signal,
};
use crate::ram::{spec_block, RAM};
use crate::registers::{CpuState, Registers};
use crate::semantics;

verus! {

/// Shifting a byte right by one halves it.
proof fn lemma_shift_right(value: u8)
    by (bit_vector)
    ensures
        value >> 1 == value / 2,
{
}

/// The lowest bit of a byte is its remainder by two.
proof fn lemma_lowest_bit(value: u8)
    by (bit_vector)
    ensures
        value & 0b0000_0001 == value % 2,
{
}

/// Shifting a byte left by one doubles it and cuts the result to a byte.
proof fn lemma_shift_left(value: u8)
    by (bit_vector)
    ensures
        value << 1 == (value * 2) % 256,
{
}

/// The highest bit of a byte is set from 128 on.
proof fn lemma_highest_bit(value: u8)
    by (bit_vector)
    ensures
        (value & 0b1000_0000 > 0) == (value >= 128),
{
}

/// The low nibble of a byte is its remainder by sixteen.
proof fn lemma_low_nibble(value: u8)
    by (bit_vector)
    ensures
        value & 0x0F == value % 16,
{
}

/// Cutting a sixteen bit number to a byte leaves its remainder by 256.
proof fn lemma_cut_to_byte(wide: u16)
    by (bit_vector)
    ensures
        (wide as u8) as u16 == wide % 256,
{
}

/// The value of register x of the instruction in `ctx`.
fn vx_value(ctx: &VMContext) -> (value: u8)
    ensures
        value == semantics::vx(ctx@, ctx.opcode),
{
    ctx.registers.get_v_register(vx_index(ctx.opcode))
}

/// The value of register y of the instruction in `ctx`.
fn vy_value(ctx: &VMContext) -> (value: u8)
    ensures
        value == semantics::vy(ctx@, ctx.opcode),
{
    ctx.registers.get_v_register(vy_index(ctx.opcode))
}

/// Moves on by one instruction, by two if `skip`.
fn skip_if(ctx: &mut VMContext, skip: bool) -> (res: Result<Signal, VMError>)
    ensures
        old(ctx).handled(*final(ctx), res, old(ctx)@.skip_if(skip)),
{
    if skip {
        ctx.registers.skip_pc()?;
    } else {
        ctx.registers.inc_pc()?;
    }
    Ok(Signal::NoSignal)
}

/// 0nnn. A call into the machine that the instruction set was made for:
/// nothing to do but to move on.
pub fn sys(ctx: &mut VMContext) -> (res: Result<Signal, VMError>)
    ensures
        old(ctx).handled(*final(ctx), res, semantics::sys(old(ctx)@, old(ctx).opcode)),
{
    ctx.registers.inc_pc()?;
    Ok(Signal::NoSignal)
}

/// 00E0. Clear the display.
pub fn cls(ctx: &mut VMContext) -> (res: Result<Signal, VMError>)
    ensures
        old(ctx).handled(*final(ctx), res, semantics::cls(old(ctx)@, old(ctx).opcode)),
{
    ctx.registers.inc_pc()?;
    ctx.screen.clear()?;
    Ok(Signal::DrawScreen)
}

/// 00EE. Return from a subroutine.
pub fn ret(ctx: &mut VMContext) -> (res: Result<Signal, VMError>)
    ensures
        old(ctx).handled(*final(ctx), res, semantics::ret(old(ctx)@, old(ctx).opcode)),
{
    ctx.registers.dec_sp()?;
    let address: u16 = ctx.stack.get_at(ctx.registers.get_sp())?;
    ctx.registers.set_pc(address);
    Ok(Signal::NoSignal)
}

/// 1nnn. Jump to location nnn.
pub fn jp(ctx: &mut VMContext) -> (res: Result<Signal, VMError>)
    ensures
        old(ctx).handled(*final(ctx), res, semantics::jp(old(ctx)@, old(ctx).opcode)),
{
    let jump_address: u16 = nnn_value(ctx.opcode);
    ctx.registers.set_pc(jump_address);
    Ok(Signal::NoSignal)
}

/// 2nnn. Call the subroutine at nnn.
pub fn call(ctx: &mut VMContext) -> (res: Result<Signal, VMError>)
    ensures
        old(ctx).handled(*final(ctx), res, semantics::call(old(ctx)@, old(ctx).opcode)),
{
    let return_address: u16 = ctx.registers.next_pc()?;
    let sp: u8 = ctx.registers.get_sp();
    Registers::validate_sp_in_bounds(sp as i16 + 1)?;
    ctx.stack.set_at(sp, return_address)?;
    ctx.registers.inc_sp()?;
    let call_address: u16 = nnn_value(ctx.opcode);
    ctx.registers.set_pc(call_address);
    Ok(Signal::NoSignal)
}

/// 3xkk. Skip the next instruction if Vx = kk.
pub fn se_vx_kk(ctx: &mut VMContext) -> (res: Result<Signal, VMError>)
    ensures
        old(ctx).handled(*final(ctx), res, semantics::se_vx_kk(old(ctx)@, old(ctx).opcode)),
{
    let vx_value: u8 = vx_value(ctx);
    let kk_value: u8 = kk_value(ctx.opcode);
    skip_if(ctx, vx_value == kk_value)
}

/// 4xkk. Skip the next instruction if Vx != kk.
pub fn sne_vx_kk(ctx: &mut VMContext) -> (res: Result<Signal, VMError>)
    ensures
        old(ctx).handled(*final(ctx), res, semantics::sne_vx_kk(old(ctx)@, old(ctx).opcode)),
{
    let vx_value: u8 = vx_value(ctx);
    let kk_value: u8 = kk_value(ctx.opcode);
    skip_if(ctx, vx_value != kk_value)
}

/// 5xy0. Skip the next instruction if Vx = Vy.
pub fn se_vx_vy(ctx: &mut VMContext) -> (res: Result<Signal, VMError>)
    ensures
        old(ctx).handled(*final(ctx), res, semantics::se_vx_vy(old(ctx)@, old(ctx).opcode)),
{
    let vx_value: u8 = vx_value(ctx);
    let vy_value: u8 = vy_value(ctx);
    skip_if(ctx, vx_value == vy_value)
}

/// 6xkk. Set Vx = kk.
pub fn ld_vx_kk(ctx: &mut VMContext) -> (res: Result<Signal, VMError>)
    ensures
        old(ctx).handled(*final(ctx), res, semantics::ld_vx_kk(old(ctx)@, old(ctx).opcode)),
{
    let vx_index: usize = vx_index(ctx.opcode);
    let kk_value: u8 = kk_value(ctx.opcode);
    ctx.registers.inc_pc()?;
    ctx.registers.set_v_register(vx_index, kk_value);
    Ok(Signal::NoSignal)
}

/// 7xkk. Set Vx = Vx + kk.
pub fn add_vx_kk(ctx: &mut VMContext) -> (res: Result<Signal, VMError>)
    ensures
        old(ctx).handled(*final(ctx), res, semantics::add_vx_kk(old(ctx)@, old(ctx).opcode)),
{
    let vx_index: usize = vx_index(ctx.opcode);
    let vx_value: u8 = vx_value(ctx);
    let kk_value: u8 = kk_value(ctx.opcode);
    ctx.registers.inc_pc()?;
    ctx.registers.set_v_register(vx_index, vx_value.wrapping_add(kk_value));
    Ok(Signal::NoSignal)
}

/// 8xy0. Set Vx = Vy.
pub fn ld_vx_vy(ctx: &mut VMContext) -> (res: Result<Signal, VMError>)
    ensures
        old(ctx).handled(*final(ctx), res, semantics::ld_vx_vy(old(ctx)@, old(ctx).opcode)),
{
    let vx_index: usize = vx_index(ctx.opcode);
    let vy_value: u8 = vy_value(ctx);
    ctx.registers.inc_pc()?;
    ctx.registers.set_v_register(vx_index, vy_value);
    Ok(Signal::NoSignal)
}

/// 8xy1. Set Vx = Vx OR Vy. The flag is cleared.
pub fn or_vx_vy(ctx: &mut VMContext) -> (res: Result<Signal, VMError>)
    ensures
        old(ctx).handled(*final(ctx), res, semantics::or_vx_vy(old(ctx)@, old(ctx).opcode)),
{
    let vx_index: usize = vx_index(ctx.opcode);
    let vx_value: u8 = vx_value(ctx);
    let vy_value: u8 = vy_value(ctx);
    ctx.registers.inc_pc()?;
    ctx.registers.set_v_register(vx_index, vx_value | vy_value);
    ctx.registers.unset_vf();
    Ok(Signal::NoSignal)
}

/// 8xy2. Set Vx = Vx AND Vy. The flag is cleared.
pub fn and_vx_vy(ctx: &mut VMContext) -> (res: Result<Signal, VMError>)
    ensures
        old(ctx).handled(*final(ctx), res, semantics::and_vx_vy(old(ctx)@, old(ctx).opcode)),
{
    let vx_index: usize = vx_index(ctx.opcode);
    let vx_value: u8 = vx_value(ctx);
    let vy_value: u8 = vy_value(ctx);
    ctx.registers.inc_pc()?;
    ctx.registers.set_v_register(vx_index, vx_value & vy_value);
    ctx.registers.unset_vf();
    Ok(Signal::NoSignal)
}

/// 8xy3. Set Vx = Vx XOR Vy. The flag is cleared.
pub fn xor_vx_vy(ctx: &mut VMContext) -> (res: Result<Signal, VMError>)
    ensures
        old(ctx).handled(*final(ctx), res, semantics::xor_vx_vy(old(ctx)@, old(ctx).opcode)),
{
    let vx_index: usize = vx_index(ctx.opcode);
    let vx_value: u8 = vx_value(ctx);
    let vy_value: u8 = vy_value(ctx);
    ctx.registers.inc_pc()?;
    ctx.registers.set_v_register(vx_index, vx_value ^ vy_value);
    ctx.registers.unset_vf();
    Ok(Signal::NoSignal)
}

/// 8xy4. Set Vx = Vx + Vy, set VF = carry.
pub fn add_vx_vy(ctx: &mut VMContext) -> (res: Result<Signal, VMError>)
    ensures
        old(ctx).handled(*final(ctx), res, semantics::add_vx_vy(old(ctx)@, old(ctx).opcode)),
{
    let vx_index: usize = vx_index(ctx.opcode);
    let vx_value: u16 = vx_value(ctx) as u16;
    let vy_value: u16 = vy_value(ctx) as u16;
    let addition: u16 = vx_value + vy_value;
    ctx.registers.inc_pc()?;

    assign_vf(ctx, addition > u8::MAX as u16);
    proof {
        lemma_cut_to_byte(addition);
    }
    ctx.registers.set_v_register(vx_index, #[verifier::truncate] (addition as u8));
    Ok(Signal::NoSignal)
}

/// Sets the flag to `on`.
fn assign_vf(ctx: &mut VMContext, on: bool)
    ensures
        final(ctx).registers@ == old(ctx).registers@.set_flag(on),
        final(ctx).opcode == old(ctx).opcode,
        final(ctx).pattern == old(ctx).pattern,
        final(ctx).pending_key == old(ctx).pending_key,
        final(ctx).memory == old(ctx).memory,
        final(ctx).stack == old(ctx).stack,
        final(ctx).keyboard == old(ctx).keyboard,
        final(ctx).screen == old(ctx).screen,
{
    proof {
        use_type_invariant(&ctx.registers);
    }
    ctx.registers.unset_vf();
    if on {
        ctx.registers.set_vf();
    }
    assert(ctx.registers@.v =~= old(ctx).registers@.set_flag(on).v);
}

/// 8xy5. Set Vx = Vx - Vy, set VF = NOT borrow.
pub fn sub_vx_vy(ctx: &mut VMContext) -> (res: Result<Signal, VMError>)
    ensures
        old(ctx).handled(*final(ctx), res, semantics::sub_vx_vy(old(ctx)@, old(ctx).opcode)),
{
    let vx_index: usize = vx_index(ctx.opcode);
    let vx_value: u8 = vx_value(ctx);
    let vy_value: u8 = vy_value(ctx);
    ctx.registers.inc_pc()?;
    assign_vf(ctx, vx_value > vy_value);
    ctx.registers.set_v_register(vx_index, vx_value.wrapping_sub(vy_value));
    Ok(Signal::NoSignal)
}

/// 8xy6. Set Vx = Vx SHR 1, set VF to the bit shifted out.
pub fn shr_vx(ctx: &mut VMContext) -> (res: Result<Signal, VMError>)
    ensures
        old(ctx).handled(*final(ctx), res, semantics::shr_vx(old(ctx)@, old(ctx).opcode)),
{
    let vx_index: usize = vx_index(ctx.opcode);
    let vx_value: u8 = vx_value(ctx);
    proof {
        lemma_shift_right(vx_value);
        lemma_lowest_bit(vx_value);
    }
    ctx.registers.inc_pc()?;
    ctx.registers.set_v_register(vx_index, vx_value >> 1);

    let vx_lsb: u8 = vx_value & 0b0000_0001;
    assign_vf(ctx, vx_lsb == 1);
    Ok(Signal::NoSignal)
}

/// 8xy7. Set Vx = Vy - Vx, set VF = NOT borrow.
pub fn subn_vx_vy(ctx: &mut VMContext) -> (res: Result<Signal, VMError>)
    ensures
        old(ctx).handled(*final(ctx), res, semantics::subn_vx_vy(old(ctx)@, old(ctx).opcode)),
{
    let vx_index: usize = vx_index(ctx.opcode);
    let vx_value: u8 = vx_value(ctx);
    let vy_value: u8 = vy_value(ctx);
    ctx.registers.inc_pc()?;
    assign_vf(ctx, vy_value > vx_value);
    ctx.registers.set_v_register(vx_index, vy_value.wrapping_sub(vx_value));
    Ok(Signal::NoSignal)
}

/// 8xyE. Set Vx = Vx SHL 1, set VF to the bit shifted out.
pub fn shl_vx(ctx: &mut VMContext) -> (res: Result<Signal, VMError>)
    ensures
        old(ctx).handled(*final(ctx), res, semantics::shl_vx(old(ctx)@, old(ctx).opcode)),
{
    let vx_index: usize = vx_index(ctx.opcode);
    let vx_value: u8 = vx_value(ctx);
    proof {
        lemma_shift_left(vx_value);
        lemma_highest_bit(vx_value);
    }
    ctx.registers.inc_pc()?;
    ctx.registers.set_v_register(vx_index, vx_value << 1);

    let vx_msb: u8 = vx_value & 0b1000_0000;
    assign_vf(ctx, vx_msb > 0);
    Ok(Signal::NoSignal)
}

/// 9xy0. Skip the next instruction if Vx != Vy.
pub fn sne_vx_vy(ctx: &mut VMContext) -> (res: Result<Signal, VMError>)
    ensures
        old(ctx).handled(*final(ctx), res, semantics::sne_vx_vy(old(ctx)@, old(ctx).opcode)),
{
    let vx_value: u8 = vx_value(ctx);
    let vy_value: u8 = vy_value(ctx);
    skip_if(ctx, vx_value != vy_value)
}

/// Annn. Set I = nnn.
pub fn ld_i_addr(ctx: &mut VMContext) -> (res: Result<Signal, VMError>)
    ensures
        old(ctx).handled(*final(ctx), res, semantics::ld_i_addr(old(ctx)@, old(ctx).opcode)),
{
    let nnn_value: u16 = nnn_value(ctx.opcode);
    ctx.registers.inc_pc()?;
    ctx.registers.set_i(nnn_value);
    Ok(Signal::NoSignal)
}

/// Bnnn. Jump to location nnn + V0.
pub fn jp_v0_addr(ctx: &mut VMContext) -> (res: Result<Signal, VMError>)
    ensures
        old(ctx).handled(*final(ctx), res, semantics::jp_v0_addr(old(ctx)@, old(ctx).opcode)),
{
    let jump_address: u16 = nnn_value(ctx.opcode);
    let offset: u16 = ctx.registers.get_v_register(0) as u16;
    ctx.registers.set_pc(jump_address + offset);
    Ok(Signal::NoSignal)
}

/// Draws one byte with `rand::random`, which asks the random number generator
/// of the running thread; the operating system seeds that generator when the
/// thread first uses it. Nothing is claimed of the byte.
#[verifier::external_body]
fn random_byte() -> (byte: u8) {
    rand::random::<u8>()
}

/// Cxkk with the random byte given: set Vx = `rnd` AND kk.
pub fn rnd_vx_with(ctx: &mut VMContext, rnd: u8) -> (res: Result<Signal, VMError>)
    ensures
        old(ctx).handled(
            *final(ctx),
            res,
            semantics::rnd_vx_byte(old(ctx)@, old(ctx).opcode, rnd),
        ),
{
    let vx_index: usize = vx_index(ctx.opcode);
    let kk_value: u8 = kk_value(ctx.opcode);
    ctx.registers.inc_pc()?;
    ctx.registers.set_v_register(vx_index, rnd & kk_value);
    Ok(Signal::NoSignal)
}

/// Cxkk. Set Vx = random byte AND kk. Whatever byte is drawn, the machine does
/// with it what [`rnd_vx_with`] does.
pub fn rnd_vx_byte(ctx: &mut VMContext) -> (res: Result<Signal, VMError>)
    ensures
        exists|rnd: u8|
            old(ctx).handled(
                *final(ctx),
                res,
                #[trigger] semantics::rnd_vx_byte(old(ctx)@, old(ctx).opcode, rnd),
            ),
{
    let rnd: u8 = random_byte();
    rnd_vx_with(ctx, rnd)
}

/// Dxyn. Display the n-byte sprite at memory location I at (Vx, Vy), set VF =
/// collision.
pub fn drw_vx_vy_nb(ctx: &mut VMContext) -> (res: Result<Signal, VMError>)
    ensures
        old(ctx).handled(*final(ctx), res, semantics::drw_vx_vy_nb(old(ctx)@, old(ctx).opcode)),
{
    let vx_value: u8 = vx_value(ctx);
    let vy_value: u8 = vy_value(ctx);
    let nbytes: usize = nbytes_value(ctx.opcode);
    let offset: u16 = ctx.registers.get_i();
    ctx.memory.check_block(offset as usize, nbytes)?;
    ctx.registers.inc_pc()?;
    let collision: bool = ctx.screen.draw_sprite(
        vx_value as usize,
        vy_value as usize,
        offset as usize,
        &ctx.memory,
        nbytes,
    )?;
    assign_vf(ctx, collision);
    Ok(Signal::DrawScreen)
}

/// Ex9E. Skip the next instruction if the key with the value of Vx is pressed.
pub fn skp_vx(ctx: &mut VMContext) -> (res: Result<Signal, VMError>)
    ensures
        old(ctx).handled(*final(ctx), res, semantics::skp_vx(old(ctx)@, old(ctx).opcode)),
{
    let vx_value: u8 = vx_value(ctx);
    let down: bool = ctx.keyboard.is_key_down(vx_value);
    skip_if(ctx, down)
}

/// ExA1. Skip the next instruction if the key with the value of Vx is not
/// pressed.
pub fn sknp_vx(ctx: &mut VMContext) -> (res: Result<Signal, VMError>)
    ensures
        old(ctx).handled(*final(ctx), res, semantics::sknp_vx(old(ctx)@, old(ctx).opcode)),
{
    let vx_value: u8 = vx_value(ctx);
    let up: bool = ctx.keyboard.is_key_up(vx_value);
    skip_if(ctx, up)
}

/// Fx07. Set Vx = delay timer value.
pub fn ld_vx_dt(ctx: &mut VMContext) -> (res: Result<Signal, VMError>)
    ensures
        old(ctx).handled(*final(ctx), res, semantics::ld_vx_dt(old(ctx)@, old(ctx).opcode)),
{
    let vx_index: usize = vx_index(ctx.opcode);
    let delay_timer: u8 = ctx.registers.get_dt();
    ctx.registers.inc_pc()?;
    ctx.registers.set_v_register(vx_index, delay_timer);
    Ok(Signal::NoSignal)
}

/// Fx0A. Wait for a key press, store the value of the key in Vx.
///
/// The handler does not block. The first run that sees a key down remembers
/// the key and asks the caller to wait for its release; a later run that sees
/// the key up stores it and moves on.
pub fn ld_vx_key(ctx: &mut VMContext) -> (res: Result<Signal, VMError>)
    ensures
        old(ctx).handled(*final(ctx), res, semantics::ld_vx_key(old(ctx)@, old(ctx).opcode)),
{
    let mut signal: Signal = Signal::NoSignal;
    match ctx.pending_key {
        Some(key) => {
            if ctx.keyboard.is_key_up(key) {
                let vx_index: usize = vx_index(ctx.opcode);
                ctx.registers.inc_pc()?;
                ctx.registers.set_v_register(vx_index, key);
                ctx.pending_key = None;
            }
        },
        None => {
            // Check for key down through all keys: the last one seen wins.
            let mut found: Option<u8> = None;
            let mut key: u8 = 0x0;
            while key < CHIP8_TOTAL_KEYS as u8
                invariant
                    key <= CHIP8_TOTAL_KEYS,
                    *ctx == *old(ctx),
                    found == semantics::highest_key_down(ctx@.keys, key as int),
                    match found {
                        Some(k) => signal == Signal::WaitKeyUp(k),
                        None => signal == Signal::NoSignal,
                    },
                decreases CHIP8_TOTAL_KEYS - key,
            {
                if ctx.keyboard.is_key_down(key) {
                    signal = Signal::WaitKeyUp(key);
                    found = Some(key);
                }
                key += 1;
            }
            ctx.pending_key = found;
        },
    }
    Ok(signal)
}

/// Fx15. Set delay timer = Vx.
pub fn ld_dt_vx(ctx: &mut VMContext) -> (res: Result<Signal, VMError>)
    ensures
        old(ctx).handled(*final(ctx), res, semantics::ld_dt_vx(old(ctx)@, old(ctx).opcode)),
{
    let vx_value: u8 = vx_value(ctx);
    ctx.registers.inc_pc()?;
    ctx.registers.set_dt(vx_value);
    Ok(Signal::NoSignal)
}

/// Fx18. Set sound timer = Vx.
pub fn ld_st_vx(ctx: &mut VMContext) -> (res: Result<Signal, VMError>)
    ensures
        old(ctx).handled(*final(ctx), res, semantics::ld_st_vx(old(ctx)@, old(ctx).opcode)),
{
    let vx_value: u8 = vx_value(ctx);
    ctx.registers.inc_pc()?;
    ctx.registers.set_st(vx_value);
    Ok(Signal::NoSignal)
}

/// Fx1E. Set I = I + Vx.
pub fn add_i_vx(ctx: &mut VMContext) -> (res: Result<Signal, VMError>)
    ensures
        old(ctx).handled(*final(ctx), res, semantics::add_i_vx(old(ctx)@, old(ctx).opcode)),
{
    let vx_value: u8 = vx_value(ctx);
    ctx.registers.inc_pc()?;
    ctx.registers.set_i(ctx.registers.get_i().wrapping_add(vx_value as u16));
    Ok(Signal::NoSignal)
}

/// Fx29. Set I = location of the sprite for the digit in the low nibble of Vx.
pub fn ld_f_vx(ctx: &mut VMContext) -> (res: Result<Signal, VMError>)
    ensures
        old(ctx).handled(*final(ctx), res, semantics::ld_f_vx(old(ctx)@, old(ctx).opcode)),
{
    let vx_value: u8 = vx_value(ctx);
    proof {
        lemma_low_nibble(vx_value);
    }
    let char_addr: u16 = (vx_value & 0x0F) as u16 * CHIP8_GLYPH_SIZE as u16;
    ctx.registers.inc_pc()?;
    ctx.registers.set_i(char_addr);
    Ok(Signal::NoSignal)
}

/// Fx33. Store the BCD representation of Vx in memory locations I, I+1, I+2:
/// hundreds at I, tens at I+1, ones at I+2.
pub fn ld_bcd_vx(ctx: &mut VMContext) -> (res: Result<Signal, VMError>)
    ensures
        old(ctx).handled(*final(ctx), res, semantics::ld_bcd_vx(old(ctx)@, old(ctx).opcode)),
{
    let vx_value: u8 = vx_value(ctx);
    let digits = double_dabble(vx_value);
    let units: [u8; 3] = [digits.hundreds, digits.tens, digits.ones];
    assert(units@ =~= seq![digits.hundreds, digits.tens, digits.ones]);
    let addr: usize = ctx.registers.get_i() as usize;
    ctx.memory.check_set_block(addr, 3)?;
    ctx.registers.inc_pc()?;
    ctx.memory.set_block(addr, units.as_slice())?;
    Ok(Signal::NoSignal)
}

/// Moves I on after a block transfer of the registers V0 to Vx.
fn inc_i_after_transfer(ctx: &mut VMContext, vx_index: usize)
    requires
        vx_index < 16,
    ensures
        final(ctx).registers@ == old(ctx).registers@.set_i(
            semantics::index_after_transfer(old(ctx).registers@.i, vx_index as int),
        ),
        final(ctx).opcode == old(ctx).opcode,
        final(ctx).pattern == old(ctx).pattern,
        final(ctx).pending_key == old(ctx).pending_key,
        final(ctx).memory == old(ctx).memory,
        final(ctx).stack == old(ctx).stack,
        final(ctx).keyboard == old(ctx).keyboard,
        final(ctx).screen == old(ctx).screen,
{
    // Once for each register copied, and once more.
    let moved: u16 = ctx.registers.get_i().wrapping_add(vx_index as u16 + 2);
    ctx.registers.set_i(moved);
}

/// Fx55. Store registers V0 through Vx in memory starting at location I.
pub fn ld_i_vx(ctx: &mut VMContext) -> (res: Result<Signal, VMError>)
    ensures
        old(ctx).handled(*final(ctx), res, semantics::ld_i_vx(old(ctx)@, old(ctx).opcode)),
{
    proof {
        use_type_invariant(&ctx.registers);
    }
    let vx_index: usize = vx_index(ctx.opcode);
    let base_addr: usize = ctx.registers.get_i() as usize;
    ctx.memory.check_set_block(base_addr, vx_index + 1)?;
    ctx.registers.inc_pc()?;
    let all: &[u8; 16] = ctx.registers.v_registers();
    let block: &[u8] = slice_subrange(all.as_slice(), 0, vx_index + 1);
    assert(block@ =~= old(ctx).registers@.v.take(vx_index + 1));
    ctx.memory.set_block(base_addr, block)?;
    inc_i_after_transfer(ctx, vx_index);
    Ok(Signal::NoSignal)
}

/// Fx65. Read registers V0 through Vx from memory starting at location I.
pub fn ld_vx_i(ctx: &mut VMContext) -> (res: Result<Signal, VMError>)
    ensures
        old(ctx).handled(*final(ctx), res, semantics::ld_vx_i(old(ctx)@, old(ctx).opcode)),
{
    broadcast use RAM::lemma_len;

    proof {
        use_type_invariant(&ctx.registers);
    }
    let vx_index: usize = vx_index(ctx.opcode);
    let base_addr: usize = ctx.registers.get_i() as usize;
    ctx.memory.check_block(base_addr, vx_index + 1)?;
    ctx.registers.inc_pc()?;
    let ghost block = spec_block(old(ctx)@.memory, base_addr as int, vx_index + 1);
    let ghost start = ctx.registers@;
    let mut vx: usize = 0;
    assert(start.v =~= semantics::load_registers(start.v, block, 0));
    while vx <= vx_index
        invariant
            vx <= vx_index + 1,
            vx_index < 16,
            base_addr + vx_index + 1 <= CHIP8_MEM_SIZE,
            ctx.memory@.len() == CHIP8_MEM_SIZE,
            start.wf(),
            block == spec_block(ctx.memory@, base_addr as int, vx_index + 1),
            ctx.opcode == old(ctx).opcode,
            ctx.pattern == old(ctx).pattern,
            ctx.pending_key == old(ctx).pending_key,
            ctx.memory == old(ctx).memory,
            ctx.stack == old(ctx).stack,
            ctx.keyboard == old(ctx).keyboard,
            ctx.screen == old(ctx).screen,
            ctx.registers@ == (CpuState {
                v: semantics::load_registers(start.v, block, vx as int),
                ..start
            }),
        decreases vx_index + 1 - vx,
    {
        // The block was checked above: this read succeeds.
        let value: u8 = ctx.memory.get(base_addr + vx)?;
        ctx.registers.set_v_register(vx, value);
        assert(ctx.registers@.v =~= semantics::load_registers(start.v, block, vx + 1));
        vx += 1;
    }
    inc_i_after_transfer(ctx, vx_index);
    Ok(Signal::NoSignal)
}

/// Runs the handler `instruction` on the context. Whatever random byte the
/// handler draws, the machine does with it what the instruction says.
pub fn run_instruction(instruction: Instruction, ctx: &mut VMContext) -> (res: Result<
    Signal,
    VMError,
>)
    ensures
        exists|rnd: u8|
            old(ctx).handled(
                *final(ctx),
                res,
                #[trigger] semantics::run(instruction, old(ctx)@, old(ctx).opcode, rnd),
            ),
{
    proof {
        reveal(semantics::run);
    }
    let res = match instruction {
        Instruction::Cls => cls(ctx),
        Instruction::Ret => ret(ctx),
        Instruction::Sys => sys(ctx),
        Instruction::Jp => jp(ctx),
        Instruction::Call => call(ctx),
        Instruction::SeVxKk => se_vx_kk(ctx),
        Instruction::SneVxKk => sne_vx_kk(ctx),
        Instruction::SeVxVy => se_vx_vy(ctx),
        Instruction::LdVxKk => ld_vx_kk(ctx),
        Instruction::AddVxKk => add_vx_kk(ctx),
        Instruction::LdVxVy => ld_vx_vy(ctx),
        Instruction::OrVxVy => or_vx_vy(ctx),
        Instruction::AndVxVy => and_vx_vy(ctx),
        Instruction::XorVxVy => xor_vx_vy(ctx),
        Instruction::AddVxVy => add_vx_vy(ctx),
        Instruction::SubVxVy => sub_vx_vy(ctx),
        Instruction::ShrVx => shr_vx(ctx),
        Instruction::SubnVxVy => subn_vx_vy(ctx),
        Instruction::ShlVx => shl_vx(ctx),
        Instruction::SneVxVy => sne_vx_vy(ctx),
        Instruction::LdIAddr => ld_i_addr(ctx),
        Instruction::JpV0Addr => jp_v0_addr(ctx),
        Instruction::RndVxByte => {
            let res = rnd_vx_byte(ctx);
            proof {
                let drawn = choose|rnd: u8|
                    old(ctx).handled(
                        *ctx,
                        res,
                        #[trigger] semantics::rnd_vx_byte(old(ctx)@, old(ctx).opcode, rnd),
                    );
                assert(old(ctx).handled(
                    *ctx,
                    res,
                    semantics::run(instruction, old(ctx)@, old(ctx).opcode, drawn),
                ));
            }
            return res;
        },
        Instruction::DrwVxVyNb => drw_vx_vy_nb(ctx),
        Instruction::SkpVx => skp_vx(ctx),
        Instruction::SknpVx => sknp_vx(ctx),
        Instruction::LdVxDt => ld_vx_dt(ctx),
        Instruction::LdVxKey => ld_vx_key(ctx),
        Instruction::LdDtVx => ld_dt_vx(ctx),
        Instruction::LdStVx => ld_st_vx(ctx),
        Instruction::AddIVx => add_i_vx(ctx),
        Instruction::LdFVx => ld_f_vx(ctx),
        Instruction::LdBcdVx => ld_bcd_vx(ctx),
        Instruction::LdIVx => ld_i_vx(ctx),
        Instruction::LdVxI => ld_vx_i(ctx),
    };
    assert(old(ctx).handled(
        *ctx,
        res,
        semantics::run(instruction, old(ctx)@, old(ctx).opcode, 0u8),
    ));
    res
}

} // verus!
