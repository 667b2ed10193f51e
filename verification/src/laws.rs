//! Laws of the machine: what holds of every state and every instruction word,
//! proved from the semantics of the instructions.

use vstd::prelude::*;
use crate::config::{
    CHIP8_MEM_RESEVED_LIMIT, CHIP8_MEM_SIZE, CHIP8_PROGRAM_LOAD_ADDRESS, CHIP8_TOTAL_KEYS,
};
use crate::errors::VMError;
use crate::machine::Machine;
use crate::opcodes::{
    classify, lemma_decode, spec_decode, spec_kk_value, spec_nnn_value, spec_vx_index, Signal,
};
use crate::ram::{spec_get, spec_load_program, spec_set, spec_set_block};
use crate::screen::{draw_row, draw_rows, row_collides, screen_wf, sprite_bit, sprite_column};
use crate::semantics;
use crate::semantics::{execute, highest_key_down, run, vx, vy};

verus! {

/// A byte written to an address from 0x200 to 4095 is the byte that is read
/// there afterwards.
pub proof fn law_write_then_read(m: Seq<u8>, addr: int, value: u8)
    requires
        m.len() == CHIP8_MEM_SIZE,
        CHIP8_PROGRAM_LOAD_ADDRESS <= addr < CHIP8_MEM_SIZE,
    ensures
        spec_set(m, addr, value) is Ok,
        spec_get(spec_set(m, addr, value)->Ok_0, addr) == Ok::<u8, VMError>(value),
{
}

/// A write to an address from 0 to 0x1FF is refused as a write to reserved memory.
pub proof fn law_reserved_write_refused(m: Seq<u8>, addr: int, value: u8)
    requires
        0 <= addr <= CHIP8_MEM_RESEVED_LIMIT,
    ensures
        spec_set(m, addr, value) == Err::<Seq<u8>, VMError>(VMError::ReservedMemoryWriteAttempt),
{
}

/// No write, of a byte, of a block or of a program, changes the reserved
/// region of memory.
pub proof fn law_reserved_region_stays(m: Seq<u8>, addr: int, value: u8, bytes: Seq<u8>, a: int)
    requires
        m.len() == CHIP8_MEM_SIZE,
        0 <= a <= CHIP8_MEM_RESEVED_LIMIT,
    ensures
        spec_set(m, addr, value) matches Ok(after) ==> after[a] == m[a],
        spec_set_block(m, addr, bytes) matches Ok(after) ==> after[a] == m[a],
        spec_load_program(m, bytes) matches Ok(after) ==> after[a] == m[a],
{
}

/// Memory `m` after the bytes `bytes` were written one after the other from
/// `addr` on, up to the first write that is refused.
pub open spec fn written_in_turn(m: Seq<u8>, addr: int, bytes: Seq<u8>) -> Result<Seq<u8>, VMError>
    decreases bytes.len(),
{
    if bytes.len() == 0 {
        Ok(m)
    } else {
        match spec_set(m, addr, bytes[0]) {
            Err(e) => Err(e),
            Ok(after) => written_in_turn(after, addr + 1, bytes.skip(1)),
        }
    }
}

/// Writing a block succeeds exactly where writing its bytes one after the
/// other does, and then leaves the same memory; where it fails, it fails as the
/// first of those writes that fails.
pub proof fn law_block_write(m: Seq<u8>, addr: int, bytes: Seq<u8>)
    requires
        m.len() == CHIP8_MEM_SIZE,
        0 <= addr,
    ensures
        match written_in_turn(m, addr, bytes) {
            Ok(after) => spec_set_block(m, addr, bytes) == Ok::<Seq<u8>, VMError>(after),
            Err(e) => spec_set_block(m, addr, bytes) == Err::<Seq<u8>, VMError>(e),
        },
    decreases bytes.len(),
{
    if bytes.len() == 0 {
        assert(spec_set_block(m, addr, bytes)->Ok_0 =~= m);
    } else {
        match spec_set(m, addr, bytes[0]) {
            Err(e) => {},
            Ok(after) => {
                let rest = bytes.skip(1);
                law_block_write(after, addr + 1, rest);
                match written_in_turn(after, addr + 1, rest) {
                    Ok(end) => {
                        assert(spec_set_block(m, addr, bytes)->Ok_0 =~= end);
                    },
                    Err(e) => {},
                }
            },
        }
    }
}

/// A program is refused exactly where it would reach past the end of memory.
pub proof fn law_program_size(m: Seq<u8>, program: Seq<u8>)
    ensures
        spec_load_program(m, program) is Err <==> CHIP8_PROGRAM_LOAD_ADDRESS + program.len()
            > CHIP8_MEM_SIZE,
{
}

/// Whether `opcode` is one of the instructions OR, AND and XOR of two registers.
pub open spec fn is_logic(opcode: u16) -> bool {
    opcode as int / 4096 == 0x8 && 1 <= opcode as int % 16 <= 3
}

/// OR, AND and XOR leave the flag register at zero, whatever the operands and
/// whichever registers they are.
pub proof fn law_logic_clears_flag(s: Machine, opcode: u16, rnd: u8)
    requires
        s.wf(),
        is_logic(opcode),
    ensures
        execute(s, opcode, rnd) matches Ok((after, signal)) ==> after.v(0xF) == 0,
{
    lemma_decode(opcode);
    reveal(run);
}

/// Whether `opcode` is one of the four instructions that skip on the
/// comparison of a register with a byte or with a register.
pub open spec fn is_compare_skip(opcode: u16) -> bool {
    let group = opcode as int / 4096;
    let last = opcode as int % 16;
    group == 0x3 || group == 0x4 || (group == 0x5 && last == 0) || (group == 0x9 && last == 0)
}

/// Whether the condition of the skip instruction `opcode` holds in the state `s`.
pub open spec fn skip_condition(s: Machine, opcode: u16) -> bool {
    let group = opcode as int / 4096;
    if group == 0x3 {
        vx(s, opcode) == spec_kk_value(opcode)
    } else if group == 0x4 {
        vx(s, opcode) != spec_kk_value(opcode)
    } else if group == 0x5 {
        vx(s, opcode) == vy(s, opcode)
    } else {
        vx(s, opcode) != vy(s, opcode)
    }
}

/// A skip instruction moves the program counter on by 4 where its condition
/// holds and by 2 where it does not, and changes nothing else. It fails only
/// where the program counter would pass the end of memory.
pub proof fn law_skip(s: Machine, opcode: u16, rnd: u8)
    requires
        is_compare_skip(opcode),
    ensures
        ({
            let step: int = if skip_condition(s, opcode) {
                4
            } else {
                2
            };
            execute(s, opcode, rnd) == (if s.registers.pc + step <= CHIP8_MEM_SIZE {
                Ok(
                    (
                        s.with_registers(s.registers.set_pc((s.registers.pc + step) as u16)),
                        Signal::NoSignal,
                    ),
                )
            } else {
                Err(VMError::ProgramCounterOverflow)
            })
        }),
{
    lemma_decode(opcode);
    reveal(run);
}

/// An instruction word fails as an invalid opcode exactly where its nibbles
/// name no instruction, which is where no entry of the table matches it.
pub proof fn law_invalid_opcode(s: Machine, opcode: u16, rnd: u8)
    requires
        s.wf(),
    ensures
        spec_decode(opcode) is None <==> classify(opcode) is None,
        execute(s, opcode, rnd) == Err::<(Machine, Signal), VMError>(
            VMError::InvalidOpcode(opcode),
        ) <==> classify(opcode) is None,
{
    lemma_decode(opcode);
    reveal(run);
}

/// The key-wait instruction, over two runs. With no wait under way and `key`
/// the highest key that is down, the first run asks the caller to wait for the
/// release of `key` and remembers it, and changes neither the program counter
/// nor any register. Once `key` is up, the second run stores it in Vx, ends the
/// wait and moves to the next instruction.
pub proof fn law_key_wait(s: Machine, opcode: u16, rnd: u8, key: u8)
    requires
        s.wf(),
        opcode as int / 4096 == 0xF,
        opcode as int % 256 == 0x0A,
        s.pending_key is None,
        key < CHIP8_TOTAL_KEYS,
        s.keys[key as int],
        forall|other: int| key < other < CHIP8_TOTAL_KEYS ==> !s.keys[other],
        s.registers.can_advance(1),
    ensures
        ({
            let waiting = Machine { pending_key: Some(key), ..s };
            let released = Machine { keys: s.keys.update(key as int, false), ..waiting };
            &&& execute(s, opcode, rnd) == Ok::<(Machine, Signal), VMError>(
                (waiting, Signal::WaitKeyUp(key)),
            )
            &&& execute(released, opcode, rnd) == Ok::<(Machine, Signal), VMError>(
                (
                    Machine {
                        pending_key: None,
                        registers: s.registers.set_v(spec_vx_index(opcode), key).advance(1),
                        ..released
                    },
                    Signal::NoSignal,
                ),
            )
        }),
{
    lemma_decode(opcode);
    reveal(run);
    lemma_highest_key_down(s.keys, key, CHIP8_TOTAL_KEYS as int);
}

/// Where `key` is down and no key from `key` + 1 to `below` - 1 is, `key` is the
/// highest of the first `below` keys that is down.
proof fn lemma_highest_key_down(keys: Seq<bool>, key: u8, below: int)
    requires
        key < below,
        keys[key as int],
        forall|other: int| key < other < below ==> !keys[other],
    ensures
        highest_key_down(keys, below) == Some(key),
    decreases below,
{
    if below - 1 > key {
        lemma_highest_key_down(keys, key, below - 1);
    }
}

/// A call and the return from it. The call stores the address of the
/// instruction after it in the slot that the stack pointer names, moves the
/// stack pointer up and continues at nnn; the return, run in the state that the
/// call left, brings the stack pointer back and continues after the call.
pub proof fn law_call_then_ret(s: Machine, opcode: u16, rnd: u8)
    requires
        s.wf(),
        opcode as int / 4096 == 0x2,
        s.registers.can_advance(1),
        s.registers.sp + 1 < crate::config::CHIP8_TOTAL_STACK_DEPTH,
    ensures
        ({
            let called = Machine {
                stack: s.stack.update(s.registers.sp as int, (s.registers.pc + 2) as u16),
                registers: s.registers.set_sp((s.registers.sp + 1) as u8).set_pc(
                    spec_nnn_value(opcode),
                ),
                ..s
            };
            &&& execute(s, opcode, rnd) == Ok::<(Machine, Signal), VMError>(
                (called, Signal::NoSignal),
            )
            &&& execute(called, 0x00EE, rnd) == Ok::<(Machine, Signal), VMError>(
                (
                    Machine { registers: s.registers.advance(1), ..called },
                    Signal::NoSignal,
                ),
            )
        }),
{
    lemma_decode(opcode);
    lemma_decode(0x00EE);
    reveal(run);
}

/// Whether (`px`, `py`) names a pixel of the screen.
pub open spec fn on_screen(px: int, py: int) -> bool {
    0 <= px < crate::config::CHIP8_SCREEN_WIDTH && 0 <= py < crate::config::CHIP8_SCREEN_HEIGHT
}

/// Whether the sprite `rows`, drawn with its top left corner at (`x`, `y`), has
/// a set pixel that lands on the pixel (`px`, `py`) of the screen. This speaks
/// of sprites of up to 32 rows, of which no two land on the same row of the screen.
pub open spec fn sprite_covers(x: int, y: int, rows: Seq<u8>, px: int, py: int) -> bool {
    let row = (py - y) % (crate::config::CHIP8_SCREEN_HEIGHT as int);
    row < rows.len() && sprite_bit(rows[row], sprite_column(x, px))
}

/// The screen `p` with every pixel inverted on which a set pixel of the sprite lands.
pub open spec fn drawn_over(p: Seq<Seq<bool>>, x: int, y: int, rows: Seq<u8>) -> Seq<Seq<bool>> {
    Seq::new(
        crate::config::CHIP8_SCREEN_WIDTH as nat,
        |px: int|
            Seq::new(
                crate::config::CHIP8_SCREEN_HEIGHT as nat,
                |py: int| p[px][py] != sprite_covers(x, y, rows, px, py),
            ),
    )
}

/// Whether a set pixel of the sprite lands on a pixel of `p` that is on (`on`)
/// or off.
pub open spec fn lands_on(p: Seq<Seq<bool>>, x: int, y: int, rows: Seq<u8>, on: bool) -> bool {
    exists|px: int, py: int|
        on_screen(px, py) && #[trigger] sprite_covers(x, y, rows, px, py) && p[px][py] == on
}

/// Drawing a sprite of up to 32 rows inverts exactly the pixels on which its
/// set pixels land, and reports a collision exactly where one of them was on.
pub proof fn law_draw_sprite(p: Seq<Seq<bool>>, x: int, y: int, rows: Seq<u8>)
    requires
        screen_wf(p),
        rows.len() <= crate::config::CHIP8_SCREEN_HEIGHT,
    ensures
        draw_rows(p, x, y, rows) == (drawn_over(p, x, y, rows), lands_on(p, x, y, rows, true)),
    decreases rows.len(),
{
    reveal_with_fuel(draw_rows, 1);
    if rows.len() == 0 {
        assert(drawn_over(p, x, y, rows) =~~= p);
    } else {
        let front = rows.drop_last();
        law_draw_sprite(p, x, y, front);
        let q = drawn_over(p, x, y, front);
        let line = (y + rows.len() - 1) % (crate::config::CHIP8_SCREEN_HEIGHT as int);
        let byte = rows.last();
        assert forall|px: int, py: int| on_screen(px, py) implies #[trigger] sprite_covers(
            x,
            y,
            rows,
            px,
            py,
        ) == (if py == line {
            sprite_bit(byte, sprite_column(x, px))
        } else {
            sprite_covers(x, y, front, px, py)
        }) && (py == line ==> !sprite_covers(x, y, front, px, py)) by {
        }
        assert(draw_row(q, x, line, byte) =~~= drawn_over(p, x, y, rows));
        let hit = lands_on(p, x, y, front, true) || row_collides(q, x, line, byte);
        if lands_on(p, x, y, front, true) {
            let (px, py) = choose|px: int, py: int|
                on_screen(px, py) && #[trigger] sprite_covers(x, y, front, px, py) && p[px][py]
                    == true;
            assert(sprite_covers(x, y, rows, px, py));
        }
        if row_collides(q, x, line, byte) {
            let px = choose|px: int|
                0 <= px < crate::config::CHIP8_SCREEN_WIDTH && sprite_bit(
                    byte,
                    #[trigger] sprite_column(x, px),
                ) && q[px][line];
            assert(sprite_covers(x, y, rows, px, line));
            assert(on_screen(px, line));
        }
        if lands_on(p, x, y, rows, true) {
            let (px, py) = choose|px: int, py: int|
                on_screen(px, py) && #[trigger] sprite_covers(x, y, rows, px, py) && p[px][py]
                    == true;
            if py == line {
                assert(sprite_bit(byte, sprite_column(x, px)));
                assert(q[px][line]);
            } else {
                assert(sprite_covers(x, y, front, px, py));
            }
        }
        assert(hit == lands_on(p, x, y, rows, true));
    }
}

/// Drawing the same sprite twice at the same place brings the screen back.
/// The first draw collides exactly where the sprite lands on a pixel that was
/// on, the second exactly where it lands on one that was off.
pub proof fn law_draw_twice(p: Seq<Seq<bool>>, x: int, y: int, rows: Seq<u8>)
    requires
        screen_wf(p),
        rows.len() <= crate::config::CHIP8_SCREEN_HEIGHT,
    ensures
        ({
            let first = draw_rows(p, x, y, rows);
            let second = draw_rows(first.0, x, y, rows);
            &&& second.0 == p
            &&& first.1 == lands_on(p, x, y, rows, true)
            &&& second.1 == lands_on(p, x, y, rows, false)
        }),
{
    law_draw_sprite(p, x, y, rows);
    let q = drawn_over(p, x, y, rows);
    law_draw_sprite(q, x, y, rows);
    assert(drawn_over(q, x, y, rows) =~~= p);
    if lands_on(q, x, y, rows, true) {
        let (px, py) = choose|px: int, py: int|
            on_screen(px, py) && #[trigger] sprite_covers(x, y, rows, px, py) && q[px][py] == true;
        assert(p[px][py] == false);
    }
    if lands_on(p, x, y, rows, false) {
        let (px, py) = choose|px: int, py: int|
            on_screen(px, py) && #[trigger] sprite_covers(x, y, rows, px, py) && p[px][py]
                == false;
        assert(q[px][py] == true);
    }
}

/// A sprite with a set pixel, drawn where it lands on no pixel that is on and
/// then drawn again at the same place: the first draw reports no collision,
/// the second reports one and leaves the screen as it was at first.
pub proof fn law_redraw_collides(p: Seq<Seq<bool>>, x: int, y: int, rows: Seq<u8>)
    requires
        screen_wf(p),
        rows.len() <= crate::config::CHIP8_SCREEN_HEIGHT,
        !lands_on(p, x, y, rows, true),
        exists|px: int, py: int| on_screen(px, py) && #[trigger] sprite_covers(x, y, rows, px, py),
    ensures
        ({
            let first = draw_rows(p, x, y, rows);
            let second = draw_rows(first.0, x, y, rows);
            &&& !first.1
            &&& second.1
            &&& second.0 == p
        }),
{
    law_draw_twice(p, x, y, rows);
    let (px, py) = choose|px: int, py: int|
        on_screen(px, py) && #[trigger] sprite_covers(x, y, rows, px, py);
    assert(p[px][py] == false);
}

/// The highest key that is down is a key of the pad and is down.
proof fn lemma_highest_key_is_down(keys: Seq<bool>, below: int)
    requires
        below <= CHIP8_TOTAL_KEYS,
    ensures
        highest_key_down(keys, below) matches Some(key) ==> key < below && keys[key as int],
    decreases below,
{
    if below > 0 && !keys[below - 1] {
        lemma_highest_key_is_down(keys, below - 1);
    }
}

/// Whether the outcome `outcome` of an instruction on the machine `s` is, where
/// it is a success, a well formed machine, and a key that the caller is told to
/// wait for is a key of the pad that is down.
pub open spec fn keeps_wf(s: Machine, outcome: crate::machine::Outcome) -> bool {
    outcome matches Ok((after, signal)) ==> {
        &&& after.wf()
        &&& signal matches Signal::WaitKeyUp(key) ==> key < CHIP8_TOTAL_KEYS && s.keys[key as int]
    }
}

/// The instructions that only move the program counter or the stack pointer
/// keep the machine well formed.
proof fn lemma_control_keeps_wf(s: Machine, opcode: u16)
    requires
        s.wf(),
    ensures
        keeps_wf(s, semantics::sys(s, opcode)),
        keeps_wf(s, semantics::cls(s, opcode)),
        keeps_wf(s, semantics::ret(s, opcode)),
        keeps_wf(s, semantics::jp(s, opcode)),
        keeps_wf(s, semantics::call(s, opcode)),
        keeps_wf(s, semantics::jp_v0_addr(s, opcode)),
        keeps_wf(s, semantics::se_vx_kk(s, opcode)),
        keeps_wf(s, semantics::sne_vx_kk(s, opcode)),
        keeps_wf(s, semantics::se_vx_vy(s, opcode)),
        keeps_wf(s, semantics::sne_vx_vy(s, opcode)),
        keeps_wf(s, semantics::skp_vx(s, opcode)),
        keeps_wf(s, semantics::sknp_vx(s, opcode)),
{
}

/// The instructions that rewrite registers keep the machine well formed.
proof fn lemma_registers_keep_wf(s: Machine, opcode: u16, rnd: u8)
    requires
        s.wf(),
    ensures
        keeps_wf(s, semantics::ld_vx_kk(s, opcode)),
        keeps_wf(s, semantics::add_vx_kk(s, opcode)),
        keeps_wf(s, semantics::ld_vx_vy(s, opcode)),
        keeps_wf(s, semantics::or_vx_vy(s, opcode)),
        keeps_wf(s, semantics::and_vx_vy(s, opcode)),
        keeps_wf(s, semantics::xor_vx_vy(s, opcode)),
        keeps_wf(s, semantics::add_vx_vy(s, opcode)),
        keeps_wf(s, semantics::sub_vx_vy(s, opcode)),
        keeps_wf(s, semantics::shr_vx(s, opcode)),
        keeps_wf(s, semantics::subn_vx_vy(s, opcode)),
        keeps_wf(s, semantics::shl_vx(s, opcode)),
        keeps_wf(s, semantics::ld_i_addr(s, opcode)),
        keeps_wf(s, semantics::rnd_vx_byte(s, opcode, rnd)),
        keeps_wf(s, semantics::ld_vx_dt(s, opcode)),
        keeps_wf(s, semantics::ld_dt_vx(s, opcode)),
        keeps_wf(s, semantics::ld_st_vx(s, opcode)),
        keeps_wf(s, semantics::add_i_vx(s, opcode)),
        keeps_wf(s, semantics::ld_f_vx(s, opcode)),
{
}

/// The instructions that read or write memory, the screen or the key pad keep
/// the machine well formed.
proof fn lemma_transfers_keep_wf(s: Machine, opcode: u16)
    requires
        s.wf(),
    ensures
        keeps_wf(s, semantics::ld_bcd_vx(s, opcode)),
        keeps_wf(s, semantics::ld_i_vx(s, opcode)),
        keeps_wf(s, semantics::ld_vx_i(s, opcode)),
        keeps_wf(s, semantics::ld_vx_key(s, opcode)),
        keeps_wf(s, semantics::drw_vx_vy_nb(s, opcode)),
{
    lemma_highest_key_is_down(s.keys, CHIP8_TOTAL_KEYS as int);
    law_draw_sprite(
        s.pixels,
        vx(s, opcode) as int,
        vy(s, opcode) as int,
        crate::ram::spec_block(
            s.memory,
            s.registers.i as int,
            crate::opcodes::spec_nbytes_value(opcode),
        ),
    );
}

/// Every instruction takes a well formed machine to a well formed machine: the
/// parts keep their sizes and the stack pointer stays within the stack. A key
/// that the caller is told to wait for is a key of the pad that is down.
pub proof fn law_execute_keeps_wf(s: Machine, opcode: u16, rnd: u8)
    requires
        s.wf(),
    ensures
        keeps_wf(s, execute(s, opcode, rnd)),
{
    lemma_control_keeps_wf(s, opcode);
    lemma_registers_keep_wf(s, opcode, rnd);
    lemma_transfers_keep_wf(s, opcode);
    reveal(run);
}

/// Of all instructions only the one that draws a random byte depends on it.
pub proof fn law_random_byte(s: Machine, opcode: u16, rnd: u8, other: u8)
    requires
        opcode as int / 4096 != 0xC,
    ensures
        execute(s, opcode, rnd) == execute(s, opcode, other),
{
    lemma_decode(opcode);
    reveal(run);
}

} // verus!
