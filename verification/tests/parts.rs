//! The parts of the machine, each by itself.

use chip8_vm::bcd::double_dabble;
use chip8_vm::keyboard::{ch8_key2sdl_key, ends_key_wait, Keyboard};
use chip8_vm::opcodes::{
    decode, kk_value, matcher, nbytes_value, nnn_value, vx_index, vy_index, DumpHook, Instruction,
};
use chip8_vm::ram::{CHARSET, RAM};
use chip8_vm::registers::Registers;
use chip8_vm::screen::Screen;
use chip8_vm::stack::Stack;
use chip8_vm::VMError;

#[test]
fn memory_write_then_read() {
    let mut ram = RAM::default();
    for addr in [0x200usize, 0x201, 0x7FF, 4094, 4095] {
        for value in [0u8, 1, 0x80, 0xFF] {
            assert_eq!(ram.set(addr, value), Ok(()));
            assert_eq!(ram.get(addr), Ok(value));
        }
    }
    // A write changes one byte only.
    assert_eq!(ram.set(0x300, 0x42), Ok(()));
    assert_eq!(ram.get(0x2FF), Ok(0));
    assert_eq!(ram.get(0x301), Ok(0));
}

#[test]
fn memory_reserved_region_rejects_writes() {
    let mut ram = RAM::default();
    for addr in [0usize, 1, 79, 80, 0x100, 0x1FE, 0x1FF] {
        let before = ram.get(addr);
        assert_eq!(ram.set(addr, 0xAB), Err(VMError::ReservedMemoryWriteAttempt));
        assert_eq!(ram.get(addr), before);
    }
}

#[test]
fn memory_bounds() {
    let mut ram = RAM::default();
    assert_eq!(ram.get(4096), Err(VMError::MemoryOutOfBounds(4096)));
    assert_eq!(ram.get(usize::MAX), Err(VMError::MemoryOutOfBounds(usize::MAX)));
    assert_eq!(ram.set(4096, 1), Err(VMError::MemoryOutOfBounds(4096)));
    assert_eq!(ram.set(70000, 1), Err(VMError::MemoryOutOfBounds(70000)));
    assert_eq!(ram.get(4095), Ok(0));
}

#[test]
fn memory_holds_the_font() {
    let ram = RAM::default();
    assert_eq!(ram.get_ref(0).len(), 4096);
    assert_eq!(&ram.get_ref(0)[..80], &CHARSET[..]);
    assert!(ram.get_ref(80).iter().all(|byte| *byte == 0));
    // The glyph for 7.
    assert_eq!(&ram.get_ref(7 * 5)[..5], &[0xf0, 0x10, 0x20, 0x40, 0x40]);
    assert_eq!(ram.get_ref(4096), &[] as &[u8]);
}

#[test]
fn memory_fetches_big_endian() {
    let mut ram = RAM::default();
    ram.set(0x200, 0x12).unwrap();
    ram.set(0x201, 0xAB).unwrap();
    assert_eq!(ram.get_opcode(0x200), Ok(0x12AB));
    assert_eq!(ram.get_opcode(0x201), Ok(0xAB00));
    assert_eq!(ram.get_opcode(0), Ok(0xF090));
    ram.set(4094, 0xFF).unwrap();
    ram.set(4095, 0xEE).unwrap();
    assert_eq!(ram.get_opcode(4094), Ok(0xFFEE));
    assert_eq!(ram.get_opcode(4095), Err(VMError::MemoryOutOfBounds(4095)));
    assert_eq!(ram.get_opcode(4096), Err(VMError::MemoryOutOfBounds(4096)));
    assert_eq!(ram.get_opcode(usize::MAX), Err(VMError::MemoryOutOfBounds(usize::MAX)));
}

#[test]
fn memory_blocks() {
    let mut ram = RAM::default();
    assert_eq!(ram.set_block(0x200, &[1, 2, 3]), Ok(()));
    assert_eq!(&ram.get_ref(0x1FF)[..5], &[0, 1, 2, 3, 0]);
    assert_eq!(ram.set_block(4094, &[8, 9]), Ok(()));
    assert_eq!(ram.get_ref(4094), &[8, 9]);
    assert_eq!(ram.set_block(4094, &[1, 1, 1]), Err(VMError::MemoryOutOfBounds(4096)));
    assert_eq!(ram.get_ref(4094), &[8, 9]);
    assert_eq!(ram.set_block(0x1FF, &[1, 1]), Err(VMError::ReservedMemoryWriteAttempt));
    assert_eq!(ram.get(0x200), Ok(1));
    assert_eq!(ram.set_block(5000, &[1]), Err(VMError::MemoryOutOfBounds(5000)));
    // Nothing to write: nothing to refuse.
    assert_eq!(ram.set_block(0, &[]), Ok(()));
    assert_eq!(ram.set_block(5000, &[]), Ok(()));
    assert_eq!(ram.check_set_block(0x200, 3584), Ok(()));
    assert_eq!(ram.check_set_block(0x200, 3585), Err(VMError::MemoryOutOfBounds(4096)));
    assert_eq!(ram.check_block(0, 4096), Ok(()));
    assert_eq!(ram.check_block(1, 4096), Err(VMError::MemoryOutOfBounds(4096)));
    assert_eq!(ram.check_block(4096, 1), Err(VMError::MemoryOutOfBounds(4096)));
    assert_eq!(ram.check_block(4097, 1), Err(VMError::MemoryOutOfBounds(4097)));
    assert_eq!(ram.check_block(usize::MAX, usize::MAX), Err(VMError::MemoryOutOfBounds(usize::MAX)));
    assert_eq!(ram.check_block(usize::MAX, 0), Ok(()));
}

#[test]
fn memory_load_program_limits() {
    let mut ram = RAM::default();
    assert_eq!(ram.load_program(&vec![7u8; 3584]), Ok(()));
    assert_eq!(ram.get(0x1FF), Ok(0));
    assert_eq!(ram.get(0x200), Ok(7));
    assert_eq!(ram.get(4095), Ok(7));
    assert_eq!(ram.load_program(&vec![9u8; 3585]), Err(VMError::ProgramSizeOverflow));
    assert_eq!(ram.get(0x200), Ok(7));
    assert_eq!(ram.load_program(&[1, 2]), Ok(()));
    assert_eq!(&ram.get_ref(0x200)[..3], &[1, 2, 7]);
}

#[test]
fn registers_program_counter() {
    let mut registers = Registers::default();
    assert_eq!(registers.dec_pc(), Err(VMError::ProgramCounterUnderflow));
    registers.set_pc(1);
    assert_eq!(registers.dec_pc(), Err(VMError::ProgramCounterUnderflow));
    assert_eq!(registers.get_pc(), 1);
    registers.set_pc(2);
    assert_eq!(registers.dec_pc(), Ok(()));
    assert_eq!(registers.get_pc(), 0);
    assert_eq!(registers.inc_pc(), Ok(()));
    assert_eq!(registers.get_pc(), 2);
    assert_eq!(registers.next_pc(), Ok(4));
    assert_eq!(registers.skip_pc(), Ok(()));
    assert_eq!(registers.get_pc(), 6);

    registers.set_pc(4094);
    assert_eq!(registers.next_pc(), Ok(4096));
    assert_eq!(registers.inc_pc(), Ok(()));
    assert_eq!(registers.get_pc(), 4096);
    for pc in [4095u16, 4096, 4097, 0xFFFE, 0xFFFF] {
        registers.set_pc(pc);
        assert_eq!(registers.inc_pc(), Err(VMError::ProgramCounterOverflow));
        assert_eq!(registers.next_pc(), Err(VMError::ProgramCounterOverflow));
        assert_eq!(registers.skip_pc(), Err(VMError::ProgramCounterOverflow));
        assert_eq!(registers.get_pc(), pc);
    }
    registers.set_pc(4093);
    assert_eq!(registers.skip_pc(), Err(VMError::ProgramCounterOverflow));
    assert_eq!(registers.inc_pc(), Ok(()));
    assert_eq!(registers.get_pc(), 4095);
    registers.set_pc(4092);
    assert_eq!(registers.skip_pc(), Ok(()));
    assert_eq!(registers.get_pc(), 4096);
}

#[test]
fn registers_stack_pointer() {
    let mut registers = Registers::default();
    assert_eq!(registers.dec_sp(), Err(VMError::StackOverflow));
    assert_eq!(registers.get_sp(), 0);
    for sp in 1..16u8 {
        assert_eq!(registers.inc_sp(), Ok(()));
        assert_eq!(registers.get_sp(), sp);
    }
    assert_eq!(registers.inc_sp(), Err(VMError::StackOverflow));
    assert_eq!(registers.get_sp(), 15);
    assert_eq!(registers.dec_sp(), Ok(()));
    assert_eq!(registers.get_sp(), 14);
    assert_eq!(Registers::validate_sp_in_bounds(0), Ok(()));
    assert_eq!(Registers::validate_sp_in_bounds(15), Ok(()));
    assert_eq!(Registers::validate_sp_in_bounds(16), Err(VMError::StackOverflow));
    assert_eq!(Registers::validate_sp_in_bounds(-1), Err(VMError::StackOverflow));
}

#[test]
fn registers_accessors() {
    let mut registers = Registers::default();
    for x in 0..16 {
        registers.set_v_register(x, 0xF0 + x as u8);
    }
    for x in 0..16 {
        assert_eq!(registers.get_v_register(x), 0xF0 + x as u8);
        assert_eq!(registers.v_registers()[x], 0xF0 + x as u8);
    }
    assert_eq!(registers.get_vf(), 0xFF);
    registers.unset_vf();
    assert_eq!(registers.get_vf(), 0);
    assert_eq!(registers.get_v_register(0xE), 0xFE);
    registers.set_vf();
    assert_eq!(registers.get_v_register(0xF), 1);
    registers.set_i(0xABCD);
    registers.set_dt(3);
    registers.set_st(4);
    assert_eq!((registers.get_i(), registers.get_dt(), registers.get_st()), (0xABCD, 3, 4));
    registers.dec_dt();
    registers.dec_st();
    assert_eq!((registers.get_dt(), registers.get_st()), (2, 3));
    registers.set_dt(0);
    registers.dec_dt();
    assert_eq!(registers.get_dt(), 0);
}

#[test]
fn stack_slots() {
    let mut stack = Stack::default();
    for slot in 0..16u8 {
        assert_eq!(stack.set_at(slot, 0x200 + slot as u16), Ok(()));
    }
    for slot in 0..16u8 {
        assert_eq!(stack.get_at(slot), Ok(0x200 + slot as u16));
    }
    assert_eq!(stack.set_at(16, 1), Err(VMError::StackOutOfBounds(16)));
    assert_eq!(stack.get_at(16), Err(VMError::StackOutOfBounds(16)));
    assert_eq!(stack.get_at(255), Err(VMError::StackOutOfBounds(255)));
}

#[test]
fn keyboard_keys() {
    let keymap = [(10, 0usize), (11, 15), (12, 16)];
    let mut keyboard = Keyboard::default();
    keyboard.key_down(10, &keymap);
    keyboard.key_down(11, &keymap);
    keyboard.key_down(12, &keymap);
    assert!(keyboard.is_key_down(0));
    assert!(keyboard.is_key_down(15));
    assert!(!keyboard.is_key_down(16));
    assert!(keyboard.is_key_up(1));
    keyboard.key_up(10, &keymap);
    assert!(keyboard.is_key_up(0));
    assert!(keyboard.is_key_down(15));
    assert_eq!(keyboard.map_to_vkey(12, &keymap), Ok(16));
    assert_eq!(keyboard.map_to_vkey(13, &keymap), Err(VMError::KeyMapNotFound));
}

#[test]
fn screen_bounds() {
    let mut screen = Screen::default();
    assert_eq!(screen.is_pixel_set(63, 31), Ok(false));
    assert_eq!(screen.is_pixel_set(64, 0), Err(VMError::ScreenOutOfBounds(64, 0)));
    assert_eq!(screen.is_pixel_set(0, 32), Err(VMError::ScreenOutOfBounds(0, 32)));
    assert_eq!(screen.is_pixel_set(100, 200), Err(VMError::ScreenOutOfBounds(100, 200)));
    assert!(screen.check_bounds(63, 31));
    assert!(!screen.check_bounds(64, 31));
    assert!(!screen.check_bounds(63, 32));
    assert_eq!(screen.clear(), Ok(()));
}

#[test]
fn screen_draws_by_xor() {
    let mut ram = RAM::default();
    ram.set_block(0x200, &[0b1100_0000, 0b0110_0000]).unwrap();
    let mut screen = Screen::default();
    assert_eq!(screen.draw_sprite(0, 0, 0x200, &ram, 1), Ok(false));
    assert_eq!(screen.is_pixel_set(0, 0), Ok(true));
    assert_eq!(screen.is_pixel_set(1, 0), Ok(true));
    assert_eq!(screen.is_pixel_set(2, 0), Ok(false));
    // The second row overlaps in column 1 only.
    assert_eq!(screen.draw_sprite(0, 0, 0x201, &ram, 1), Ok(true));
    assert_eq!(screen.is_pixel_set(0, 0), Ok(true));
    assert_eq!(screen.is_pixel_set(1, 0), Ok(false));
    assert_eq!(screen.is_pixel_set(2, 0), Ok(true));
    assert_eq!(screen.clear(), Ok(()));
    assert_eq!(screen.is_pixel_set(0, 0), Ok(false));
    assert_eq!(screen.is_pixel_set(2, 0), Ok(false));
}

#[test]
fn screen_tall_sprite_overlaps_itself() {
    // 33 rows: the last lands on the row of the first and collides with it.
    let mut ram = RAM::default();
    ram.set_block(0x200, &[0x80; 33]).unwrap();
    let mut screen = Screen::default();
    assert_eq!(screen.draw_sprite(5, 3, 0x200, &ram, 32), Ok(false));
    assert_eq!(screen.clear(), Ok(()));
    assert_eq!(screen.draw_sprite(5, 3, 0x200, &ram, 33), Ok(true));
    assert_eq!(screen.is_pixel_set(5, 3), Ok(false));
    assert_eq!(screen.is_pixel_set(5, 4), Ok(true));
    assert_eq!(screen.is_pixel_set(5, 2), Ok(true));
}

#[test]
fn screen_huge_coordinates_wrap() {
    let mut ram = RAM::default();
    ram.set(0x200, 0x81).unwrap();
    let mut screen = Screen::default();
    assert_eq!(screen.draw_sprite(usize::MAX, usize::MAX, 0x200, &ram, 1), Ok(false));
    // usize::MAX is 63 modulo 64 and 31 modulo 32.
    assert_eq!(screen.is_pixel_set(63, 31), Ok(true));
    assert_eq!(screen.is_pixel_set(6, 31), Ok(true));
    assert_eq!(screen.draw_sprite(0, 0, usize::MAX, &ram, 1), Err(VMError::MemoryOutOfBounds(usize::MAX)));
}

#[test]
fn bcd_of_every_byte() {
    for value in 0..=255u8 {
        let digits = double_dabble(value);
        assert_eq!(digits.hundreds, value / 100, "{}", value);
        assert_eq!(digits.tens, (value / 10) % 10, "{}", value);
        assert_eq!(digits.ones, value % 10, "{}", value);
    }
    let digits = double_dabble(245);
    assert_eq!((digits.hundreds, digits.tens, digits.ones), (2, 4, 5));
}

#[test]
fn instruction_word_fields() {
    assert_eq!(vx_index(0x8AB4), 0xA);
    assert_eq!(vy_index(0x8AB4), 0xB);
    assert_eq!(kk_value(0x3A7F), 0x7F);
    assert_eq!(nnn_value(0x2ABC), 0xABC);
    assert_eq!(nbytes_value(0xD12F), 0xF);
    assert_eq!(vx_index(0xFFFF), 0xF);
    assert_eq!(nnn_value(0xFFFF), 0xFFF);
    assert_eq!(kk_value(0xFF00), 0);
}

#[test]
fn table_matches_first_entry_wins() {
    assert_eq!(decode(0x00E0), Some(0));
    assert_eq!(decode(0x00EE), Some(1));
    assert_eq!(decode(0x00E1), Some(2));
    assert_eq!(decode(0x0000), Some(2));
    assert_eq!(decode(0x0FFF), Some(2));
    assert_eq!(decode(0x5AB0), Some(7));
    assert_eq!(decode(0x5AB1), None);
    assert_eq!(decode(0x8AB7), Some(17));
    assert_eq!(decode(0x8ABE), Some(18));
    assert_eq!(decode(0x8AB9), None);
    assert_eq!(decode(0xFA65), Some(34));
    assert_eq!(decode(0xFA66), None);
    let mut matched = 0;
    for opcode in 0..=0xFFFFu16 {
        match decode(opcode) {
            Some(index) => {
                assert!(matcher(index).check_matching(opcode));
                for earlier in 0..index {
                    assert!(!matcher(earlier).check_matching(opcode));
                }
                matched += 1;
            }
            None => {
                for index in 0..35 {
                    assert!(!matcher(index).check_matching(opcode));
                }
            }
        }
    }
    // 0x0000 to 0x4FFF, 0x6000 to 0x7FFF, 0xA000 to 0xDFFF; 5xy0, 9xy0; nine 8xyN;
    // two ExNN; nine FxNN.
    assert_eq!(matched, 11 * 4096 + 2 * 256 + 9 * 256 + 2 * 16 + 9 * 16);
}

#[test]
fn table_entries() {
    let cls = matcher(0);
    assert_eq!(cls.instructions(), Instruction::Cls);
    assert_eq!(cls.desc(), "00E0;CLS");
    assert_eq!(cls.pre_ex_dump(), DumpHook::Default);
    assert_eq!(cls.post_ex_dump(), DumpHook::Default);
    assert!(cls.check_matching(0x00E0));
    assert!(!cls.check_matching(0x00E1));
    let add = matcher(14);
    assert_eq!(add.instructions(), Instruction::AddVxVy);
    assert_eq!(add.desc(), "8xy4;ADD Vx, Vy");
    assert!(add.check_matching(0x8AB4));
    assert!(!add.check_matching(0x8AB5));
    assert!(!add.check_matching(0x9AB4));
    assert_eq!(matcher(34).instructions(), Instruction::LdVxI);
    assert_eq!(matcher(34).desc(), "Fx65;LD V0-Vx, [I]");
}

#[test]
fn inverse_keymap_lookup() {
    let inverse = [(0x1usize, 49), (0xA, 122), (0xA, 97)];
    assert_eq!(ch8_key2sdl_key(0x1, &inverse), Some(49));
    assert_eq!(ch8_key2sdl_key(0xA, &inverse), Some(122));
    assert_eq!(ch8_key2sdl_key(0x2, &inverse), None);
    assert_eq!(ch8_key2sdl_key(0x1, &[]), None);
    assert!(ends_key_wait(0xA, 122, &inverse));
    assert!(!ends_key_wait(0xA, 97, &inverse));
    assert!(!ends_key_wait(0x2, 49, &inverse));
}
