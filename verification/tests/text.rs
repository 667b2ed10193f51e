//! Messages and traces.

use chip8_vm::text::{digit, push_decimal, push_fixed, push_prefixed_hex};
use chip8_vm::trace::{dft_post_ex_dump, dft_pre_ex_dump, run_post_ex_dump, run_pre_ex_dump};
use chip8_vm::opcodes::DumpHook;
use chip8_vm::{VMError, VM};

#[test]
fn digits() {
    assert_eq!(digit(0), '0');
    assert_eq!(digit(9), '9');
    assert_eq!(digit(10), 'A');
    assert_eq!(digit(15), 'F');
    for value in [0u32, 1, 9, 10, 99, 100, 255, 4095, 65535] {
        let mut text = String::from(">");
        push_fixed(&mut text, value, 10, 5);
        push_fixed(&mut text, value, 16, 4);
        push_fixed(&mut text, value, 2, 16);
        push_prefixed_hex(&mut text, value, 4);
        push_decimal(&mut text, value as usize);
        assert_eq!(text, format!(">{:05}{:04X}{:016b}{:#06X}{}", value, value, value, value, value));
    }
    let mut text = String::new();
    push_fixed(&mut text, 0x1234, 16, 2);
    push_fixed(&mut text, 7, 10, 0);
    assert_eq!(text, "34");
    let mut text = String::new();
    push_decimal(&mut text, usize::MAX);
    assert_eq!(text, format!("{}", usize::MAX));
}

#[test]
fn error_messages() {
    assert_eq!(VMError::MemoryOutOfBounds(4096).message(), "invalid memory index: 4096");
    assert_eq!(VMError::MemoryOutOfBounds(0).message(), "invalid memory index: 0");
    assert_eq!(VMError::StackOutOfBounds(16).message(), "invalid stack index: 16");
    assert_eq!(
        VMError::StackOverflow.message(),
        "impossible to increment SP register, stackoverflow"
    );
    assert_eq!(VMError::KeyMapNotFound.message(), "key map not found");
    assert_eq!(
        VMError::ReservedMemoryWriteAttempt.message(),
        "reserved memory write attempt (0x000 to 0x1FF)"
    );
    assert_eq!(
        VMError::ScreenOutOfBounds(64, 7).message(),
        "screen pixel set/unset out of bounds: x=64 y=7"
    );
    assert_eq!(
        VMError::ProgramSizeOverflow.message(),
        "the program size si to big to be loaded in memmory"
    );
    assert_eq!(VMError::ProgramCounterOverflow.message(), "the PC register overflow");
    assert_eq!(VMError::ProgramCounterUnderflow.message(), "the PC register underflow");
    assert_eq!(VMError::InvalidOpcode(0x5001).message(), "invalid opcode: 0x5001");
    assert_eq!(VMError::InvalidOpcode(0x00FF).message(), "invalid opcode: 0x00FF");
}

#[test]
fn registers_dump_text() {
    let mut chip8 = VM::new();
    chip8.ctx.registers.set_pc(0x0202);
    chip8.ctx.registers.set_i(0x0ABC);
    chip8.ctx.registers.set_dt(7);
    chip8.ctx.registers.set_st(200);
    chip8.ctx.registers.inc_sp().unwrap();
    for x in 0..16 {
        chip8.ctx.registers.set_v_register(x, (x * 17) as u8);
    }
    let mut expected = String::new();
    for x in 0..16u8 {
        let register = x * 17;
        expected += &format!(
            "V{:X}: dec:   {:03}, hex:   {:02X}, bin:         {:08b}\n",
            x, register, register, register
        );
    }
    expected += &format!("DT: dec:   {:03}, hex:   {:02X}, bin:         {:08b}\n", 7, 7, 7);
    expected += &format!("ST: dec:   {:03}, hex:   {:02X}, bin:         {:08b}\n", 200, 200, 200);
    expected += &format!("SP: dec:   {:03}, hex:   {:02X}, bin:         {:08b}\n", 1, 1, 1);
    expected += &format!("I : dec: {:05}, hex: {:04X}, bin: {:016b}\n", 0x0ABC, 0x0ABC, 0x0ABC);
    expected += &format!("PC: dec: {:05}, hex: {:04X}, bin: {:016b}\n", 0x0202, 0x0202, 0x0202);
    assert_eq!(chip8.ctx.registers.dump(), expected);
    assert!(expected.starts_with("V0: dec:   000, hex:   00, bin:         00000000\nV1: dec:   017, hex:   11, bin:         00010001\n"));
}

#[test]
fn stack_dump_text() {
    let mut chip8 = VM::new();
    chip8.ctx.stack.set_at(0, 0x0202).unwrap();
    chip8.ctx.stack.set_at(15, 0xFFFF).unwrap();
    assert_eq!(
        chip8.ctx.stack.dump(),
        "[0x0202 0x0000 0x0000 0x0000 0x0000 0x0000 0x0000 0x0000 0x0000 0x0000 0x0000 0x0000 0x0000 0x0000 0x0000 0xFFFF ]\n"
    );
}

#[test]
fn memory_dump_text() {
    let mut chip8 = VM::new();
    chip8.ctx.memory.set(4095, 0xAB).unwrap();
    let text = chip8.ctx.memory.dump();
    let mut expected = String::new();
    for line in 0..512 {
        if line > 0 {
            expected += "\n";
        }
        expected += &format!("{:#06X} | ", line * 8);
        for byte in &chip8.ctx.memory.get_ref(line * 8)[..8] {
            expected += &format!("{:#04X} ", byte);
        }
    }
    assert_eq!(text, expected);
    assert!(text.starts_with("0x0000 | 0xF0 0x90 0x90 0x90 0xF0 0x20 0x60 0x20 \n0x0008 | 0x20 0x70 "));
    assert!(text.ends_with("\n0x0FF8 | 0x00 0x00 0x00 0x00 0x00 0x00 0x00 0xAB "));
}

#[test]
fn screen_dump_text() {
    let mut chip8 = VM::new();
    chip8.exec_opcode(0xD115, false, &mut 0).unwrap();
    let text = chip8.ctx.screen.dump();
    let lines: Vec<&str> = text.split('\n').collect();
    assert_eq!(lines.len(), 33);
    assert_eq!(lines[32], "");
    let blank = ".,".repeat(64);
    assert_eq!(lines[0], format!("X,X,X,X,{}", ".,".repeat(60)));
    assert_eq!(lines[1], format!("X,.,.,X,{}", ".,".repeat(60)));
    assert_eq!(lines[4], format!("X,X,X,X,{}", ".,".repeat(60)));
    for y in 5..32 {
        assert_eq!(lines[y], blank);
    }
}

#[test]
fn pre_dump_names_the_operands_of_the_pattern() {
    let mut chip8 = VM::new();
    chip8.ctx.registers.set_pc(0x0200);
    chip8.ctx.registers.set_v_register(0xA, 200);
    chip8.ctx.registers.set_v_register(0xB, 60);
    let cases = [
        (0x00E0u16, "00E0;CLS", "0x0200: 0x00E0 / CLS /\n"),
        (0x0123, "0nnn;SYS addr", "0x0200: 0x0123 / SYS addr / NNN = 0x123\n"),
        (0x2ABC, "2nnn;CALL addr", "0x0200: 0x2ABC / CALL addr / NNN = 0xABC\n"),
        (0x3A07, "3xkk;SE Vx, byte", "0x0200: 0x3A07 / SE Vx, byte / VA = 0xC8 KK = 0x07\n"),
        (0x8AB4, "8xy4;ADD Vx, Vy", "0x0200: 0x8AB4 / ADD Vx, Vy / VA = 0xC8, VB = 0x3C,\n"),
        (0x9AB0, "9xy0;SNE Vx, Vy ", "0x0200: 0x9AB0 / SNE Vx, Vy  / VA = 0xC8, VB = 0x3C,\n"),
        (0xDAB5, "Dxyn;DRW Vx, Vy, nibble", "0x0200: 0xDAB5 / DRW Vx, Vy, nibble / VA = 0xC8, VB = 0x3C, N = 0x5\n"),
        (0xFA0A, "Fx0A;LD Vx, K", "0x0200: 0xFA0A / LD Vx, K / VA = 0xC8\n"),
        (0xFA55, "Fx55;LD [I], V0-Vx", "0x0200: 0xFA55 / LD [I], V0-Vx / VA = 0xC8\n"),
        // A description may lack the mnemonic, or carry more parts than two.
        (0x1234, "1nnn", "0x0200: 0x1234 /  / NNN = 0x234\n"),
        (0x1234, "", "0x0200: 0x1234 /  /\n"),
        (0x1234, ";xykk", "0x0200: 0x1234 / xykk /\n"),
        (0x6A11, "6xkk;LD;more", "0x0200: 0x6A11 / LD / VA = 0xC8 KK = 0x11\n"),
        (0x6A11, "nn;two", "0x0200: 0x6A11 / two / N = 0x1\n"),
        (0x6A11, "nk;none", "0x0200: 0x6A11 / none /\n"),
        (0x6A11, "n;one", "0x0200: 0x6A11 / one / N = 0x1\n"),
        (0x6A11, "xnnnn;four", "0x0200: 0x6A11 / four / VA = 0xC8 NNN = 0xA11\n"),
    ];
    for (opcode, pattern, expected) in cases {
        chip8.build_vmcontext(opcode, pattern);
        assert_eq!(dft_pre_ex_dump(&chip8.ctx), expected);
        assert_eq!(run_pre_ex_dump(DumpHook::Default, &chip8.ctx), expected);
        assert_eq!(run_pre_ex_dump(DumpHook::Off, &chip8.ctx), "");
    }
}

#[test]
fn post_dump_is_registers_stack_memory_screen() {
    let mut chip8 = VM::new();
    chip8.ctx.registers.set_v_register(3, 3);
    let expected = chip8.ctx.registers.dump()
        + &chip8.ctx.stack.dump()
        + &chip8.ctx.memory.dump()
        + &chip8.ctx.screen.dump();
    assert_eq!(dft_post_ex_dump(&chip8.ctx), expected);
    assert_eq!(run_post_ex_dump(DumpHook::Default, &chip8.ctx), expected);
    assert_eq!(run_post_ex_dump(DumpHook::Off, &chip8.ctx), "");
}

#[test]
fn cycles_write_the_trace_when_asked() {
    let mut chip8 = VM::new();
    chip8.ctx.registers.set_pc(0x0200);
    chip8.exec_opcode(0x6A2A, false, &mut 0).unwrap();
    assert_eq!(chip8.trace, "");
    assert_eq!(chip8.take_trace(), "");

    chip8.exec_opcode(0x7A01, true, &mut 0).unwrap();
    // The trace shows the operand as it was before, the machine as it is after.
    let text = chip8.take_trace();
    let head = "0x0202: 0x7A01 / ADD Vx, byte / VA = 0x2A KK = 0x01\n";
    assert!(text.starts_with(head));
    assert_eq!(&text[head.len()..], dft_post_ex_dump(&chip8.ctx));
    assert!(text.contains("VA: dec:   043, hex:   2B, bin:         00101011\n"));
    assert!(text.contains("PC: dec: 00516, hex: 0204, bin: 0000001000000100\n"));
    assert_eq!(chip8.trace, "");

    // A handler that fails has written what comes before it only.
    chip8.ctx.registers.set_pc(4096);
    assert_eq!(chip8.exec_opcode(0x7A01, true, &mut 0), Err(VMError::ProgramCounterOverflow));
    assert_eq!(chip8.take_trace(), "0x1000: 0x7A01 / ADD Vx, byte / VA = 0x2B KK = 0x01\n");

    // Traces add up until they are taken.
    chip8.ctx.registers.set_pc(0x0200);
    chip8.exec_opcode(0x1300, true, &mut 0).unwrap();
    let first = chip8.trace.clone();
    chip8.exec_opcode(0x1400, true, &mut 0).unwrap();
    assert!(chip8.trace.starts_with(&first));
    assert!(chip8.trace[first.len()..].starts_with("0x0300: 0x1400 / JP addr / NNN = 0x400\n"));
}
