//! The instruction table: for each instruction of the machine a bit mask, the
//! value an instruction word has under that mask, the handler to run, and a
//! description. An instruction word is decoded by walking the table in order:
//! the first entry that matches wins.

use vstd::prelude::*;
use crate::config::CHIP8_TOTAL_STANDARD_OPCODES;

verus! {

/// What the caller of the machine has to do after an instruction ran.
#[derive(Debug, Clone, Copy, PartialEq, Eq, Structural)]
pub enum Signal {
    /// Nothing.
    NoSignal,
    /// The screen changed: draw it.
    DrawScreen,
    /// The machine waits for this key of the pad to go up: deliver key events
    /// and run the same instruction again.
    WaitKeyUp(u8),
}

/// The handlers of the instruction set, one for each entry of the table.
#[derive(Debug, Clone, Copy, PartialEq, Eq, Structural)]
pub enum Instruction {
    /// 00E0: clear the screen.
    Cls,
    /// 00EE: return from a subroutine.
    Ret,
    /// 0nnn: call into the host machine; does nothing.
    Sys,
    /// 1nnn: jump to nnn.
    Jp,
    /// 2nnn: call the subroutine at nnn.
    Call,
    /// 3xkk: skip the next instruction if Vx equals kk.
    SeVxKk,
    /// 4xkk: skip the next instruction if Vx differs from kk.
    SneVxKk,
    /// 5xy0: skip the next instruction if Vx equals Vy.
    SeVxVy,
    /// 6xkk: set Vx to kk.
    LdVxKk,
    /// 7xkk: add kk to Vx.
    AddVxKk,
    /// 8xy0: set Vx to Vy.
    LdVxVy,
    /// 8xy1: set Vx to Vx OR Vy.
    OrVxVy,
    /// 8xy2: set Vx to Vx AND Vy.
    AndVxVy,
    /// 8xy3: set Vx to Vx XOR Vy.
    XorVxVy,
    /// 8xy4: add Vy to Vx, VF is the carry.
    AddVxVy,
    /// 8xy5: subtract Vy from Vx, VF is set unless a borrow occurs.
    SubVxVy,
    /// 8xy6: shift Vx right by one, VF is the bit shifted out.
    ShrVx,
    /// 8xy7: set Vx to Vy minus Vx, VF is set unless a borrow occurs.
    SubnVxVy,
    /// 8xyE: shift Vx left by one, VF is the bit shifted out.
    ShlVx,
    /// 9xy0: skip the next instruction if Vx differs from Vy.
    SneVxVy,
    /// Annn: set I to nnn.
    LdIAddr,
    /// Bnnn: jump to nnn plus V0.
    JpV0Addr,
    /// Cxkk: set Vx to a random byte AND kk.
    RndVxByte,
    /// Dxyn: draw the n byte sprite at I at (Vx, Vy), VF is the collision.
    DrwVxVyNb,
    /// Ex9E: skip the next instruction if the key in Vx is down.
    SkpVx,
    /// ExA1: skip the next instruction if the key in Vx is up.
    SknpVx,
    /// Fx07: set Vx to the delay timer.
    LdVxDt,
    /// Fx0A: wait for a key to be pressed and released, store it in Vx.
    LdVxKey,
    /// Fx15: set the delay timer to Vx.
    LdDtVx,
    /// Fx18: set the sound timer to Vx.
    LdStVx,
    /// Fx1E: add Vx to I.
    AddIVx,
    /// Fx29: set I to the address of the glyph for the low nibble of Vx.
    LdFVx,
    /// Fx33: store the three decimal digits of Vx at I, I+1 and I+2.
    LdBcdVx,
    /// Fx55: store V0 to Vx at I.
    LdIVx,
    /// Fx65: load V0 to Vx from I.
    LdVxI,
}

/// The trace an entry of the table asks for before or after its handler runs.
#[derive(Debug, Clone, Copy, PartialEq, Eq, Structural)]
pub enum DumpHook {
    /// No trace.
    Off,
    /// The default trace: the decoded instruction before, the whole machine after.
    Default,
}

/// One entry of the instruction table.
#[derive(Debug, Clone, Copy)]
pub struct OpcodeMatcher {
    /// The bits of an instruction word that tell this instruction from others.
    pub bitmask: u16,
    /// What those bits are in an instruction word of this instruction.
    pub match_value: u16,
    /// The handler of this instruction.
    pub instructions: Instruction,
    /// The trace to write before the handler runs.
    pub pre_ex_dump: DumpHook,
    /// The trace to write after the handler ran.
    pub post_ex_dump: DumpHook,
    /// The pattern of the instruction word, a semicolon, and the mnemonic.
    pub desc: &'static str,
}

impl OpcodeMatcher {
    /// Whether `binary_opcode` is an instruction word of this entry.
    pub open spec fn spec_check_matching(&self, binary_opcode: u16) -> bool {
        binary_opcode & self.bitmask == self.match_value
    }

    /// Whether `binary_opcode` is an instruction word of this entry.
    pub fn check_matching(&self, binary_opcode: u16) -> (matching: bool)
        ensures
            matching == self.spec_check_matching(binary_opcode),
    {
        let masked: u16 = binary_opcode & self.bitmask;
        masked == self.match_value
    }

    /// The handler of this entry.
    pub fn instructions(&self) -> (handler: Instruction)
        ensures
            handler == self.instructions,
    {
        self.instructions
    }

    /// The trace this entry asks for before its handler runs.
    pub fn pre_ex_dump(&self) -> (hook: DumpHook)
        ensures
            hook == self.pre_ex_dump,
    {
        self.pre_ex_dump
    }

    /// The trace this entry asks for after its handler ran.
    pub fn post_ex_dump(&self) -> (hook: DumpHook)
        ensures
            hook == self.post_ex_dump,
    {
        self.post_ex_dump
    }

    /// The description of this entry.
    pub fn desc(&self) -> (desc: &'static str)
        ensures
            desc == self.desc,
    {
        self.desc
    }
}

/// The bit masks of the table, in table order. The entries that look at the
/// whole word stand before the entry that looks at the first nibble of the same
/// words only.
pub const BITMASKS: [u16; 35] = [
    0xFFFF, 0xFFFF, 0xF000, 0xF000, 0xF000, 0xF000, 0xF000, 0xF00F, 0xF000, 0xF000,
    0xF00F, 0xF00F, 0xF00F, 0xF00F, 0xF00F, 0xF00F, 0xF00F, 0xF00F, 0xF00F, 0xF00F,
    0xF000, 0xF000, 0xF000, 0xF000, 0xF0FF, 0xF0FF, 0xF0FF, 0xF0FF, 0xF0FF, 0xF0FF,
    0xF0FF, 0xF0FF, 0xF0FF, 0xF0FF, 0xF0FF,
];

/// The values under the masks, in table order.
pub const MATCH_VALUES: [u16; 35] = [
    0x00E0, 0x00EE, 0x0000, 0x1000, 0x2000, 0x3000, 0x4000, 0x5000, 0x6000, 0x7000,
    0x8000, 0x8001, 0x8002, 0x8003, 0x8004, 0x8005, 0x8006, 0x8007, 0x800E, 0x9000,
    0xA000, 0xB000, 0xC000, 0xD000, 0xE09E, 0xE0A1, 0xF007, 0xF00A, 0xF015, 0xF018,
    0xF01E, 0xF029, 0xF033, 0xF055, 0xF065,
];

/// The handlers, in table order.
pub const HANDLERS: [Instruction; 35] = [
    Instruction::Cls,
    Instruction::Ret,
    Instruction::Sys,
    Instruction::Jp,
    Instruction::Call,
    Instruction::SeVxKk,
    Instruction::SneVxKk,
    Instruction::SeVxVy,
    Instruction::LdVxKk,
    Instruction::AddVxKk,
    Instruction::LdVxVy,
    Instruction::OrVxVy,
    Instruction::AndVxVy,
    Instruction::XorVxVy,
    Instruction::AddVxVy,
    Instruction::SubVxVy,
    Instruction::ShrVx,
    Instruction::SubnVxVy,
    Instruction::ShlVx,
    Instruction::SneVxVy,
    Instruction::LdIAddr,
    Instruction::JpV0Addr,
    Instruction::RndVxByte,
    Instruction::DrwVxVyNb,
    Instruction::SkpVx,
    Instruction::SknpVx,
    Instruction::LdVxDt,
    Instruction::LdVxKey,
    Instruction::LdDtVx,
    Instruction::LdStVx,
    Instruction::AddIVx,
    Instruction::LdFVx,
    Instruction::LdBcdVx,
    Instruction::LdIVx,
    Instruction::LdVxI,
];

/// The descriptions, in table order.
pub const DESCRIPTIONS: [&'static str; 35] = [
    "00E0;CLS",
    "00EE;RET",
    "0nnn;SYS addr",
    "1nnn;JP addr",
    "2nnn;CALL addr",
    "3xkk;SE Vx, byte",
    "4xkk;SNE Vx, byte",
    "5xy0;SE Vx, Vy",
    "6xkk;LD Vx, byte",
    "7xkk;ADD Vx, byte",
    "8xy0;LD Vx, Vy",
    "8xy1;OR Vx, Vy",
    "8xy2;AND Vx, Vy",
    "8xy3;XOR Vx, Vy",
    "8xy4;ADD Vx, Vy",
    "8xy5;SUB Vx, Vy",
    "8xy6;SHR Vx",
    "8xy7;SUBN Vx, Vy",
    "8xyE;SHL Vx",
    "9xy0;SNE Vx, Vy ",
    "Annn;LD I, addr",
    "Bnnn;JP V0, addr",
    "Cxkk;RND Vx, byte",
    "Dxyn;DRW Vx, Vy, nibble",
    "Ex9E;SKP Vx",
    "ExA1;SKNP Vx",
    "Fx07;LD Vx, DT",
    "Fx0A;LD Vx, K",
    "Fx15;LD DT, Vx,",
    "Fx18;LD ST, Vx",
    "Fx1E;ADD I, Vx",
    "Fx29;LD I, Vx (hex sprite value)",
    "Fx33;LD [I] (BDC of Vx), Vx",
    "Fx55;LD [I], V0-Vx",
    "Fx65;LD V0-Vx, [I]",
];

/// Entry `index` of the instruction table.
pub open spec fn spec_matcher(index: int) -> OpcodeMatcher {
    OpcodeMatcher {
        bitmask: BITMASKS@[index],
        match_value: MATCH_VALUES@[index],
        instructions: HANDLERS@[index],
        pre_ex_dump: DumpHook::Default,
        post_ex_dump: DumpHook::Default,
        desc: DESCRIPTIONS@[index],
    }
}

/// Entry `index` of the instruction table.
pub fn matcher(index: usize) -> (entry: OpcodeMatcher)
    requires
        index < CHIP8_TOTAL_STANDARD_OPCODES,
    ensures
        entry == spec_matcher(index as int),
{
    OpcodeMatcher {
        bitmask: BITMASKS[index],
        match_value: MATCH_VALUES[index],
        instructions: HANDLERS[index],
        pre_ex_dump: DumpHook::Default,
        post_ex_dump: DumpHook::Default,
        desc: DESCRIPTIONS[index],
    }
}

/// The first entry of the table, from entry `from` on, that matches `opcode`.
pub open spec fn first_match(opcode: u16, from: int) -> Option<int>
    decreases CHIP8_TOTAL_STANDARD_OPCODES - from,
{
    if from < 0 || from >= CHIP8_TOTAL_STANDARD_OPCODES {
        None
    } else if spec_matcher(from).spec_check_matching(opcode) {
        Some(from)
    } else {
        first_match(opcode, from + 1)
    }
}

/// The entry of the table that decides what `opcode` does: the first one that
/// matches it.
pub open spec fn spec_decode(opcode: u16) -> Option<int> {
    first_match(opcode, 0)
}

/// Finds the entry of the table that decides what `opcode` does.
pub fn decode(opcode: u16) -> (found: Option<usize>)
    ensures
        found matches Some(index) ==> index < CHIP8_TOTAL_STANDARD_OPCODES && spec_decode(opcode)
            == Some(index as int),
        found is None ==> spec_decode(opcode) is None,
{
    let mut index: usize = 0;
    while index < CHIP8_TOTAL_STANDARD_OPCODES
        invariant
            index <= CHIP8_TOTAL_STANDARD_OPCODES,
            spec_decode(opcode) == first_match(opcode, index as int),
        decreases CHIP8_TOTAL_STANDARD_OPCODES - index,
    {
        let entry = matcher(index);
        if entry.check_matching(opcode) {
            return Some(index);
        }
        index += 1;
    }
    None
}

/// The handler that the table gives for `opcode`.
pub open spec fn spec_instruction(opcode: u16) -> Option<Instruction> {
    match spec_decode(opcode) {
        Some(index) => Some(HANDLERS@[index]),
        None => None,
    }
}

/// The instruction that `opcode` encodes, told from its nibbles: the first
/// nibble names a group, and within the groups 5, 8 and 9 the last nibble, within
/// the groups E and F the low byte, names the instruction.
pub open spec fn classify(opcode: u16) -> Option<Instruction> {
    let group = opcode as int / 4096;
    let last = opcode as int % 16;
    let low = opcode as int % 256;
    if opcode == 0x00E0 {
        Some(Instruction::Cls)
    } else if opcode == 0x00EE {
        Some(Instruction::Ret)
    } else if group == 0x0 {
        Some(Instruction::Sys)
    } else if group == 0x1 {
        Some(Instruction::Jp)
    } else if group == 0x2 {
        Some(Instruction::Call)
    } else if group == 0x3 {
        Some(Instruction::SeVxKk)
    } else if group == 0x4 {
        Some(Instruction::SneVxKk)
    } else if group == 0x5 {
        if last == 0x0 {
            Some(Instruction::SeVxVy)
        } else {
            None
        }
    } else if group == 0x6 {
        Some(Instruction::LdVxKk)
    } else if group == 0x7 {
        Some(Instruction::AddVxKk)
    } else if group == 0x8 {
        if last == 0x0 {
            Some(Instruction::LdVxVy)
        } else if last == 0x1 {
            Some(Instruction::OrVxVy)
        } else if last == 0x2 {
            Some(Instruction::AndVxVy)
        } else if last == 0x3 {
            Some(Instruction::XorVxVy)
        } else if last == 0x4 {
            Some(Instruction::AddVxVy)
        } else if last == 0x5 {
            Some(Instruction::SubVxVy)
        } else if last == 0x6 {
            Some(Instruction::ShrVx)
        } else if last == 0x7 {
            Some(Instruction::SubnVxVy)
        } else if last == 0xE {
            Some(Instruction::ShlVx)
        } else {
            None
        }
    } else if group == 0x9 {
        if last == 0x0 {
            Some(Instruction::SneVxVy)
        } else {
            None
        }
    } else if group == 0xA {
        Some(Instruction::LdIAddr)
    } else if group == 0xB {
        Some(Instruction::JpV0Addr)
    } else if group == 0xC {
        Some(Instruction::RndVxByte)
    } else if group == 0xD {
        Some(Instruction::DrwVxVyNb)
    } else if group == 0xE {
        if low == 0x9E {
            Some(Instruction::SkpVx)
        } else if low == 0xA1 {
            Some(Instruction::SknpVx)
        } else {
            None
        }
    } else {
        if low == 0x07 {
            Some(Instruction::LdVxDt)
        } else if low == 0x0A {
            Some(Instruction::LdVxKey)
        } else if low == 0x15 {
            Some(Instruction::LdDtVx)
        } else if low == 0x18 {
            Some(Instruction::LdStVx)
        } else if low == 0x1E {
            Some(Instruction::AddIVx)
        } else if low == 0x29 {
            Some(Instruction::LdFVx)
        } else if low == 0x33 {
            Some(Instruction::LdBcdVx)
        } else if low == 0x55 {
            Some(Instruction::LdIVx)
        } else if low == 0x65 {
            Some(Instruction::LdVxI)
        } else {
            None
        }
    }
}

/// Walking the table finds the instruction that the nibbles of the word name,
/// and finds none exactly where they name none.
pub proof fn lemma_decode(opcode: u16)
    ensures
        spec_instruction(opcode) == classify(opcode),
        spec_decode(opcode) matches Some(index) ==> 0 <= index < CHIP8_TOTAL_STANDARD_OPCODES,
{
    lemma_fields(opcode);
    reveal_with_fuel(first_match, 36);
}

/// The register index x of an instruction word: its second nibble.
pub open spec fn spec_vx_index(opcode: u16) -> int {
    (opcode as int / 256) % 16
}

/// The register index y of an instruction word: its third nibble.
pub open spec fn spec_vy_index(opcode: u16) -> int {
    (opcode as int / 16) % 16
}

/// The byte kk of an instruction word: its low half.
pub open spec fn spec_kk_value(opcode: u16) -> u8 {
    (opcode as int % 256) as u8
}

/// The address nnn of an instruction word: its low three nibbles.
pub open spec fn spec_nnn_value(opcode: u16) -> u16 {
    (opcode as int % 4096) as u16
}

/// The count n of an instruction word: its last nibble.
pub open spec fn spec_nbytes_value(opcode: u16) -> int {
    opcode as int % 16
}

/// Masking and shifting an instruction word picks its nibbles.
pub proof fn lemma_fields(opcode: u16)
    by (bit_vector)
    ensures
        (opcode & 0x0F00) >> 8 == (opcode / 256) % 16,
        (opcode & 0x00F0) >> 4 == (opcode / 16) % 16,
        opcode & 0x00FF == opcode % 256,
        opcode & 0x0FFF == opcode % 4096,
        opcode & 0x000F == opcode % 16,
        opcode & 0xFFFF == opcode,
        opcode & 0xF000 == (opcode / 4096) * 4096,
        opcode & 0xF00F == (opcode / 4096) * 4096 + opcode % 16,
        opcode & 0xF0FF == (opcode / 4096) * 4096 + opcode % 256,
{
}

/// The register index x of `opcode`.
pub fn vx_index(opcode: u16) -> (x: usize)
    ensures
        x == spec_vx_index(opcode),
        x < 16,
{
    proof {
        lemma_fields(opcode);
    }
    ((opcode & 0x0F00) >> 8) as usize
}

/// The register index y of `opcode`.
pub fn vy_index(opcode: u16) -> (y: usize)
    ensures
        y == spec_vy_index(opcode),
        y < 16,
{
    proof {
        lemma_fields(opcode);
    }
    ((opcode & 0x00F0) >> 4) as usize
}

/// The byte kk of `opcode`.
pub fn kk_value(opcode: u16) -> (kk: u8)
    ensures
        kk == spec_kk_value(opcode),
{
    proof {
        lemma_fields(opcode);
    }
    (opcode & 0x00FF) as u8
}

/// The address nnn of `opcode`.
pub fn nnn_value(opcode: u16) -> (nnn: u16)
    ensures
        nnn == spec_nnn_value(opcode),
        nnn < 4096,
{
    proof {
        lemma_fields(opcode);
    }
    opcode & 0x0FFF
}

/// The count n of `opcode`.
pub fn nbytes_value(opcode: u16) -> (n: usize)
    ensures
        n == spec_nbytes_value(opcode),
        n < 16,
{
    proof {
        lemma_fields(opcode);
    }
    (opcode & 0x000F) as usize
}

} // verus!
