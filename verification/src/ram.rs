//! Main memory: 4096 bytes, of which the first 512 are reserved and hold the
//! built-in font.

use vstd::prelude::*;
use vstd::slice::slice_subrange;
use crate::config::{
    CHIP8_FONT_SIZE, CHIP8_MEM_RESEVED_LIMIT, CHIP8_MEM_SIZE, CHIP8_PROGRAM_LOAD_ADDRESS,
};
use crate::errors::VMError;
use crate::text::{prefixed_hex, push_prefixed_hex};

verus! {

/// The built-in font: sixteen glyphs of five bytes each, for the digits 0 to F in order.
/// Each byte is one row of a glyph, its pixels in the high nibble.
pub const CHARSET: [u8; 80] = [
    0xf0, 0x90, 0x90, 0x90, 0xf0,
    0x20, 0x60, 0x20, 0x20, 0x70,
    0xf0, 0x10, 0xf0, 0x80, 0xf0,
    0xf0, 0x10, 0xf0, 0x10, 0xf0,
    0x90, 0x90, 0xf0, 0x10, 0x10,
    0xf0, 0x80, 0xf0, 0x10, 0xf0,
    0xf0, 0x80, 0xf0, 0x90, 0xf0,
    0xf0, 0x10, 0x20, 0x40, 0x40,
    0xf0, 0x90, 0xf0, 0x90, 0xf0,
    0xf0, 0x90, 0xf0, 0x10, 0xf0,
    0xf0, 0x90, 0xf0, 0x90, 0x90,
    0xe0, 0x90, 0xe0, 0x90, 0xe0,
    0xf0, 0x80, 0x80, 0x80, 0xf0,
    0xe0, 0x90, 0x90, 0x90, 0xe0,
    0xf0, 0x80, 0xf0, 0x80, 0xf0,
    0xf0, 0x80, 0xf0, 0x80, 0x80,
];

/// The memory of the machine.
pub struct RAM {
    memory: [u8; CHIP8_MEM_SIZE],
}

impl View for RAM {
    type V = Seq<u8>;

    /// The 4096 bytes, by address.
    closed spec fn view(&self) -> Seq<u8> {
        self.memory@
    }
}

/// Memory as it is when the machine is built: the font at address 0, zero elsewhere.
pub open spec fn initial_memory() -> Seq<u8> {
    Seq::new(
        CHIP8_MEM_SIZE as nat,
        |a: int| if 0 <= a < CHIP8_FONT_SIZE { CHARSET@[a] } else { 0u8 },
    )
}

/// What a write of `value` at `addr` does to memory `m`.
pub open spec fn spec_set(m: Seq<u8>, addr: int, value: u8) -> Result<Seq<u8>, VMError> {
    if addr >= CHIP8_MEM_SIZE {
        Err(VMError::MemoryOutOfBounds(addr as usize))
    } else if addr <= CHIP8_MEM_RESEVED_LIMIT {
        Err(VMError::ReservedMemoryWriteAttempt)
    } else {
        Ok(m.update(addr, value))
    }
}

/// What a read at `addr` yields.
pub open spec fn spec_get(m: Seq<u8>, addr: int) -> Result<u8, VMError> {
    if 0 <= addr < CHIP8_MEM_SIZE {
        Ok(m[addr])
    } else {
        Err(VMError::MemoryOutOfBounds(addr as usize))
    }
}

/// The instruction word at `addr`: two bytes, the high one first.
pub open spec fn spec_get_opcode(m: Seq<u8>, addr: int) -> Result<u16, VMError> {
    if 0 <= addr && addr + 1 < CHIP8_MEM_SIZE {
        Ok((m[addr] as int * 256 + m[addr + 1] as int) as u16)
    } else {
        Err(VMError::MemoryOutOfBounds(addr as usize))
    }
}

/// Memory `m` with `program` copied to the load address.
pub open spec fn spec_load_program(m: Seq<u8>, program: Seq<u8>) -> Result<Seq<u8>, VMError> {
    if CHIP8_PROGRAM_LOAD_ADDRESS + program.len() > CHIP8_MEM_SIZE {
        Err(VMError::ProgramSizeOverflow)
    } else {
        Ok(
            Seq::new(
                CHIP8_MEM_SIZE as nat,
                |a: int|
                    if CHIP8_PROGRAM_LOAD_ADDRESS <= a < CHIP8_PROGRAM_LOAD_ADDRESS + program.len() {
                        program[a - CHIP8_PROGRAM_LOAD_ADDRESS]
                    } else {
                        m[a]
                    },
            ),
        )
    }
}

/// What checking that the `count` bytes from `addr` on can be read yields: it
/// fails, at the first address past the end of memory, where one of them lies there.
pub open spec fn spec_check_block(addr: int, count: int) -> Result<(), VMError> {
    if count > 0 && addr + count > CHIP8_MEM_SIZE {
        Err(
            VMError::MemoryOutOfBounds(
                if addr > CHIP8_MEM_SIZE {
                    addr as usize
                } else {
                    CHIP8_MEM_SIZE
                },
            ),
        )
    } else {
        Ok(())
    }
}

/// The `count` bytes that `m` holds from `addr` on.
pub open spec fn spec_block(m: Seq<u8>, addr: int, count: int) -> Seq<u8> {
    Seq::new(count as nat, |k: int| m[addr + k])
}

/// What checking that `count` bytes can be written from `addr` on yields: it
/// fails as the first single write that fails would.
pub open spec fn spec_check_set_block(addr: int, count: int) -> Result<(), VMError> {
    if count <= 0 {
        Ok(())
    } else if addr >= CHIP8_MEM_SIZE {
        Err(VMError::MemoryOutOfBounds(addr as usize))
    } else if addr <= CHIP8_MEM_RESEVED_LIMIT {
        Err(VMError::ReservedMemoryWriteAttempt)
    } else if addr + count > CHIP8_MEM_SIZE {
        Err(VMError::MemoryOutOfBounds(CHIP8_MEM_SIZE))
    } else {
        Ok(())
    }
}

/// What writing `bytes` from `addr` on does to memory `m`. Where one of the
/// writes would be refused, it fails and writes nothing.
pub open spec fn spec_set_block(m: Seq<u8>, addr: int, bytes: Seq<u8>) -> Result<Seq<u8>, VMError> {
    match spec_check_set_block(addr, bytes.len() as int) {
        Err(e) => Err(e),
        Ok(_) => Ok(
            Seq::new(
                m.len(),
                |a: int|
                    if addr <= a < addr + bytes.len() {
                        bytes[a - addr]
                    } else {
                        m[a]
                    },
            ),
        ),
    }
}

/// Bytes that a trace of memory shows on one line.
pub const COLUMNS_PER_LINE: usize = 8;

/// What a trace of memory shows for the byte at `addr`: the byte in
/// hexadecimal, and before the first byte of each line the address of that byte.
pub open spec fn byte_text(m: Seq<u8>, addr: int) -> Seq<char> {
    let head = if addr % (COLUMNS_PER_LINE as int) != 0 {
        Seq::empty()
    } else if addr == 0 {
        prefixed_hex(addr, 4) + " | "@
    } else {
        "\n"@ + prefixed_hex(addr, 4) + " | "@
    };
    head + prefixed_hex(m[addr] as int, 2) + " "@
}

/// The first `count` bytes of memory in a trace.
pub open spec fn bytes_text(m: Seq<u8>, count: int) -> Seq<char>
    decreases count,
{
    if count <= 0 {
        Seq::empty()
    } else {
        bytes_text(m, count - 1) + byte_text(m, count - 1)
    }
}

/// Memory in a trace: eight bytes to a line, each line headed by the address
/// of its first byte.
pub open spec fn spec_dump(m: Seq<u8>) -> Seq<char> {
    bytes_text(m, CHIP8_MEM_SIZE as int)
}

/// A big-endian pair of bytes is the high byte times 256 plus the low byte.
proof fn lemma_big_endian(hi: u8, lo: u8)
    by (bit_vector)
    ensures
        ((hi as u16) << 8) | (lo as u16) == (hi as u16) * 256 + (lo as u16),
{
}

impl RAM {
    /// Every memory has 4096 bytes.
    pub broadcast proof fn lemma_len(&self)
        ensures
            #[trigger] self@.len() == CHIP8_MEM_SIZE,
    {
    }

    /// Writes `value` at `index`. Addresses up to 0x1FF are reserved and addresses
    /// from 4096 on do not exist: both are refused and memory stays as it was.
    pub fn set(&mut self, index: usize, value: u8) -> (res: Result<(), VMError>)
        ensures
            match spec_set(old(self)@, index as int, value) {
                Ok(m) => res is Ok && final(self)@ == m,
                Err(e) => res == Err::<(), VMError>(e) && final(self)@ == old(self)@,
            },
    {
        if index > CHIP8_MEM_SIZE - 1 {
            return Err(VMError::MemoryOutOfBounds(index));
        }
        if index <= CHIP8_MEM_RESEVED_LIMIT {
            return Err(VMError::ReservedMemoryWriteAttempt);
        }
        self.memory[index] = value;
        Ok(())
    }

    /// Reads the byte at `index`.
    pub fn get(&self, index: usize) -> (res: Result<u8, VMError>)
        ensures
            res == spec_get(self@, index as int),
    {
        if index < CHIP8_MEM_SIZE {
            Ok(self.memory[index])
        } else {
            Err(VMError::MemoryOutOfBounds(index))
        }
    }

    /// The bytes from `offset` to the end of memory.
    pub fn get_ref(&self, offset: usize) -> (bytes: &[u8])
        requires
            offset <= CHIP8_MEM_SIZE,
        ensures
            bytes@ == self@.subrange(offset as int, CHIP8_MEM_SIZE as int),
    {
        slice_subrange(self.memory.as_slice(), offset, CHIP8_MEM_SIZE)
    }

    /// Checks that the `count` bytes from `index` on lie in memory.
    pub fn check_block(&self, index: usize, count: usize) -> (res: Result<(), VMError>)
        ensures
            res == spec_check_block(index as int, count as int),
    {
        if count > 0 && (index > CHIP8_MEM_SIZE || count > CHIP8_MEM_SIZE - index) {
            let first_outside: usize = if index > CHIP8_MEM_SIZE {
                index
            } else {
                CHIP8_MEM_SIZE
            };
            return Err(VMError::MemoryOutOfBounds(first_outside));
        }
        Ok(())
    }

    /// Checks that `count` bytes can be written from `index` on.
    pub fn check_set_block(&self, index: usize, count: usize) -> (res: Result<(), VMError>)
        ensures
            res == spec_check_set_block(index as int, count as int),
    {
        if count == 0 {
            return Ok(());
        }
        if index > CHIP8_MEM_SIZE - 1 {
            return Err(VMError::MemoryOutOfBounds(index));
        }
        if index <= CHIP8_MEM_RESEVED_LIMIT {
            return Err(VMError::ReservedMemoryWriteAttempt);
        }
        if count > CHIP8_MEM_SIZE - index {
            return Err(VMError::MemoryOutOfBounds(CHIP8_MEM_SIZE));
        }
        Ok(())
    }

    /// Writes `bytes` from `index` on. Where one of the writes would be refused,
    /// nothing is written.
    pub fn set_block(&mut self, index: usize, bytes: &[u8]) -> (res: Result<(), VMError>)
        ensures
            match spec_set_block(old(self)@, index as int, bytes@) {
                Ok(m) => res is Ok && final(self)@ == m,
                Err(e) => res == Err::<(), VMError>(e) && final(self)@ == old(self)@,
            },
    {
        let len: usize = bytes.len();
        self.check_set_block(index, len)?;
        let mut k: usize = 0;
        while k < len
            invariant
                k <= len,
                len == bytes@.len(),
                len > 0 ==> CHIP8_MEM_RESEVED_LIMIT < index && index + len <= CHIP8_MEM_SIZE,
                forall|a: int|
                    0 <= a < CHIP8_MEM_SIZE ==> self.memory@[a] == (if index <= a < index + k {
                        bytes@[a - index]
                    } else {
                        old(self).memory@[a]
                    }),
            decreases len - k,
        {
            self.memory[index + k] = bytes[k];
            k += 1;
        }
        assert(self.memory@ =~= spec_set_block(old(self)@, index as int, bytes@).unwrap());
        Ok(())
    }

    /// Copies `buffer` to the load address. A program that would reach past the
    /// end of memory is refused and memory stays as it was.
    pub fn load_program(&mut self, buffer: &[u8]) -> (res: Result<(), VMError>)
        ensures
            res is Err <==> CHIP8_PROGRAM_LOAD_ADDRESS + buffer@.len() > CHIP8_MEM_SIZE,
            match spec_load_program(old(self)@, buffer@) {
                Ok(m) => res is Ok && final(self)@ == m,
                Err(e) => res == Err::<(), VMError>(e) && final(self)@ == old(self)@,
            },
    {
        let len: usize = buffer.len();
        if len > CHIP8_MEM_SIZE - CHIP8_PROGRAM_LOAD_ADDRESS {
            return Err(VMError::ProgramSizeOverflow);
        }
        let mut k: usize = 0;
        while k < len
            invariant
                k <= len,
                len == buffer@.len(),
                len <= CHIP8_MEM_SIZE - CHIP8_PROGRAM_LOAD_ADDRESS,
                forall|a: int|
                    0 <= a < CHIP8_MEM_SIZE ==> self.memory@[a] == (if CHIP8_PROGRAM_LOAD_ADDRESS
                        <= a < CHIP8_PROGRAM_LOAD_ADDRESS + k {
                        buffer@[a - CHIP8_PROGRAM_LOAD_ADDRESS]
                    } else {
                        old(self).memory@[a]
                    }),
            decreases len - k,
        {
            self.memory[CHIP8_PROGRAM_LOAD_ADDRESS + k] = buffer[k];
            k += 1;
        }
        assert(self.memory@ =~= spec_load_program(old(self)@, buffer@).unwrap());
        Ok(())
    }

    /// Reads the instruction word at `index`: the byte there is its high half,
    /// the next byte its low half.
    pub fn get_opcode(&self, index: usize) -> (res: Result<u16, VMError>)
        ensures
            res == spec_get_opcode(self@, index as int),
    {
        if index >= CHIP8_MEM_SIZE - 1 {
            return Err(VMError::MemoryOutOfBounds(index));
        }
        let hi: u8 = self.memory[index];
        let lo: u8 = self.memory[index + 1];
        proof {
            lemma_big_endian(hi, lo);
        }
        let instruction: u16 = ((hi as u16) << 8) | (lo as u16);
        Ok(instruction)
    }
}

impl RAM {
    /// Memory as a trace shows it: eight bytes to a line, each line headed by the
    /// address of its first byte, everything in hexadecimal.
    pub fn dump(&self) -> (text: String)
        ensures
            text@ == spec_dump(self@),
    {
        let mut text = String::new();
        let mut memaddr: usize = 0;
        while memaddr < CHIP8_MEM_SIZE
            invariant
                memaddr <= CHIP8_MEM_SIZE,
                text@ == bytes_text(self@, memaddr as int),
            decreases CHIP8_MEM_SIZE - memaddr,
        {
            let ghost before = text@;
            if memaddr % COLUMNS_PER_LINE == 0 {
                if memaddr > 0 {
                    text.append("\n");
                }
                push_prefixed_hex(&mut text, memaddr as u32, 4);
                text.append(" | ");
            }
            push_prefixed_hex(&mut text, self.memory[memaddr] as u32, 2);
            text.append(" ");
            assert(text@ =~= before + byte_text(self@, memaddr as int));
            memaddr += 1;
        }
        text
    }
}

impl Default for RAM {
    /// A memory that holds the font and is zero elsewhere.
    fn default() -> (ram: RAM)
        ensures
            ram@ == initial_memory(),
    {
        let mut ram = RAM { memory: [0x00u8; CHIP8_MEM_SIZE] };
        let mut k: usize = 0;
        while k < CHIP8_FONT_SIZE
            invariant
                k <= CHIP8_FONT_SIZE,
                forall|a: int|
                    0 <= a < CHIP8_MEM_SIZE ==> ram.memory@[a] == (if a < k {
                        CHARSET@[a]
                    } else {
                        0u8
                    }),
            decreases CHIP8_FONT_SIZE - k,
        {
            ram.memory[k] = CHARSET[k];
            k += 1;
        }
        assert(ram.memory@ =~= initial_memory());
        ram
    }
}

} // verus!
