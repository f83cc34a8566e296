//! The 4KB memory: a protected interpreter area, the built-in font glyphs and
//! the program area that ROMs are copied into.
use vstd::prelude::*;
use crate::constants::{FONT_START_ADDR, MEMORY_SIZE, PROGRAM_START_ADDR};

verus! {

/// End of the interpreter area (write-protected when protection is on).
pub const INTERPRETER_END_ADDR: u16 = 0x1FF;

/// Height of each font glyph in bytes.
pub const FONT_HEIGHT: usize = 5;

/// Total size of the font set (16 glyphs of 5 bytes).
pub const FONT_SET_SIZE: usize = 80;

/// Largest ROM: from the program start to the end of memory.
pub const MAX_ROM_SIZE: usize = 3584;

/// Memory errors.
#[derive(Debug, Clone, Copy, PartialEq, Eq, Structural)]
pub enum MemoryError {
    OutOfBounds { addr: u16, max: u16 },
    WriteProtected { addr: u16 },
    RomTooLarge { size: usize, max_size: usize },
    InvalidFontDigit { digit: u8 },
    WordReadOutOfBounds { addr: u16 },
    WordWriteOutOfBounds { addr: u16 },
}

/// The built-in hexadecimal glyphs 0-F, five rows of four pixels each.
pub open spec fn font_set() -> Seq<u8> {
    seq![
        0xF0, 0x90, 0x90, 0x90, 0xF0, 0x20, 0x60, 0x20, 0x20, 0x70,
        0xF0, 0x10, 0xF0, 0x80, 0xF0, 0xF0, 0x10, 0xF0, 0x10, 0xF0,
        0x90, 0x90, 0xF0, 0x10, 0x10, 0xF0, 0x80, 0xF0, 0x10, 0xF0,
        0xF0, 0x80, 0xF0, 0x90, 0xF0, 0xF0, 0x10, 0x20, 0x40, 0x40,
        0xF0, 0x90, 0xF0, 0x90, 0xF0, 0xF0, 0x90, 0xF0, 0x10, 0xF0,
        0xF0, 0x90, 0xF0, 0x90, 0x90, 0xE0, 0x90, 0xE0, 0x90, 0xE0,
        0xF0, 0x80, 0x80, 0x80, 0xF0, 0xE0, 0x90, 0x90, 0x90, 0xE0,
        0xF0, 0x80, 0xF0, 0x80, 0xF0, 0xF0, 0x80, 0xF0, 0x80, 0x80u8,
    ]
}

/// Memory right after construction or reset: zeros, with the font glyphs at
/// `FONT_START_ADDR`.
pub open spec fn initial_memory() -> Seq<u8> {
    Seq::new(
        MEMORY_SIZE as nat,
        |i: int|
            if FONT_START_ADDR <= i < FONT_START_ADDR + FONT_SET_SIZE {
                font_set()[i - FONT_START_ADDR]
            } else {
                0u8
            },
    )
}

/// Outcome of a byte read at `addr`.
pub open spec fn read_byte_spec(mem: Seq<u8>, addr: u16) -> Result<u8, MemoryError> {
    if addr as int >= MEMORY_SIZE {
        Err(MemoryError::OutOfBounds { addr, max: (MEMORY_SIZE - 1) as u16 })
    } else {
        Ok(mem[addr as int])
    }
}

/// Outcome of a byte write at `addr`: out of range, refused by protection,
/// or accepted.
pub open spec fn write_byte_spec(protected: bool, addr: u16) -> Result<(), MemoryError> {
    if addr as int >= MEMORY_SIZE {
        Err(MemoryError::OutOfBounds { addr, max: (MEMORY_SIZE - 1) as u16 })
    } else if protected && addr <= INTERPRETER_END_ADDR {
        Err(MemoryError::WriteProtected { addr })
    } else {
        Ok(())
    }
}

/// The big-endian word stored at `addr` and `addr + 1`.
pub open spec fn word_at(mem: Seq<u8>, addr: int) -> u16 {
    (mem[addr] * 256 + mem[addr + 1]) as u16
}

/// Outcome of a word read at `addr`.
pub open spec fn read_word_spec(mem: Seq<u8>, addr: u16) -> Result<u16, MemoryError> {
    if addr as int + 1 >= MEMORY_SIZE {
        Err(MemoryError::WordReadOutOfBounds { addr })
    } else {
        Ok(word_at(mem, addr as int))
    }
}

/// Outcome of a word write at `addr`.
pub open spec fn write_word_spec(protected: bool, addr: u16) -> Result<(), MemoryError> {
    if addr as int + 1 >= MEMORY_SIZE {
        Err(MemoryError::WordWriteOutOfBounds { addr })
    } else if protected && addr <= INTERPRETER_END_ADDR {
        Err(MemoryError::WriteProtected { addr })
    } else {
        Ok(())
    }
}

/// The address of the glyph of a hexadecimal digit.
pub open spec fn font_addr_spec(digit: u8) -> Result<u16, MemoryError> {
    if digit > 0xF {
        Err(MemoryError::InvalidFontDigit { digit })
    } else {
        Ok((FONT_START_ADDR + digit * FONT_HEIGHT) as u16)
    }
}

/// Memory after a ROM is copied to the program area.
pub open spec fn with_rom(mem: Seq<u8>, rom: Seq<u8>) -> Seq<u8> {
    Seq::new(
        mem.len(),
        |i: int|
            if PROGRAM_START_ADDR <= i < PROGRAM_START_ADDR + rom.len() {
                rom[i - PROGRAM_START_ADDR]
            } else {
                mem[i]
            },
    )
}

/// A byte written at an address in range reads back unchanged, unless the
/// address lies in the interpreter area while protection is on: then the write
/// fails with `WriteProtected` and the stored byte stays what it was.
pub proof fn lemma_byte_round_trip(mem: Seq<u8>, protected: bool, addr: u16, value: u8)
    requires
        mem.len() == MEMORY_SIZE,
        addr < MEMORY_SIZE,
    ensures
        !(protected && addr <= INTERPRETER_END_ADDR) ==> write_byte_spec(protected, addr) is Ok
            && read_byte_spec(mem.update(addr as int, value), addr) == Ok::<u8, MemoryError>(
            value,
        ),
        protected && addr <= INTERPRETER_END_ADDR ==> write_byte_spec(protected, addr) == Err::<
            (),
            MemoryError,
        >(MemoryError::WriteProtected { addr }) && read_byte_spec(mem, addr) == Ok::<
            u8,
            MemoryError,
        >(mem[addr as int]),
{
}

/// A word written where the write succeeds reads back unchanged, its high
/// byte (`value >> 8`) at `addr` and its low byte (`value & 0xFF`) at `addr + 1`.
pub proof fn lemma_word_round_trip(mem: Seq<u8>, protected: bool, addr: u16, value: u16)
    requires
        mem.len() == MEMORY_SIZE,
        write_word_spec(protected, addr) is Ok,
    ensures
        ({
            let written = mem.update(addr as int, (value / 256) as u8).update(
                addr as int + 1,
                (value % 256) as u8,
            );
            &&& read_word_spec(written, addr) == Ok::<u16, MemoryError>(value)
            &&& read_byte_spec(written, addr) == Ok::<u8, MemoryError>((value >> 8u16) as u8)
            &&& read_byte_spec(written, (addr + 1) as u16) == Ok::<u8, MemoryError>(
                (value & 0xFFu16) as u8,
            )
        }),
{
    assert(value >> 8u16 == value / 256 && value & 0xFFu16 == value % 256) by (bit_vector);
}

/// Byte-level access to a memory, as the interpreter needs it.
pub trait MemoryBus {
    /// The memory contents.
    spec fn bytes(&self) -> Seq<u8>;

    /// Whether the interpreter area refuses writes.
    spec fn write_protected(&self) -> bool;

    /// Read a single byte from memory.
    fn read_byte(&self, addr: u16) -> (r: Result<u8, MemoryError>)
        ensures
            r == read_byte_spec(self.bytes(), addr),
    ;

    /// Write a single byte to memory; nothing changes when it fails.
    fn write_byte(&mut self, addr: u16, value: u8) -> (r: Result<(), MemoryError>)
        ensures
            r == write_byte_spec(old(self).write_protected(), addr),
            final(self).write_protected() == old(self).write_protected(),
            final(self).bytes() == (if r is Ok {
                old(self).bytes().update(addr as int, value)
            } else {
                old(self).bytes()
            }),
    ;
}

/// The glyph address of a hexadecimal digit, `0x050 + digit * 5`.
pub fn font_glyph_address(digit: u8) -> (r: Result<u16, MemoryError>)
    ensures
        r == font_addr_spec(digit),
{
    if digit > 0xF {
        return Err(MemoryError::InvalidFontDigit { digit });
    }
    Ok(FONT_START_ADDR + (digit as u16) * 5)
}

/// The font glyphs as an array.
fn font_bytes() -> (r: [u8; FONT_SET_SIZE])
    ensures
        r@ == font_set(),
{
    let r: [u8; FONT_SET_SIZE] = [
        0xF0, 0x90, 0x90, 0x90, 0xF0, 0x20, 0x60, 0x20, 0x20, 0x70,
        0xF0, 0x10, 0xF0, 0x80, 0xF0, 0xF0, 0x10, 0xF0, 0x10, 0xF0,
        0x90, 0x90, 0xF0, 0x10, 0x10, 0xF0, 0x80, 0xF0, 0x10, 0xF0,
        0xF0, 0x80, 0xF0, 0x90, 0xF0, 0xF0, 0x10, 0x20, 0x40, 0x40,
        0xF0, 0x90, 0xF0, 0x90, 0xF0, 0xF0, 0x90, 0xF0, 0x10, 0xF0,
        0xF0, 0x90, 0xF0, 0x90, 0x90, 0xE0, 0x90, 0xE0, 0x90, 0xE0,
        0xF0, 0x80, 0x80, 0x80, 0xF0, 0xE0, 0x90, 0x90, 0x90, 0xE0,
        0xF0, 0x80, 0xF0, 0x80, 0xF0, 0xF0, 0x80, 0xF0, 0x80, 0x80,
    ];
    assert(r@ =~= font_set());
    r
}

/// The memory system.
pub struct Memory {
    ram: [u8; MEMORY_SIZE],
    write_protection_enabled: bool,
}

impl View for Memory {
    type V = Seq<u8>;

    closed spec fn view(&self) -> Seq<u8> {
        self.ram@
    }
}

impl Memory {
    /// Whether writes to the interpreter area are refused.
    pub closed spec fn protected(&self) -> bool {
        self.write_protection_enabled
    }

    /// The contents are exactly `MEMORY_SIZE` bytes.
    pub proof fn lemma_len(&self)
        ensures
            self@.len() == MEMORY_SIZE,
    {
    }

    /// A memory holding only the font glyphs.
    pub fn new(write_protection_enabled: bool) -> (r: Self)
        ensures
            r@ == initial_memory(),
            r.protected() == write_protection_enabled,
    {
        let mut memory = Memory { ram: [0u8; MEMORY_SIZE], write_protection_enabled };
        memory.load_font_data();
        memory
    }

    /// Zero everything, then copy the font glyphs in.
    fn load_font_data(&mut self)
        ensures
            final(self)@ == initial_memory(),
            final(self).protected() == old(self).protected(),
    {
        let font = font_bytes();
        let mut ram = [0u8; MEMORY_SIZE];
        assert(ram@ =~= Seq::new(MEMORY_SIZE as nat, |i: int| 0u8));
        let start: usize = FONT_START_ADDR as usize;
        let mut i: usize = 0;
        while i < FONT_SET_SIZE
            invariant
                i <= FONT_SET_SIZE,
                font@ == font_set(),
                start == FONT_START_ADDR,
                forall|j: int|
                    0 <= j < MEMORY_SIZE ==> #[trigger] ram@[j] == (if start <= j < start + i {
                        font_set()[j - start]
                    } else {
                        0u8
                    }),
            decreases FONT_SET_SIZE - i,
        {
            ram[start + i] = font[i];
            i += 1;
        }
        self.ram = ram;
        assert(self.ram@ =~= initial_memory());
    }

    /// Read a single byte from memory.
    pub fn read_byte(&self, addr: u16) -> (r: Result<u8, MemoryError>)
        ensures
            r == read_byte_spec(self@, addr),
    {
        if addr as usize >= MEMORY_SIZE {
            return Err(MemoryError::OutOfBounds { addr, max: (MEMORY_SIZE - 1) as u16 });
        }
        Ok(self.ram[addr as usize])
    }

    /// Write a single byte. Fails when `addr` is out of range, or when
    /// protection is on and `addr <= 0x1FF`; memory is unchanged on failure.
    pub fn write_byte(&mut self, addr: u16, value: u8) -> (r: Result<(), MemoryError>)
        ensures
            r == write_byte_spec(old(self).protected(), addr),
            final(self).protected() == old(self).protected(),
            final(self)@ == (if r is Ok {
                old(self)@.update(addr as int, value)
            } else {
                old(self)@
            }),
    {
        if addr as usize >= MEMORY_SIZE {
            return Err(MemoryError::OutOfBounds { addr, max: (MEMORY_SIZE - 1) as u16 });
        }
        if self.write_protection_enabled && addr <= INTERPRETER_END_ADDR {
            return Err(MemoryError::WriteProtected { addr });
        }
        self.ram[addr as usize] = value;
        Ok(())
    }

    /// Read a big-endian word: the byte at `addr` is the high byte.
    pub fn read_word(&self, addr: u16) -> (r: Result<u16, MemoryError>)
        ensures
            r == read_word_spec(self@, addr),
    {
        if addr as usize + 1 >= MEMORY_SIZE {
            return Err(MemoryError::WordReadOutOfBounds { addr });
        }
        let high = self.ram[addr as usize] as u16;
        let low = self.ram[addr as usize + 1] as u16;
        Ok(high * 256 + low)
    }

    /// Write a big-endian word. Either both bytes change or, on failure,
    /// neither does.
    pub fn write_word(&mut self, addr: u16, value: u16) -> (r: Result<(), MemoryError>)
        ensures
            r == write_word_spec(old(self).protected(), addr),
            final(self).protected() == old(self).protected(),
            final(self)@ == (if r is Ok {
                old(self)@.update(addr as int, (value / 256) as u8).update(
                    addr as int + 1,
                    (value % 256) as u8,
                )
            } else {
                old(self)@
            }),
    {
        if addr as usize + 1 >= MEMORY_SIZE {
            return Err(MemoryError::WordWriteOutOfBounds { addr });
        }
        let high = (value / 256) as u8;
        let low = (value % 256) as u8;
        match self.write_byte(addr, high) {
            Ok(()) => {},
            Err(e) => {
                return Err(e);
            },
        }
        match self.write_byte(addr + 1, low) {
            Ok(()) => {},
            Err(e) => {
                return Err(e);
            },
        }
        Ok(())
    }

    /// Copy a ROM to the program area. A ROM longer than `MAX_ROM_SIZE` is
    /// refused and memory is left unchanged.
    pub fn load_rom(&mut self, rom_data: &[u8]) -> (r: Result<(), MemoryError>)
        ensures
            rom_data@.len() <= MAX_ROM_SIZE ==> r is Ok && final(self)@ == with_rom(
                old(self)@,
                rom_data@,
            ),
            rom_data@.len() > MAX_ROM_SIZE ==> r == Err::<(), MemoryError>(
                MemoryError::RomTooLarge { size: rom_data@.len() as usize, max_size: MAX_ROM_SIZE },
            ) && final(self)@ == old(self)@,
            final(self).protected() == old(self).protected(),
    {
        if rom_data.len() > MAX_ROM_SIZE {
            return Err(MemoryError::RomTooLarge { size: rom_data.len(), max_size: MAX_ROM_SIZE });
        }
        let start: usize = PROGRAM_START_ADDR as usize;
        let ghost before = self.ram@;
        let mut i: usize = 0;
        while i < rom_data.len()
            invariant
                i <= rom_data@.len() <= MAX_ROM_SIZE,
                start == PROGRAM_START_ADDR,
                self.protected() == old(self).protected(),
                before == old(self)@,
                forall|j: int|
                    0 <= j < MEMORY_SIZE ==> #[trigger] self.ram@[j] == (if start <= j < start
                        + i {
                        rom_data@[j - start]
                    } else {
                        before[j]
                    }),
            decreases rom_data@.len() - i,
        {
            self.ram[start + i] = rom_data[i];
            i += 1;
        }
        assert(self.ram@ =~= with_rom(before, rom_data@));
        Ok(())
    }

    /// The five rows of the glyph of a hexadecimal digit.
    pub fn get_font_sprite(&self, digit: u8) -> (r: Result<&[u8], MemoryError>)
        ensures
            digit > 0xF ==> r == Err::<&[u8], MemoryError>(
                MemoryError::InvalidFontDigit { digit },
            ),
            digit <= 0xF ==> r is Ok && r->Ok_0@ == self@.subrange(
                FONT_START_ADDR + digit * FONT_HEIGHT,
                FONT_START_ADDR + digit * FONT_HEIGHT + FONT_HEIGHT,
            ),
    {
        if digit > 0xF {
            return Err(MemoryError::InvalidFontDigit { digit });
        }
        let start: usize = FONT_START_ADDR as usize + digit as usize * FONT_HEIGHT;
        let ram = self.ram.as_slice();
        Ok(&ram[start..start + FONT_HEIGHT])
    }

    /// The glyph address of a hexadecimal digit.
    pub fn get_font_sprite_addr(&self, digit: u8) -> (r: Result<u16, MemoryError>)
        ensures
            r == font_addr_spec(digit),
    {
        font_glyph_address(digit)
    }

    /// Turn protection of the interpreter area on or off.
    pub fn set_write_protection(&mut self, enabled: bool)
        ensures
            final(self).protected() == enabled,
            final(self)@ == old(self)@,
    {
        self.write_protection_enabled = enabled;
    }

    /// Whether protection of the interpreter area is on.
    pub fn is_write_protection_enabled(&self) -> (r: bool)
        ensures
            r == self.protected(),
    {
        self.write_protection_enabled
    }

    /// Zero all bytes and reload the font; protection is unaffected.
    pub fn reset(&mut self)
        ensures
            final(self)@ == initial_memory(),
            final(self).protected() == old(self).protected(),
    {
        self.load_font_data();
    }

    /// A read-only view of the whole memory.
    pub fn as_slice(&self) -> (r: &[u8])
        ensures
            r@ == self@,
    {
        self.ram.as_slice()
    }

    /// Layout figures and the protection flag.
    pub fn get_stats(&self) -> (r: MemoryStats)
        ensures
            r.total_size == MEMORY_SIZE,
            r.font_start == FONT_START_ADDR,
            r.font_size == FONT_SET_SIZE,
            r.program_start == PROGRAM_START_ADDR,
            r.max_rom_size == MAX_ROM_SIZE,
            r.write_protection_enabled == self.protected(),
    {
        MemoryStats {
            total_size: MEMORY_SIZE,
            font_start: FONT_START_ADDR,
            font_size: FONT_SET_SIZE,
            program_start: PROGRAM_START_ADDR,
            max_rom_size: MAX_ROM_SIZE,
            write_protection_enabled: self.write_protection_enabled,
        }
    }
}

/// Memory layout figures.
#[derive(Debug, Clone, PartialEq)]
pub struct MemoryStats {
    pub total_size: usize,
    pub font_start: u16,
    pub font_size: usize,
    pub program_start: u16,
    pub max_rom_size: usize,
    pub write_protection_enabled: bool,
}

impl Default for Memory {
    /// A memory with protection on.
    fn default() -> (r: Self)
        ensures
            r@ == initial_memory(),
            r.protected(),
    {
        Self::new(true)
    }
}

impl MemoryBus for Memory {
    open spec fn bytes(&self) -> Seq<u8> {
        self@
    }

    open spec fn write_protected(&self) -> bool {
        self.protected()
    }

    fn read_byte(&self, addr: u16) -> (r: Result<u8, MemoryError>) {
        Memory::read_byte(self, addr)
    }

    fn write_byte(&mut self, addr: u16, value: u8) -> (r: Result<(), MemoryError>) {
        Memory::write_byte(self, addr, value)
    }
}

} // verus!
