use joe::constants::{FONT_START_ADDR, MEMORY_SIZE, PROGRAM_START_ADDR};
use joe::memory::{FONT_HEIGHT, MAX_ROM_SIZE};
use joe::{Memory, MemoryBus, MemoryError};

#[test]
fn test_new_memory_has_font_data() {
    let memory = Memory::new(true);
    let zero_sprite = memory.get_font_sprite(0).unwrap();
    assert_eq!(zero_sprite, &[0xF0, 0x90, 0x90, 0x90, 0xF0]);
    let f_sprite = memory.get_font_sprite(0xF).unwrap();
    assert_eq!(f_sprite, &[0xF0, 0x80, 0xF0, 0x80, 0x80]);
}

#[test]
fn test_byte_read_write() {
    let mut memory = Memory::new(false);
    memory.write_byte(0x300, 0x42).unwrap();
    assert_eq!(memory.read_byte(0x300).unwrap(), 0x42);
}

#[test]
fn test_word_read_write() {
    let mut memory = Memory::new(false);
    memory.write_word(0x300, 0x1234).unwrap();
    assert_eq!(memory.read_word(0x300).unwrap(), 0x1234);
    assert_eq!(memory.read_byte(0x300).unwrap(), 0x12);
    assert_eq!(memory.read_byte(0x301).unwrap(), 0x34);
}

#[test]
fn test_write_protection() {
    let mut memory = Memory::new(true);
    let result = memory.write_byte(0x100, 0x42);
    assert!(matches!(result, Err(MemoryError::WriteProtected { addr: 0x100 })));
    memory.write_byte(0x300, 0x42).unwrap();
    assert_eq!(memory.read_byte(0x300).unwrap(), 0x42);
}

#[test]
fn memory_test_rom_loading() {
    let mut memory = Memory::new(true);
    let rom_data = vec![0x12, 0x34, 0x56, 0x78];
    memory.load_rom(&rom_data).unwrap();
    assert_eq!(memory.read_byte(PROGRAM_START_ADDR).unwrap(), 0x12);
    assert_eq!(memory.read_byte(PROGRAM_START_ADDR + 1).unwrap(), 0x34);
    assert_eq!(memory.read_byte(PROGRAM_START_ADDR + 2).unwrap(), 0x56);
    assert_eq!(memory.read_byte(PROGRAM_START_ADDR + 3).unwrap(), 0x78);
}

#[test]
fn test_rom_too_large() {
    let mut memory = Memory::new(true);
    let large_rom = vec![0; MAX_ROM_SIZE + 1];
    let result = memory.load_rom(&large_rom);
    assert!(matches!(
        result,
        Err(MemoryError::RomTooLarge { size, max_size })
        if size == MAX_ROM_SIZE + 1 && max_size == MAX_ROM_SIZE
    ));
}

#[test]
fn test_bounds_checking() {
    let memory = Memory::new(true);
    let result = memory.read_byte(MEMORY_SIZE as u16);
    assert!(matches!(result, Err(MemoryError::OutOfBounds { .. })));
    let result = memory.read_word((MEMORY_SIZE - 1) as u16);
    assert!(matches!(result, Err(MemoryError::WordReadOutOfBounds { .. })));
}

#[test]
fn test_font_sprite_addresses() {
    let memory = Memory::new(true);
    for digit in 0..=0xF {
        let addr = memory.get_font_sprite_addr(digit).unwrap();
        let expected_addr = FONT_START_ADDR + (digit as u16 * FONT_HEIGHT as u16);
        assert_eq!(addr, expected_addr);
    }
    let result = memory.get_font_sprite_addr(0x10);
    assert!(matches!(result, Err(MemoryError::InvalidFontDigit { digit: 0x10 })));
}

#[test]
fn test_complete_rom_loading_workflow() {
    let mut memory = Memory::new(true);
    let rom_data = vec![0xA2, 0x2A, 0x60, 0x0C, 0x61, 0x08, 0xD0, 0x14];
    memory.load_rom(&rom_data).expect("Should load valid ROM");
    assert_eq!(memory.read_word(PROGRAM_START_ADDR).unwrap(), 0xA22A);
    assert_eq!(memory.read_word(PROGRAM_START_ADDR + 2).unwrap(), 0x600C);
    let oversized_rom = vec![0x42; MEMORY_SIZE - PROGRAM_START_ADDR as usize + 1];
    let result = memory.load_rom(&oversized_rom);
    assert!(matches!(result, Err(MemoryError::RomTooLarge { .. })));
}

#[test]
fn test_write_protection_with_reset() {
    let mut memory = Memory::new(true);
    memory.load_rom(&[0x12, 0x34]).unwrap();
    memory.reset();
    let result = memory.write_byte(0x100, 0x42);
    assert!(matches!(result, Err(MemoryError::WriteProtected { .. })));
    assert_eq!(memory.get_font_sprite(0).unwrap().len(), 5);
}

#[test]
fn byte_round_trip_over_all_addresses() {
    let mut open = Memory::new(false);
    let mut guarded = Memory::new(true);
    for addr in 0..MEMORY_SIZE as u16 {
        let value = (addr % 251) as u8;
        open.write_byte(addr, value).unwrap();
        assert_eq!(open.read_byte(addr).unwrap(), value);
        let before = guarded.read_byte(addr).unwrap();
        let result = guarded.write_byte(addr, value);
        if addr <= 0x1FF {
            assert!(matches!(result, Err(MemoryError::WriteProtected { .. })));
            assert_eq!(guarded.read_byte(addr).unwrap(), before);
        } else {
            assert!(result.is_ok());
            assert_eq!(guarded.read_byte(addr).unwrap(), value);
        }
    }
}

#[test]
fn word_round_trip_splits_bytes() {
    let mut memory = Memory::new(false);
    for value in [0u16, 1, 0x00FF, 0x0100, 0xABCD, 0xFFFF] {
        memory.write_word(0xFFE, value).unwrap();
        assert_eq!(memory.read_word(0xFFE).unwrap(), value);
        assert_eq!(memory.read_byte(0xFFE).unwrap(), (value >> 8) as u8);
        assert_eq!(memory.read_byte(0xFFF).unwrap(), (value & 0xFF) as u8);
    }
    assert!(matches!(memory.write_word(0xFFF, 1), Err(MemoryError::WordWriteOutOfBounds { addr: 0xFFF })));
}

#[test]
fn protected_word_write_changes_nothing() {
    let mut memory = Memory::new(true);
    let before = memory.as_slice().to_vec();
    assert!(matches!(memory.write_word(0x1FF, 0xBEEF), Err(MemoryError::WriteProtected { addr: 0x1FF })));
    assert_eq!(memory.as_slice(), &before[..]);
}

#[test]
fn rom_of_maximum_size_loads_and_one_more_byte_is_refused() {
    let mut memory = Memory::new(true);
    let rom: Vec<u8> = (0..MAX_ROM_SIZE).map(|i| (i % 256) as u8).collect();
    memory.load_rom(&rom).unwrap();
    assert_eq!(memory.read_byte(0xFFF).unwrap(), ((MAX_ROM_SIZE - 1) % 256) as u8);
    let checksum_before: u64 = memory.as_slice().iter().map(|&b| b as u64).sum();
    let snapshot = memory.as_slice().to_vec();
    let too_big = vec![0xAA; 4096 - 512 + 1];
    let result = memory.load_rom(&too_big);
    assert!(matches!(result, Err(MemoryError::RomTooLarge { size: 3585, max_size: 3584 })));
    let checksum_after: u64 = memory.as_slice().iter().map(|&b| b as u64).sum();
    assert_eq!(checksum_before, checksum_after);
    assert_eq!(memory.as_slice(), &snapshot[..]);
}

#[test]
fn stats_and_protection_flag() {
    let mut memory = Memory::new(true);
    let stats = memory.get_stats();
    assert_eq!(stats.total_size, 4096);
    assert_eq!(stats.font_start, 0x050);
    assert_eq!(stats.font_size, 80);
    assert_eq!(stats.program_start, 0x200);
    assert_eq!(stats.max_rom_size, 3584);
    assert!(stats.write_protection_enabled);
    memory.set_write_protection(false);
    assert!(!memory.is_write_protection_enabled());
    assert!(MemoryBus::write_byte(&mut memory, 0x10, 7).is_ok());
    assert_eq!(MemoryBus::read_byte(&memory, 0x10).unwrap(), 7);
}

#[test]
fn reset_restores_font_and_clears_program_area() {
    let mut memory = Memory::new(false);
    memory.write_byte(0x50, 0).unwrap();
    memory.write_byte(0x300, 9).unwrap();
    memory.reset();
    assert_eq!(memory.read_byte(0x50).unwrap(), 0xF0);
    assert_eq!(memory.read_byte(0x300).unwrap(), 0);
    assert!(!memory.is_write_protection_enabled());
}
