use joe::constants::PROGRAM_START_ADDR;
use joe::{
    analyze_instruction_usage, disassemble_rom, Cpu, CpuError, CpuState, Display, DisplayBus, Instruction,
    Memory, MemoryError, MockInput,
};

fn machine(program: &[u8]) -> (Cpu, Memory, Display, MockInput) {
    let mut memory = Memory::new(true);
    memory.load_rom(program).unwrap();
    (Cpu::new(), memory, Display::new(), MockInput::new())
}

fn cause(err: CpuError) -> CpuError {
    match err {
        CpuError::InstructionExecutionFailed { source, .. } => *source,
        other => other,
    }
}

#[test]
fn clear_load_set_index_sequence() {
    let (mut cpu, mut memory, mut display, mut input) = machine(&[0x00, 0xE0, 0x63, 0x42, 0xA3, 0x00]);
    display.set_pixel(3, 3, true);
    for _ in 0..3 {
        cpu.execute_cycle(&mut memory, &mut display, &mut input).unwrap();
    }
    assert_eq!(display.get_stats().pixels_on, 0);
    assert_eq!(cpu.get_register(3).unwrap(), 0x42);
    assert_eq!(cpu.get_index(), 0x300);
    assert_eq!(cpu.get_pc(), 0x200 + 6);
}

#[test]
fn call_then_return_sequence() {
    let (mut cpu, mut memory, mut display, mut input) = machine(&[0x23, 0x00]);
    memory.write_word(0x300, 0x00EE).unwrap();
    assert_eq!(cpu.get_pc(), 0x200);
    cpu.execute_cycle(&mut memory, &mut display, &mut input).unwrap();
    assert_eq!(cpu.get_pc(), 0x300);
    assert_eq!(cpu.get_stack_pointer(), 1);
    cpu.execute_cycle(&mut memory, &mut display, &mut input).unwrap();
    assert_eq!(cpu.get_pc(), 0x202);
    assert_eq!(cpu.get_stack_pointer(), 0);
}

#[test]
fn wait_key_blocks_until_a_key_arrives() {
    let (mut cpu, mut memory, mut display, mut input) = machine(&[0xF4, 0x0A]);
    cpu.execute_cycle(&mut memory, &mut display, &mut input).unwrap();
    assert_eq!(*cpu.get_state(), CpuState::WaitingForKey { vx: 4 });
    assert_eq!(cpu.get_pc(), 0x202);
    for _ in 0..3 {
        cpu.execute_cycle(&mut memory, &mut display, &mut input).unwrap();
        assert_eq!(*cpu.get_state(), CpuState::WaitingForKey { vx: 4 });
        assert_eq!(cpu.get_pc(), 0x202);
        assert_eq!(cpu.get_register(4).unwrap(), 0);
    }
    input.press_key(0xC).unwrap();
    cpu.execute_cycle(&mut memory, &mut display, &mut input).unwrap();
    assert_eq!(*cpu.get_state(), CpuState::Running);
    assert_eq!(cpu.get_register(4).unwrap(), 0xC);
    assert_eq!(cpu.get_pc(), 0x202);
}

#[test]
fn seventeenth_nested_call_overflows() {
    let mut program = Vec::new();
    for k in 0..17u16 {
        let target = 0x200 + 2 * (k + 1);
        program.push(0x20 | (target >> 8) as u8);
        program.push((target & 0xFF) as u8);
    }
    let (mut cpu, mut memory, mut display, mut input) = machine(&program);
    for depth in 1..=16u8 {
        cpu.execute_cycle(&mut memory, &mut display, &mut input).unwrap();
        assert_eq!(cpu.get_stack_pointer(), depth);
    }
    let err = cpu.execute_cycle(&mut memory, &mut display, &mut input).unwrap_err();
    match err {
        CpuError::InstructionExecutionFailed { instruction, addr, source } => {
            assert_eq!(addr, 0x220);
            assert_eq!(instruction, 0x2222);
            assert!(matches!(*source, CpuError::StackOverflow { max_depth: 16 }));
        }
        other => panic!("unexpected {:?}", other),
    }
    assert_eq!(cpu.get_stack_pointer(), 16);
}

#[test]
fn return_with_empty_stack_underflows() {
    let (mut cpu, mut memory, mut display, mut input) = machine(&[0x00, 0xEE]);
    let err = cpu.execute_cycle(&mut memory, &mut display, &mut input).unwrap_err();
    assert!(matches!(cause(err), CpuError::StackUnderflow));
    assert!(matches!(cpu.return_from_subroutine(), Err(CpuError::StackUnderflow)));
}

#[test]
fn arithmetic_flags() {
    // V0 = 0xF0, V1 = 0x20, V0 += V1 -> 0x10 carry
    let (mut cpu, mut memory, mut display, mut input) =
        machine(&[0x60, 0xF0, 0x61, 0x20, 0x80, 0x14, 0x82, 0x05, 0x83, 0x17]);
    for _ in 0..3 {
        cpu.execute_cycle(&mut memory, &mut display, &mut input).unwrap();
    }
    assert_eq!(cpu.get_register(0).unwrap(), 0x10);
    assert_eq!(cpu.get_register(0xF).unwrap(), 1);
    // V2 -= V0: 0 - 0x10 borrows
    cpu.execute_cycle(&mut memory, &mut display, &mut input).unwrap();
    assert_eq!(cpu.get_register(2).unwrap(), 0xF0);
    assert_eq!(cpu.get_register(0xF).unwrap(), 0);
    // V3 = V1 - V3 = 0x20 - 0: no borrow
    cpu.execute_cycle(&mut memory, &mut display, &mut input).unwrap();
    assert_eq!(cpu.get_register(3).unwrap(), 0x20);
    assert_eq!(cpu.get_register(0xF).unwrap(), 1);
}

#[test]
fn shifts_and_logic() {
    let (mut cpu, mut memory, mut display, mut input) =
        machine(&[0x60, 0x81, 0x80, 0x06, 0x61, 0x81, 0x81, 0x0E, 0x62, 0x0C, 0x63, 0x0A, 0x82, 0x31, 0x84, 0x22, 0x82, 0x33, 0x7F, 0xFF]);
    cpu.execute_cycle(&mut memory, &mut display, &mut input).unwrap();
    cpu.execute_cycle(&mut memory, &mut display, &mut input).unwrap();
    assert_eq!(cpu.get_register(0).unwrap(), 0x40);
    assert_eq!(cpu.get_register(0xF).unwrap(), 1);
    cpu.execute_cycle(&mut memory, &mut display, &mut input).unwrap();
    cpu.execute_cycle(&mut memory, &mut display, &mut input).unwrap();
    assert_eq!(cpu.get_register(1).unwrap(), 0x02);
    assert_eq!(cpu.get_register(0xF).unwrap(), 1);
    for _ in 0..3 {
        cpu.execute_cycle(&mut memory, &mut display, &mut input).unwrap();
    }
    assert_eq!(cpu.get_register(2).unwrap(), 0x0E);
    cpu.execute_cycle(&mut memory, &mut display, &mut input).unwrap();
    assert_eq!(cpu.get_register(4).unwrap(), 0x00);
    cpu.execute_cycle(&mut memory, &mut display, &mut input).unwrap();
    assert_eq!(cpu.get_register(2).unwrap(), 0x04);
    let vf = cpu.get_register(0xF).unwrap();
    cpu.execute_cycle(&mut memory, &mut display, &mut input).unwrap();
    assert_eq!(cpu.get_register(0xF).unwrap(), vf.wrapping_add(0xFF));
}

#[test]
fn bcd_and_register_transfer() {
    let (mut cpu, mut memory, mut display, mut input) =
        machine(&[0x65, 0xFE, 0xA3, 0x00, 0xF5, 0x33, 0xF2, 0x65, 0xA4, 0x00, 0xF2, 0x55]);
    for _ in 0..4 {
        cpu.execute_cycle(&mut memory, &mut display, &mut input).unwrap();
    }
    assert_eq!(memory.read_byte(0x300).unwrap(), 2);
    assert_eq!(memory.read_byte(0x301).unwrap(), 5);
    assert_eq!(memory.read_byte(0x302).unwrap(), 4);
    assert_eq!(cpu.get_register(0).unwrap(), 2);
    assert_eq!(cpu.get_register(1).unwrap(), 5);
    assert_eq!(cpu.get_register(2).unwrap(), 4);
    assert_eq!(cpu.get_index(), 0x300);
    cpu.execute_cycle(&mut memory, &mut display, &mut input).unwrap();
    cpu.execute_cycle(&mut memory, &mut display, &mut input).unwrap();
    assert_eq!(memory.read_byte(0x400).unwrap(), 2);
    assert_eq!(memory.read_byte(0x401).unwrap(), 5);
    assert_eq!(memory.read_byte(0x402).unwrap(), 4);
    assert_eq!(cpu.get_index(), 0x400);
}

#[test]
fn protected_store_fails_with_memory_error() {
    let (mut cpu, mut memory, mut display, mut input) = machine(&[0xA1, 0x00, 0xF0, 0x55]);
    cpu.execute_cycle(&mut memory, &mut display, &mut input).unwrap();
    let err = cpu.execute_cycle(&mut memory, &mut display, &mut input).unwrap_err();
    assert!(matches!(cause(err), CpuError::Memory(MemoryError::WriteProtected { addr: 0x100 })));
}

#[test]
fn font_and_index_instructions() {
    let (mut cpu, mut memory, mut display, mut input) =
        machine(&[0x60, 0x0A, 0xF0, 0x29, 0xF0, 0x1E, 0x61, 0x10, 0xF1, 0x29]);
    cpu.execute_cycle(&mut memory, &mut display, &mut input).unwrap();
    cpu.execute_cycle(&mut memory, &mut display, &mut input).unwrap();
    assert_eq!(cpu.get_index(), 0x50 + 50);
    cpu.execute_cycle(&mut memory, &mut display, &mut input).unwrap();
    assert_eq!(cpu.get_index(), 0x50 + 60);
    cpu.execute_cycle(&mut memory, &mut display, &mut input).unwrap();
    let err = cpu.execute_cycle(&mut memory, &mut display, &mut input).unwrap_err();
    assert!(matches!(cause(err), CpuError::Memory(MemoryError::InvalidFontDigit { digit: 0x10 })));
}

#[test]
fn jump_with_offset_and_timers() {
    let (mut cpu, mut memory, mut display, mut input) =
        machine(&[0x60, 0x04, 0xB3, 0x00]);
    memory.write_word(0x304, 0xF015).unwrap();
    memory.write_word(0x306, 0xF018).unwrap();
    memory.write_word(0x308, 0xF107).unwrap();
    cpu.execute_cycle(&mut memory, &mut display, &mut input).unwrap();
    cpu.execute_cycle(&mut memory, &mut display, &mut input).unwrap();
    assert_eq!(cpu.get_pc(), 0x304);
    cpu.execute_cycle(&mut memory, &mut display, &mut input).unwrap();
    cpu.execute_cycle(&mut memory, &mut display, &mut input).unwrap();
    assert_eq!(cpu.get_delay_timer(), 4);
    assert!(cpu.should_beep());
    cpu.update_timers();
    cpu.execute_cycle(&mut memory, &mut display, &mut input).unwrap();
    assert_eq!(cpu.get_register(1).unwrap(), 3);
}

#[test]
fn random_is_masked_and_seeded() {
    let (mut cpu, mut memory, mut display, mut input) = machine(&[0xC0, 0x0F, 0xC1, 0x0F]);
    cpu.set_random_seed(12345);
    cpu.execute_cycle(&mut memory, &mut display, &mut input).unwrap();
    cpu.execute_cycle(&mut memory, &mut display, &mut input).unwrap();
    let a = (cpu.get_register(0).unwrap(), cpu.get_register(1).unwrap());
    assert!(a.0 <= 0x0F && a.1 <= 0x0F);
    let (mut cpu2, mut memory2, mut display2, mut input2) = machine(&[0xC0, 0x0F, 0xC1, 0x0F]);
    cpu2.set_random_seed(12345);
    cpu2.execute_cycle(&mut memory2, &mut display2, &mut input2).unwrap();
    cpu2.execute_cycle(&mut memory2, &mut display2, &mut input2).unwrap();
    assert_eq!(a, (cpu2.get_register(0).unwrap(), cpu2.get_register(1).unwrap()));
}

#[test]
fn draw_past_end_of_memory_fails() {
    let (mut cpu, mut memory, mut display, mut input) = machine(&[0xAF, 0xFE, 0xD0, 0x04]);
    cpu.execute_cycle(&mut memory, &mut display, &mut input).unwrap();
    let err = cpu.execute_cycle(&mut memory, &mut display, &mut input).unwrap_err();
    assert!(matches!(cause(err), CpuError::Memory(MemoryError::OutOfBounds { addr: 0x1000, .. })));
    assert_eq!(display.get_stats().pixels_on, 0);
    let (mut cpu, mut memory, mut display, mut input) = machine(&[0xD0, 0x00]);
    let err = cpu.execute_cycle(&mut memory, &mut display, &mut input).unwrap_err();
    assert!(matches!(cause(err), CpuError::Display(joe::DisplayError::EmptySpriteData)));
}

#[test]
fn disassembly_stops_at_zero_word() {
    let mut memory = Memory::new(true);
    memory.load_rom(&[0x00, 0xE0, 0x63, 0x42, 0xD1, 0x25, 0x00, 0x00, 0x12, 0x00]).unwrap();
    let listing = disassemble_rom(&memory).unwrap();
    assert_eq!(listing.len(), 3);
    assert_eq!(listing[0].address, PROGRAM_START_ADDR);
    assert_eq!(listing[1].opcode, 0x6342);
    assert_eq!(listing[2].instruction, Instruction::Draw { vx: 1, vy: 2, n: 5 });
    assert_eq!(listing[2].mnemonic(), "DRW V1, V2, 5");
    let analysis = analyze_instruction_usage(&listing);
    assert_eq!(analysis.system, 1);
    assert!(analysis.cls);
    assert_eq!(analysis.load_imm, 1);
    assert_eq!(analysis.draw, 1);
    assert_eq!(analysis.jump, 0);
    assert!(!analysis.ret);
}

#[test]
fn disassembly_stops_at_undecodable_word() {
    let mut memory = Memory::new(true);
    memory.load_rom(&[0x80, 0x14, 0x80, 0x18, 0x12, 0x00]).unwrap();
    let listing = disassemble_rom(&memory).unwrap();
    assert_eq!(listing.len(), 1);
    let analysis = analyze_instruction_usage(&listing);
    assert_eq!(analysis.arithmetic, 1);
    assert!(analysis.add_reg);
    assert!(disassemble_rom(&Memory::new(true)).unwrap().is_empty());
}
