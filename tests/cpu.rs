use joe::constants::{NUM_REGISTERS, PROGRAM_START_ADDR};
use joe::{Cpu, CpuError, CpuState, Display, DisplayBus, Memory, MockInput};

#[test]
fn test_cpu_initialization() {
    let cpu = Cpu::new();
    assert_eq!(cpu.get_pc(), PROGRAM_START_ADDR);
    assert_eq!(cpu.get_index(), 0);
    assert_eq!(cpu.get_delay_timer(), 0);
    assert_eq!(cpu.get_sound_timer(), 0);
    for i in 0..NUM_REGISTERS {
        assert_eq!(cpu.get_register(i).unwrap(), 0);
    }
}

#[test]
fn test_reset() {
    let mut cpu = Cpu::new();
    cpu.set_register(5, 0x42).unwrap();
    cpu.set_index(0x300);
    cpu.set_pc(0x400);
    cpu.set_delay_timer(30);
    cpu.reset();
    assert_eq!(cpu.get_pc(), PROGRAM_START_ADDR);
    assert_eq!(cpu.get_index(), 0);
    assert_eq!(cpu.get_delay_timer(), 0);
    assert_eq!(cpu.get_register(5).unwrap(), 0);
}

#[test]
fn test_load_instruction() {
    let mut cpu = Cpu::new();
    let mut memory = Memory::new(true);
    let mut display = Display::new();
    let mut input = MockInput::new();
    memory.write_word(PROGRAM_START_ADDR, 0x6342).unwrap();
    cpu.execute_cycle(&mut memory, &mut display, &mut input).unwrap();
    assert_eq!(cpu.get_register(3).unwrap(), 0x42);
    assert_eq!(cpu.get_pc(), PROGRAM_START_ADDR + 2);
}

#[test]
fn test_add_instruction() {
    let mut cpu = Cpu::new();
    let mut memory = Memory::new(true);
    let mut display = Display::new();
    let mut input = MockInput::new();
    cpu.set_register(2, 0x10).unwrap();
    memory.write_word(PROGRAM_START_ADDR, 0x7225).unwrap();
    cpu.execute_cycle(&mut memory, &mut display, &mut input).unwrap();
    assert_eq!(cpu.get_register(2).unwrap(), 0x35);
}

#[test]
fn test_jump_instruction() {
    let mut cpu = Cpu::new();
    let mut memory = Memory::new(true);
    let mut display = Display::new();
    let mut input = MockInput::new();
    memory.write_word(PROGRAM_START_ADDR, 0x1300).unwrap();
    cpu.execute_cycle(&mut memory, &mut display, &mut input).unwrap();
    assert_eq!(cpu.get_pc(), 0x300);
}

#[test]
fn test_call_and_return() {
    let mut cpu = Cpu::new();
    let mut memory = Memory::new(true);
    let mut display = Display::new();
    let mut input = MockInput::new();
    memory.write_word(PROGRAM_START_ADDR, 0x2300).unwrap();
    cpu.execute_cycle(&mut memory, &mut display, &mut input).unwrap();
    assert_eq!(cpu.get_pc(), 0x300);
    assert_eq!(cpu.get_stack_pointer(), 1);
    assert_eq!(cpu.get_stack_entry(0).unwrap(), PROGRAM_START_ADDR + 2);
    cpu.return_from_subroutine().unwrap();
    assert_eq!(cpu.get_pc(), PROGRAM_START_ADDR + 2);
    assert_eq!(cpu.get_stack_pointer(), 0);
}

#[test]
fn test_set_index_instruction() {
    let mut cpu = Cpu::new();
    let mut memory = Memory::new(true);
    let mut display = Display::new();
    let mut input = MockInput::new();
    memory.write_word(PROGRAM_START_ADDR, 0xA300).unwrap();
    cpu.execute_cycle(&mut memory, &mut display, &mut input).unwrap();
    assert_eq!(cpu.get_index(), 0x300);
}

#[test]
fn test_timer_updates() {
    let mut cpu = Cpu::new();
    cpu.set_delay_timer(5);
    cpu.set_sound_timer(3);
    cpu.update_timers();
    assert_eq!(cpu.get_delay_timer(), 4);
    assert_eq!(cpu.get_sound_timer(), 2);
    assert!(cpu.should_beep());
    cpu.update_timers();
    cpu.update_timers();
    assert_eq!(cpu.get_sound_timer(), 0);
    assert!(!cpu.should_beep());
}

#[test]
fn test_unknown_instruction() {
    let mut cpu = Cpu::new();
    let mut memory = Memory::new(true);
    let mut display = Display::new();
    let mut input = MockInput::new();
    memory.write_word(PROGRAM_START_ADDR, 0xF123).unwrap();
    let result = cpu.execute_cycle(&mut memory, &mut display, &mut input);
    assert!(result.is_err());
    assert_eq!(cpu.get_pc(), PROGRAM_START_ADDR + 2);
}

#[test]
fn test_cls_instruction() {
    let mut cpu = Cpu::new();
    let mut memory = Memory::new(true);
    let mut display = Display::new();
    let mut input = MockInput::new();
    display.set_pixel(10, 5, true);
    display.set_pixel(20, 15, true);
    assert!(display.get_pixel(10, 5));
    assert!(display.get_pixel(20, 15));
    memory.write_word(PROGRAM_START_ADDR, 0x00E0).unwrap();
    cpu.execute_cycle(&mut memory, &mut display, &mut input).unwrap();
    assert!(!display.get_pixel(10, 5));
    assert!(!display.get_pixel(20, 15));
}

#[test]
fn test_draw_instruction() {
    let mut cpu = Cpu::new();
    let mut memory = Memory::new(true);
    let mut display = Display::new();
    let mut input = MockInput::new();
    let sprite_addr = 0x300;
    let sprite_data = [0b11110000, 0b10010000];
    memory.write_byte(sprite_addr, sprite_data[0]).unwrap();
    memory.write_byte(sprite_addr + 1, sprite_data[1]).unwrap();
    cpu.set_register(0, 10).unwrap();
    cpu.set_register(1, 5).unwrap();
    cpu.set_index(sprite_addr);
    memory.write_word(PROGRAM_START_ADDR, 0xD012).unwrap();
    cpu.execute_cycle(&mut memory, &mut display, &mut input).unwrap();
    assert!(display.get_pixel(10, 5));
    assert!(display.get_pixel(13, 5));
    assert!(!display.get_pixel(14, 5));
    assert!(display.get_pixel(10, 6));
    assert!(!display.get_pixel(11, 6));
    assert!(display.get_pixel(13, 6));
    assert_eq!(cpu.get_register(0xF).unwrap(), 0);
}

#[test]
fn test_draw_instruction_collision() {
    let mut cpu = Cpu::new();
    let mut memory = Memory::new(true);
    let mut display = Display::new();
    let mut input = MockInput::new();
    display.set_pixel(10, 5, true);
    let sprite_addr = 0x300;
    memory.write_byte(sprite_addr, 0b10000000).unwrap();
    cpu.set_register(0, 10).unwrap();
    cpu.set_register(1, 5).unwrap();
    cpu.set_index(sprite_addr);
    memory.write_word(PROGRAM_START_ADDR, 0xD011).unwrap();
    cpu.execute_cycle(&mut memory, &mut display, &mut input).unwrap();
    assert!(!display.get_pixel(10, 5));
    assert_eq!(cpu.get_register(0xF).unwrap(), 1);
}

#[test]
fn test_skip_key_pressed_instruction() {
    let mut cpu = Cpu::new();
    let mut memory = Memory::new(true);
    let mut display = Display::new();
    let mut input = MockInput::new();
    cpu.set_register(0, 5).unwrap();
    memory.write_word(PROGRAM_START_ADDR, 0xE09E).unwrap();
    let initial_pc = cpu.get_pc();
    cpu.execute_cycle(&mut memory, &mut display, &mut input).unwrap();
    assert_eq!(cpu.get_pc(), initial_pc + 2);
    let mut cpu2 = Cpu::new();
    cpu2.set_register(0, 5).unwrap();
    input.press_key(5).unwrap();
    let initial_pc2 = cpu2.get_pc();
    cpu2.execute_cycle(&mut memory, &mut display, &mut input).unwrap();
    assert_eq!(cpu2.get_pc(), initial_pc2 + 4);
}

#[test]
fn test_skip_key_not_pressed_instruction() {
    let mut cpu = Cpu::new();
    let mut memory = Memory::new(true);
    let mut display = Display::new();
    let mut input = MockInput::new();
    cpu.set_register(1, 7).unwrap();
    memory.write_word(PROGRAM_START_ADDR, 0xE1A1).unwrap();
    let initial_pc = cpu.get_pc();
    cpu.execute_cycle(&mut memory, &mut display, &mut input).unwrap();
    assert_eq!(cpu.get_pc(), initial_pc + 4);
    let mut cpu2 = Cpu::new();
    cpu2.set_register(1, 7).unwrap();
    input.press_key(7).unwrap();
    let initial_pc2 = cpu2.get_pc();
    cpu2.execute_cycle(&mut memory, &mut display, &mut input).unwrap();
    assert_eq!(cpu2.get_pc(), initial_pc2 + 2);
}

#[test]
fn test_wait_for_key_instruction() {
    let mut cpu = Cpu::new();
    let mut memory = Memory::new(true);
    let mut display = Display::new();
    let mut input = MockInput::new();
    memory.write_word(PROGRAM_START_ADDR, 0xF20A).unwrap();
    let initial_pc = cpu.get_pc();
    cpu.execute_cycle(&mut memory, &mut display, &mut input).unwrap();
    assert_eq!(cpu.get_pc(), initial_pc + 2);
    assert_eq!(*cpu.get_state(), CpuState::WaitingForKey { vx: 2 });
    cpu.execute_cycle(&mut memory, &mut display, &mut input).unwrap();
    assert_eq!(*cpu.get_state(), CpuState::WaitingForKey { vx: 2 });
    input.press_key(0xB).unwrap();
    cpu.execute_cycle(&mut memory, &mut display, &mut input).unwrap();
    assert_eq!(cpu.get_register(2).unwrap(), 0xB);
    assert_eq!(*cpu.get_state(), CpuState::Running);
}

#[test]
fn test_skip_key_pressed_skips_when_pressed() {
    let mut cpu = Cpu::new();
    let mut memory = Memory::new(true);
    let mut display = Display::new();
    let mut input = MockInput::new();
    cpu.set_register(0, 0x5).unwrap();
    input.press_key(0x5).unwrap();
    memory.write_word(PROGRAM_START_ADDR, 0xE09E).unwrap();
    let initial_pc = cpu.get_pc();
    cpu.execute_cycle(&mut memory, &mut display, &mut input).unwrap();
    assert_eq!(cpu.get_pc(), initial_pc + 4);
}

#[test]
fn test_skip_key_pressed_no_skip_when_not_pressed() {
    let mut cpu = Cpu::new();
    let mut memory = Memory::new(true);
    let mut display = Display::new();
    let mut input = MockInput::new();
    cpu.set_register(0, 0x5).unwrap();
    memory.write_word(PROGRAM_START_ADDR, 0xE09E).unwrap();
    let initial_pc = cpu.get_pc();
    cpu.execute_cycle(&mut memory, &mut display, &mut input).unwrap();
    assert_eq!(cpu.get_pc(), initial_pc + 2);
}

#[test]
fn test_skip_key_not_pressed_skips_when_not_pressed() {
    let mut cpu = Cpu::new();
    let mut memory = Memory::new(true);
    let mut display = Display::new();
    let mut input = MockInput::new();
    cpu.set_register(0, 0x5).unwrap();
    memory.write_word(PROGRAM_START_ADDR, 0xE0A1).unwrap();
    let initial_pc = cpu.get_pc();
    cpu.execute_cycle(&mut memory, &mut display, &mut input).unwrap();
    assert_eq!(cpu.get_pc(), initial_pc + 4);
}

#[test]
fn test_skip_key_not_pressed_no_skip_when_pressed() {
    let mut cpu = Cpu::new();
    let mut memory = Memory::new(true);
    let mut display = Display::new();
    let mut input = MockInput::new();
    cpu.set_register(0, 0x5).unwrap();
    input.press_key(0x5).unwrap();
    memory.write_word(PROGRAM_START_ADDR, 0xE0A1).unwrap();
    let initial_pc = cpu.get_pc();
    cpu.execute_cycle(&mut memory, &mut display, &mut input).unwrap();
    assert_eq!(cpu.get_pc(), initial_pc + 2);
}

#[test]
fn test_key_instructions_mask_high_bits() {
    let mut cpu = Cpu::new();
    let mut memory = Memory::new(true);
    let mut display = Display::new();
    let mut input = MockInput::new();
    cpu.set_register(0, 0x15).unwrap();
    input.press_key(0x5).unwrap();
    memory.write_word(PROGRAM_START_ADDR, 0xE09E).unwrap();
    let initial_pc = cpu.get_pc();
    cpu.execute_cycle(&mut memory, &mut display, &mut input).unwrap();
    assert_eq!(cpu.get_pc(), initial_pc + 4);
}

#[test]
fn test_wait_key_immediate_return_when_available() {
    let mut cpu = Cpu::new();
    let mut memory = Memory::new(true);
    let mut display = Display::new();
    let mut input = MockInput::new();
    input.press_key(0xA).unwrap();
    memory.write_word(PROGRAM_START_ADDR, 0xF30A).unwrap();
    let initial_pc = cpu.get_pc();
    cpu.execute_cycle(&mut memory, &mut display, &mut input).unwrap();
    assert_eq!(cpu.get_register(3).unwrap(), 0xA);
    assert_eq!(*cpu.get_state(), CpuState::Running);
    assert_eq!(cpu.get_pc(), initial_pc + 2);
}

#[test]
fn test_wait_key_state_persistence() {
    let mut cpu = Cpu::new();
    let mut memory = Memory::new(true);
    let mut display = Display::new();
    let mut input = MockInput::new();
    memory.write_word(PROGRAM_START_ADDR, 0xF10A).unwrap();
    cpu.execute_cycle(&mut memory, &mut display, &mut input).unwrap();
    assert_eq!(*cpu.get_state(), CpuState::WaitingForKey { vx: 1 });
    for _ in 0..5 {
        cpu.execute_cycle(&mut memory, &mut display, &mut input).unwrap();
        assert_eq!(*cpu.get_state(), CpuState::WaitingForKey { vx: 1 });
    }
    input.press_key(0xA).unwrap();
    cpu.execute_cycle(&mut memory, &mut display, &mut input).unwrap();
    assert_eq!(cpu.get_register(1).unwrap(), 0xA);
    assert_eq!(*cpu.get_state(), CpuState::Running);
}

#[test]
fn invalid_register_is_refused() {
    let mut cpu = Cpu::new();
    assert!(matches!(cpu.get_register(16), Err(CpuError::InvalidRegister { register: 16 })));
    assert!(matches!(cpu.set_register(16, 1), Err(CpuError::InvalidRegister { register: 16 })));
}

#[test]
fn program_counter_at_end_of_memory_is_refused() {
    let mut cpu = Cpu::new();
    let mut memory = Memory::new(false);
    let mut display = Display::new();
    let mut input = MockInput::new();
    cpu.set_pc(0xFFF);
    let result = cpu.execute_cycle(&mut memory, &mut display, &mut input);
    assert!(matches!(result, Err(CpuError::InvalidProgramCounter { pc: 0xFFF })));
    assert_eq!(cpu.get_pc(), 0xFFF);
}
