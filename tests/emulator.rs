use joe::{DisplayBus, Emulator, EmulatorConfig, EmulatorError, KeyEvent, MemoryError};

#[test]
fn test_emulator_creation() {
    let emulator = Emulator::with_defaults();
    let stats = emulator.get_stats();
    assert_eq!(stats.cycles_executed, 0);
    assert_eq!(stats.program_counter, 0x200);
    assert!(!stats.is_running);
}

#[test]
fn test_emulator_config() {
    let config = EmulatorConfig {
        max_cycles: 100,
        cycle_delay_ms: 10,
        verbose: true,
        write_protection: false,
    };
    let emulator = Emulator::new(config.clone());
    assert_eq!(emulator.config().max_cycles, 100);
    assert_eq!(emulator.config().cycle_delay_ms, 10);
    assert!(emulator.config().verbose);
    assert!(!emulator.config().write_protection);
}

#[test]
fn test_emulator_reset() {
    let mut emulator = Emulator::with_defaults();
    let _ = emulator.step();
    let _ = emulator.step();
    emulator.reset();
    let stats = emulator.get_stats();
    assert_eq!(stats.cycles_executed, 0);
    assert!(!stats.is_running);
}

#[test]
fn emulator_test_rom_loading() {
    let mut emulator = Emulator::with_defaults();
    let rom_data = vec![0xA2, 0x2A, 0x60, 0x0C];
    assert!(emulator.load_rom(&rom_data).is_ok());
}

#[test]
fn step_runs_program_and_counts_cycles() {
    let mut emulator = Emulator::with_defaults();
    emulator.load_rom(&[0x60, 0x05, 0xF0, 0x29, 0xD1, 0x15]).unwrap();
    emulator.step().unwrap();
    emulator.step().unwrap();
    emulator.step().unwrap();
    let stats = emulator.get_stats();
    assert_eq!(stats.cycles_executed, 3);
    assert_eq!(stats.program_counter, 0x206);
    assert_eq!(stats.index_register, 0x50 + 5 * 5);
    assert_eq!(stats.display_stats.pixels_on, 4 + 1 + 4 + 1 + 4);
    assert!(emulator.display().get_pixel(0, 0));
}

#[test]
fn failing_step_does_not_count() {
    let mut emulator = Emulator::with_defaults();
    emulator.load_rom(&[0xFF, 0xFF]).unwrap();
    assert!(matches!(emulator.step(), Err(EmulatorError::Cpu(_))));
    assert_eq!(emulator.get_stats().cycles_executed, 0);
}

#[test]
fn oversized_rom_is_refused() {
    let mut emulator = Emulator::with_defaults();
    let result = emulator.load_rom(&vec![1u8; 3585]);
    assert!(matches!(
        result,
        Err(EmulatorError::Memory(MemoryError::RomTooLarge { size: 3585, max_size: 3584 }))
    ));
}

#[test]
fn key_events_reach_the_program() {
    let mut emulator = Emulator::with_defaults();
    emulator.load_rom(&[0xF3, 0x0A]).unwrap();
    emulator.queue_key_event(KeyEvent::Pressed('d'));
    emulator.step().unwrap();
    assert_eq!(emulator.cpu().get_register(3).unwrap(), 9);
}

#[test]
fn cycle_limit_and_stop() {
    let config = EmulatorConfig { max_cycles: 2, ..EmulatorConfig::default() };
    let mut emulator = Emulator::new(config);
    emulator.load_rom(&[0x12, 0x00]).unwrap();
    emulator.start();
    assert!(emulator.get_stats().is_running);
    emulator.step().unwrap();
    assert!(!emulator.reached_cycle_limit());
    emulator.step().unwrap();
    assert!(emulator.reached_cycle_limit());
    emulator.stop();
    assert!(!emulator.get_stats().is_running);
    assert!(!Emulator::with_defaults().reached_cycle_limit());
}
