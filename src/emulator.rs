//! The emulator: CPU, memory, display and keypad together, stepped one cycle
//! at a time. The real-time loop (pacing, rendering, interrupt handling) is
//! driven from outside through `step`, `reached_cycle_limit` and `stop`.
use vstd::prelude::*;
use crate::cpu::{cycle_spec, initial_cpu, Cpu, CpuError, CpuView};
use crate::display::{blank, count_on, Display, DisplayError, DisplayStats, RendererError};
use crate::input::{apply_events, keypad_next_key, Input, InputBus, InputError, KeyEvent};
use crate::memory::{initial_memory, with_rom, Memory, MemoryError, MAX_ROM_SIZE};

verus! {

/// Errors of emulation.
#[derive(Debug)]
pub enum EmulatorError {
    Cpu(CpuError),
    Memory(MemoryError),
    Display(DisplayError),
    Renderer(RendererError),
    Input(InputError),
}

/// Emulator settings.
#[derive(Debug, Clone, Copy)]
pub struct EmulatorConfig {
    /// Maximum number of CPU cycles to execute (0 = unlimited).
    pub max_cycles: usize,
    /// Delay between CPU cycles in milliseconds.
    pub cycle_delay_ms: u64,
    /// Show CPU state after each cycle.
    pub verbose: bool,
    /// Memory write protection.
    pub write_protection: bool,
}

impl Default for EmulatorConfig {
    /// Unlimited cycles, 16 ms per cycle (about 60 per second), quiet,
    /// protection on.
    fn default() -> (r: Self)
        ensures
            r.max_cycles == 0,
            r.cycle_delay_ms == 16,
            !r.verbose,
            r.write_protection,
    {
        EmulatorConfig { max_cycles: 0, cycle_delay_ms: 16, verbose: false, write_protection: true }
    }
}

/// Execution figures.
#[derive(Debug, Clone)]
pub struct EmulatorStats {
    /// Cycles executed.
    pub cycles_executed: usize,
    /// The program counter.
    pub program_counter: u16,
    /// The index register.
    pub index_register: u16,
    /// Display figures.
    pub display_stats: DisplayStats,
    /// Whether the emulation loop is running.
    pub is_running: bool,
}

/// A CHIP-8 machine.
pub struct Emulator {
    cpu: Cpu,
    memory: Memory,
    display: Display,
    input: Input,
    config: EmulatorConfig,
    cycles_executed: usize,
    is_running: bool,
}

impl Emulator {
    /// The CPU state.
    pub closed spec fn cpu_view(&self) -> CpuView {
        self.cpu@
    }

    /// Memory contents.
    pub closed spec fn mem(&self) -> Seq<u8> {
        self.memory@
    }

    /// Whether the interpreter area is write-protected.
    pub closed spec fn protected(&self) -> bool {
        self.memory.protected()
    }

    /// The framebuffer.
    pub closed spec fn pixels(&self) -> Seq<bool> {
        self.display@
    }

    /// The keypad.
    pub closed spec fn keypad(&self) -> Input {
        self.input
    }

    /// The settings.
    pub closed spec fn settings(&self) -> EmulatorConfig {
        self.config
    }

    /// Cycles executed.
    pub closed spec fn cycles(&self) -> usize {
        self.cycles_executed
    }

    /// Whether the emulation loop is running.
    pub closed spec fn running(&self) -> bool {
        self.is_running
    }

    /// The state of a fresh machine.
    pub open spec fn is_fresh(&self, config: EmulatorConfig) -> bool {
        &&& self.cpu_view() == initial_cpu()
        &&& self.mem() == initial_memory()
        &&& self.protected() == config.write_protection
        &&& self.pixels() == blank()
        &&& self.keypad().keys() == Seq::new(16, |i: int| false)
        &&& self.keypad().buffer() == Seq::<char>::empty()
        &&& self.keypad().pending() == Seq::<KeyEvent>::empty()
        &&& self.settings() == config
        &&& self.cycles() == 0
        &&& !self.running()
    }

    /// A fresh machine with the given settings.
    pub fn new(config: EmulatorConfig) -> (r: Self)
        ensures
            r.is_fresh(config),
    {
        Emulator {
            cpu: Cpu::new(),
            memory: Memory::new(config.write_protection),
            display: Display::new(),
            input: Input::new(),
            config,
            cycles_executed: 0,
            is_running: false,
        }
    }

    /// A fresh machine with the default settings.
    pub fn with_defaults() -> (r: Self)
        ensures
            r.is_fresh(r.settings()),
            r.settings().max_cycles == 0,
            r.settings().write_protection,
    {
        Self::new(EmulatorConfig::default())
    }

    /// Copy a ROM to the program area; a ROM over `MAX_ROM_SIZE` bytes is
    /// refused and memory is left unchanged.
    pub fn load_rom(&mut self, rom_data: &[u8]) -> (r: Result<(), EmulatorError>)
        ensures
            rom_data@.len() <= MAX_ROM_SIZE ==> r is Ok && final(self).mem() == with_rom(
                old(self).mem(),
                rom_data@,
            ),
            rom_data@.len() > MAX_ROM_SIZE ==> r == Err::<(), EmulatorError>(
                EmulatorError::Memory(
                    MemoryError::RomTooLarge {
                        size: rom_data@.len() as usize,
                        max_size: MAX_ROM_SIZE,
                    },
                ),
            ) && final(self).mem() == old(self).mem(),
            final(self).cpu_view() == old(self).cpu_view(),
            final(self).protected() == old(self).protected(),
            final(self).pixels() == old(self).pixels(),
            final(self).keypad() == old(self).keypad(),
            final(self).cycles() == old(self).cycles(),
            final(self).running() == old(self).running(),
    {
        match self.memory.load_rom(rom_data) {
            Ok(()) => Ok(()),
            Err(e) => Err(EmulatorError::Memory(e)),
        }
    }

    /// Mark the emulation loop as running and restart the cycle count.
    pub fn start(&mut self)
        ensures
            final(self).running(),
            final(self).cycles() == 0,
            final(self).cpu_view() == old(self).cpu_view(),
            final(self).mem() == old(self).mem(),
            final(self).pixels() == old(self).pixels(),
    {
        self.is_running = true;
        self.cycles_executed = 0;
    }

    /// Take in key events, then run one CPU cycle. The cycle count goes up
    /// by one when the cycle succeeds.
    pub fn step(&mut self) -> (r: Result<(), EmulatorError>)
        ensures
            ({
                let old_keypad = old(self).keypad();
                let (keys, buffer) = apply_events(
                    old_keypad.keys(),
                    old_keypad.buffer(),
                    old_keypad.forward(),
                    old_keypad.pending(),
                );
                let s = cycle_spec(
                    old(self).cpu_view(),
                    old(self).mem(),
                    old(self).protected(),
                    old(self).pixels(),
                    keys,
                    keypad_next_key(keys, buffer, old_keypad.forward()),
                );
                &&& final(self).cpu_view() == s.machine.cpu
                &&& final(self).mem() == s.machine.mem
                &&& final(self).protected() == old(self).protected()
                &&& final(self).pixels() == s.machine.fb
                &&& final(self).keypad().pending() == Seq::<KeyEvent>::empty()
                &&& match s.result {
                    Ok(_) => r is Ok,
                    Err(e) => r == Err::<(), EmulatorError>(EmulatorError::Cpu(e)),
                }
                &&& final(self).cycles() == if r is Ok && old(self).cycles() < usize::MAX {
                    (old(self).cycles() + 1) as usize
                } else {
                    old(self).cycles()
                }
            }),
    {
        self.input.update();
        proof {
            self.memory.lemma_len();
        }
        match self.cpu.execute_cycle(&mut self.memory, &mut self.display, &mut self.input) {
            Ok(()) => {},
            Err(e) => {
                return Err(EmulatorError::Cpu(e));
            },
        }
        if self.cycles_executed < usize::MAX {
            self.cycles_executed += 1;
        }
        Ok(())
    }

    /// Whether the configured cycle limit has been reached (0 means no limit).
    pub fn reached_cycle_limit(&self) -> (r: bool)
        ensures
            r == (self.settings().max_cycles > 0 && self.cycles() >= self.settings().max_cycles),
    {
        self.config.max_cycles > 0 && self.cycles_executed >= self.config.max_cycles
    }

    /// Queue a key event for the next step.
    pub fn queue_key_event(&mut self, event: KeyEvent)
        ensures
            final(self).keypad().pending() == old(self).keypad().pending().push(event),
            final(self).cpu_view() == old(self).cpu_view(),
            final(self).mem() == old(self).mem(),
            final(self).pixels() == old(self).pixels(),
            final(self).cycles() == old(self).cycles(),
    {
        self.input.queue_event(event);
    }

    /// Execution figures.
    pub fn get_stats(&self) -> (r: EmulatorStats)
        ensures
            r.cycles_executed == self.cycles(),
            r.program_counter == self.cpu_view().pc,
            r.index_register == self.cpu_view().i,
            r.display_stats.pixels_on == count_on(self.pixels()),
            r.is_running == self.running(),
    {
        EmulatorStats {
            cycles_executed: self.cycles_executed,
            program_counter: self.cpu.get_pc(),
            index_register: self.cpu.get_index(),
            display_stats: self.display.get_stats(),
            is_running: self.is_running,
        }
    }

    /// Stop the emulation loop.
    pub fn stop(&mut self)
        ensures
            !final(self).running(),
            final(self).cpu_view() == old(self).cpu_view(),
            final(self).mem() == old(self).mem(),
            final(self).pixels() == old(self).pixels(),
            final(self).cycles() == old(self).cycles(),
    {
        self.is_running = false;
    }

    /// The display.
    pub fn display(&self) -> (r: &Display)
        ensures
            r@ == self.pixels(),
    {
        &self.display
    }

    /// The CPU.
    pub fn cpu(&self) -> (r: &Cpu)
        ensures
            r@ == self.cpu_view(),
    {
        &self.cpu
    }

    /// The memory.
    pub fn memory(&self) -> (r: &Memory)
        ensures
            r@ == self.mem(),
            r.protected() == self.protected(),
    {
        &self.memory
    }

    /// The keypad.
    pub fn input(&self) -> (r: &Input)
        ensures
            *r == self.keypad(),
    {
        &self.input
    }

    /// The settings.
    pub fn config(&self) -> (r: &EmulatorConfig)
        ensures
            *r == self.settings(),
    {
        &self.config
    }

    /// Back to a fresh machine with the same settings.
    pub fn reset(&mut self)
        ensures
            final(self).is_fresh(old(self).settings()),
    {
        self.cpu = Cpu::new();
        self.memory = Memory::new(self.config.write_protection);
        self.display = Display::new();
        self.input = Input::new();
        self.cycles_executed = 0;
        self.is_running = false;
    }
}

} // verus!
