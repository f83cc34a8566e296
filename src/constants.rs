//! System constants of the virtual machine.
use vstd::prelude::*;

verus! {

/// Total memory size (4KB).
pub const MEMORY_SIZE: usize = 4096;

/// Font data starts at this address.
pub const FONT_START_ADDR: u16 = 0x050;

/// Programs load starting at this address.
pub const PROGRAM_START_ADDR: u16 = 0x200;

/// Display width in pixels.
pub const DISPLAY_WIDTH: usize = 64;

/// Display height in pixels.
pub const DISPLAY_HEIGHT: usize = 32;

/// Number of CPU registers (V0-VF).
pub const NUM_REGISTERS: usize = 16;

/// Stack depth (16 levels).
pub const STACK_SIZE: usize = 16;

/// Number of keys on the keypad.
pub const NUM_KEYS: usize = 16;

/// Target CPU frequency (Hz).
pub const CPU_FREQUENCY: u32 = 500;

/// Timer frequency (Hz).
pub const TIMER_FREQUENCY: u32 = 60;

} // verus!
