//! A CHIP-8 virtual machine: memory with a protected interpreter area and a
//! built-in font, a 64x32 XOR framebuffer, a 16-key keypad, the instruction
//! decoder and the interpreter that runs one fetch/decode/execute cycle at a
//! time.
pub mod config;
pub mod constants;
pub mod cpu;
pub mod disassembler;
pub mod display;
pub mod emulator;
pub mod input;
pub mod instruction;
pub mod memory;
pub mod rom_loader;

pub use config::{Config, DisplaySettings, EmulatorSettings, InputSettings};
pub use cpu::{Cpu, CpuError, CpuState};
pub use disassembler::{analyze_instruction_usage, disassemble_rom, DisassembledInstruction, DisassemblyError, InstructionAnalysis};
pub use display::{ControlAction, Display, DisplayBus, DisplayError, DisplayStats, PixelColor, RatatuiConfig, RendererError};
pub use emulator::{Emulator, EmulatorConfig, EmulatorError, EmulatorStats};
pub use input::{InputBus, InputError, InputStats, Input, KeyEvent, KeyMappings, MockInput};
pub use instruction::{decode_opcode, DecodeError, Instruction};
pub use memory::{Memory, MemoryBus, MemoryError, MemoryStats};
pub use rom_loader::{validate_rom_data, RomDataError, RomLoaderConfig, RomSource};
