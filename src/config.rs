//! User configuration: emulator, display and keypad settings, with their
//! defaults. Reading and writing the configuration file is done by the
//! application around this library.
use vstd::prelude::*;
use std::collections::HashMap;

verus! {

/// User configuration.
#[derive(Debug, Clone)]
pub struct Config {
    /// Emulator settings.
    pub emulator: EmulatorSettings,
    /// Display settings.
    pub display: DisplaySettings,
    /// Keypad settings.
    pub input: InputSettings,
}

/// Emulator settings.
#[derive(Debug, Clone)]
pub struct EmulatorSettings {
    /// Maximum number of CPU cycles to execute (0 = unlimited).
    pub max_cycles: usize,
    /// Delay between CPU cycles in milliseconds.
    pub cycle_delay_ms: u64,
    /// Verbose output.
    pub verbose: bool,
    /// Memory write protection.
    pub write_protection: bool,
}

/// Display settings of the terminal renderer.
#[derive(Debug, Clone)]
pub struct DisplaySettings {
    /// Text drawn for a lit pixel.
    pub pixel_char: String,
    /// Pixel colour name (Green, White, Blue, ...).
    pub pixel_color: String,
    /// Refresh interval in milliseconds.
    pub refresh_rate_ms: u64,
    /// Theme name.
    pub theme: String,
}

/// Keypad settings.
#[derive(Debug, Clone)]
pub struct InputSettings {
    /// Keypad key (hex digit) to keyboard key.
    pub key_mappings: HashMap<String, String>,
}

/// The default emulator settings: unlimited cycles, 16 ms per cycle, quiet,
/// protection on.
pub open spec fn default_emulator_settings(s: EmulatorSettings) -> bool {
    &&& s.max_cycles == 0
    &&& s.cycle_delay_ms == 16
    &&& !s.verbose
    &&& s.write_protection
}

/// Insert one default keypad binding.
fn bind(m: &mut HashMap<String, String>, key: &str, keyboard: &str) {
    m.insert(key.to_owned(), keyboard.to_owned());
}

impl Default for Config {
    /// The default configuration: the standard keypad layout, a green
    /// block pixel refreshed every 16 ms.
    fn default() -> (r: Self)
        ensures
            default_emulator_settings(r.emulator),
            r.display.pixel_char@ == "█"@,
            r.display.pixel_color@ == "Green"@,
            r.display.refresh_rate_ms == 16,
            r.display.theme@ == "Default"@,
    {
        let mut key_mappings: HashMap<String, String> = HashMap::new();
        bind(&mut key_mappings, "0", "X");
        bind(&mut key_mappings, "1", "1");
        bind(&mut key_mappings, "2", "2");
        bind(&mut key_mappings, "3", "3");
        bind(&mut key_mappings, "4", "Q");
        bind(&mut key_mappings, "5", "W");
        bind(&mut key_mappings, "6", "E");
        bind(&mut key_mappings, "7", "A");
        bind(&mut key_mappings, "8", "S");
        bind(&mut key_mappings, "9", "D");
        bind(&mut key_mappings, "A", "Z");
        bind(&mut key_mappings, "B", "C");
        bind(&mut key_mappings, "C", "4");
        bind(&mut key_mappings, "D", "R");
        bind(&mut key_mappings, "E", "F");
        bind(&mut key_mappings, "F", "V");
        Config {
            emulator: EmulatorSettings {
                max_cycles: 0,
                cycle_delay_ms: 16,
                verbose: false,
                write_protection: true,
            },
            display: DisplaySettings {
                pixel_char: "█".to_owned(),
                pixel_color: "Green".to_owned(),
                refresh_rate_ms: 16,
                theme: "Default".to_owned(),
            },
            input: InputSettings { key_mappings },
        }
    }
}

} // verus!
