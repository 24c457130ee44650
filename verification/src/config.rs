//! Session start: what the cartridge header says about the hardware to
//! emulate, and the configuration that the engine is built with.

use vstd::prelude::*;

verus! {

/// Offset of the header byte that tells whether a cartridge was written for
/// the enhanced colour hardware.
pub const CGB_FLAG_OFFSET: usize = 0x143;

/// Length of the shortest ROM that holds the header byte this layer reads.
pub const MIN_ROM_LEN: usize = 0x144;

/// Header value of a cartridge that uses colour where it is available.
pub const CGB_COMPATIBLE: u8 = 0x80;

/// Header value of a cartridge that runs on colour hardware only.
pub const CGB_ONLY: u8 = 0xC0;

/// The hardware variant that the engine emulates.
#[derive(Clone, Copy, Debug, PartialEq, Eq, Structural)]
pub enum Mode {
    /// The base monochrome hardware.
    Dmg,
    /// The enhanced colour hardware.
    Cgb,
}

/// The ROM is too short to hold the header byte that selects the hardware
/// variant. No session can be built from it.
#[derive(Clone, Copy, Debug, PartialEq, Eq, Structural)]
pub struct InvalidRom {
    /// Length of the rejected ROM, in bytes.
    pub len: usize,
}

/// What the engine is built with.
#[derive(Debug)]
pub struct Config {
    /// The hardware variant to emulate.
    pub mode: Mode,
    /// The cartridge contents.
    pub rom: Vec<u8>,
    /// Whether the engine runs without a display.
    pub headless_mode: bool,
    /// A boot ROM to run in place of the built-in start-up sequence.
    pub bootrom: Option<Vec<u8>>,
    /// Where the engine writes its execution log.
    pub log_file_path: Option<String>,
}

/// The hardware variant that a header byte selects: the two colour codes
/// select the colour hardware, every other value the monochrome hardware.
pub open spec fn mode_for_flag(flag: u8) -> Mode {
    if flag == CGB_COMPATIBLE || flag == CGB_ONLY {
        Mode::Cgb
    } else {
        Mode::Dmg
    }
}

/// Whether a ROM is long enough to start a session from.
pub open spec fn is_valid_rom(rom: Seq<u8>) -> bool {
    rom.len() >= MIN_ROM_LEN
}

/// The hardware variant that a valid ROM selects.
pub open spec fn rom_mode(rom: Seq<u8>) -> Mode
    recommends
        is_valid_rom(rom),
{
    mode_for_flag(rom[CGB_FLAG_OFFSET as int])
}

/// Reads the hardware variant off a ROM's header. A ROM too short to hold
/// the header byte is rejected.
pub fn select_mode(rom: &[u8]) -> (selected: Result<Mode, InvalidRom>)
    ensures
        is_valid_rom(rom@) ==> selected == Ok::<Mode, InvalidRom>(rom_mode(rom@)),
        !is_valid_rom(rom@) ==> selected == Err::<Mode, InvalidRom>(InvalidRom { len: rom.len() }),
{
    if rom.len() < MIN_ROM_LEN {
        return Err(InvalidRom { len: rom.len() });
    }
    let flag: u8 = rom[CGB_FLAG_OFFSET];
    if flag == CGB_COMPATIBLE || flag == CGB_ONLY {
        Ok(Mode::Cgb)
    } else {
        Ok(Mode::Dmg)
    }
}

impl Config {
    /// The configuration of a session that the host drives, for a valid ROM:
    /// the hardware variant is the one the ROM's header selects, the display
    /// is on, the built-in start-up sequence runs and no execution log is
    /// written.
    pub open spec fn for_host(rom: Vec<u8>) -> Config {
        Config {
            mode: rom_mode(rom@),
            rom,
            headless_mode: false,
            bootrom: None,
            log_file_path: None,
        }
    }

    /// Builds the configuration of a session that the host drives. A ROM too
    /// short to hold the header byte is rejected, and nothing is built.
    pub fn new(rom: Vec<u8>) -> (built: Result<Config, InvalidRom>)
        ensures
            is_valid_rom(rom@) ==> built == Ok::<Config, InvalidRom>(Config::for_host(rom)),
            !is_valid_rom(rom@) ==> built == Err::<Config, InvalidRom>(
                InvalidRom { len: rom.len() },
            ),
    {
        match select_mode(rom.as_slice()) {
            Ok(mode) => Ok(
                Config { mode, rom, headless_mode: false, bootrom: None, log_file_path: None },
            ),
            Err(error) => Err(error),
        }
    }
}

} // verus!
