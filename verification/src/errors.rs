//! Fatal emulator faults. The core never panics: a condition that the
//! hardware model treats as fatal is surfaced as an `EmuError` and the host
//! decides how to abort.

use vstd::prelude::*;

verus! {

#[derive(Clone, Copy, Debug, PartialEq, Eq, Structural)]
pub enum EmuError {
    /// The cartridge image is shorter than header + PRG + CHR.
    MalformedCartridge,
    /// Header bytes 6 and 7 select a mapper other than 0.
    UnsupportedMapper,
    /// A byte reached the picture unit's DATA port while the latched VRAM
    /// address lay outside the 16 KiB picture address space.
    VramAddrOutOfRange,
    /// The byte at the program counter is not one of the official opcodes.
    UnknownOpcode(u8),
}

impl EmuError {
    /// A short diagnostic for the host to print when aborting.
    pub fn describe(&self) -> (r: &'static str)
        ensures
            true,
    {
        match self {
            EmuError::MalformedCartridge => "cartridge image is too short",
            EmuError::UnsupportedMapper => "unrecognized mapper",
            EmuError::VramAddrOutOfRange => "bus memory address out of range",
            EmuError::UnknownOpcode(_) => "invalid opcode",
        }
    }
}

} // verus!
