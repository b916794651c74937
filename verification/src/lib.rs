//! A cycle-stepped emulator core for a 6502-based home console: CPU
//! interpreter, picture-generation unit and the shared memory bus, driven by
//! a per-cycle co-scheduler. The host windowing layer feeds an input byte in
//! and takes a finished frame buffer out; everything in between lives here.

pub mod bus;
pub mod cpu;
pub mod laws;
pub mod nes;
pub mod ppu;
pub mod errors;
pub mod testing;
pub mod util;
