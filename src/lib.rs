//! Core of a Game Boy (DMG) emulator: the LR35902 interpreter, the MBC1
//! memory bank controller, the scanline PPU and the timer, serial, joypad and
//! interrupt peripherals that share the CPU's cycle budget.
pub mod bits;
pub mod ram;
pub mod rom;
pub mod mbc;
pub mod ppu;
pub mod logger;
pub mod cpu;
