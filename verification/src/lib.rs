//! A Nintendo Entertainment System emulator core: 6502 CPU, PPU, APU,
//! cartridge mappers and controllers, the clock that drives them, and the
//! pixel work of the front end (status bar and scanline effect).
pub mod controller;
pub mod cpu;
pub mod emulator;
pub mod apu;
pub mod bus;
pub mod cartridge;
pub mod ppu;
pub mod ui;
pub mod display;
mod bits;
