//! An emulator core for an 8-bit handheld console: CPU, memory bus,
//! cartridge bank controllers, pixel unit, timer and joypad.
pub mod alu;
pub mod timer;
pub mod joypad;
pub mod rom;
pub mod mbc;
pub mod screen;
pub mod ppu;
pub mod bus;
pub mod cpu;
pub mod debugger;
pub mod gb;
pub mod utils;
pub mod mcp;
