//! The processor core of an NES: a 6502 interpreter and the memory bus that
//! connects it to RAM, the cartridge, the picture unit and the controllers.
pub mod alu;
pub mod bus;
pub mod cartridge;
pub mod cpu;
pub mod flags;
pub mod joypad;
pub mod laws;
pub mod model;
pub mod opcodes;
pub mod ppu;
pub mod trace;
