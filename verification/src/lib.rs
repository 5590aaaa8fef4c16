//! A Nintendo Entertainment System core: cartridge mappers, picture and audio
//! units, controllers, the 6502 interpreter and the bus that clocks them
//! together. Every item is verified against a mathematical model of the
//! machine state.

pub mod apu;
pub mod audio;
pub mod bits;
pub mod cartridge;
pub mod cpu;
pub mod input;
pub mod ppu;
pub mod system;
