//! A Nintendo Entertainment System emulator core: the 6502 CPU, the CPU
//! bus with its memory map, the cartridge (iNES loading, NROM and MMC1
//! mappers), the picture processing unit and the standard controller.
pub mod bits;
pub mod bus;
pub mod cartridge;
pub mod cpu;
pub mod display;
pub mod emulator;
pub mod input;
pub mod memory;
pub mod modular;
pub mod ppu;
