//! Core of a Game Boy emulator: CPU, memory bus, timers, serial port,
//! audio channels, PPU registers and cartridge mappers, each verified
//! against a specification of the hardware behaviour it models.

pub mod bits;
pub mod bitpack;
pub mod words;
pub mod union;
pub mod regs;
pub mod alu;
pub mod cpu;
pub mod timers;
pub mod serial;
pub mod mmu;
pub mod errors;
pub mod isa;
pub mod instructions;
pub mod cartridge;
pub mod apu;
pub mod ppu;
pub mod frontend;
pub mod event;
pub mod gameboy;
