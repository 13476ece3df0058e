//! Core of a DMG Game Boy emulator: the register file, the memory bus with
//! MBC3 banking, the LR35902 interpreter and the scanline pixel processor.

pub mod cpu;
pub mod execute;
pub mod gameboy;
pub mod isa;
pub mod laws;
pub mod mmu;
pub mod ppu;
pub mod registers;
