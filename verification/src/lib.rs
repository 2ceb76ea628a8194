//! An emulation core for a DMG-class handheld: a memory bus, an instruction
//! interpreter and a scanline video controller, each with a mathematical
//! model of its state and contracts that tie the executable code to it.

pub mod alu;
pub mod cartridge;
pub mod cpu;
pub mod gb;
pub mod isa;
pub mod machine;
pub mod mmu;
pub mod ppu;
