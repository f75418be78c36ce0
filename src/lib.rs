//! A cycle-driven model of the DMG handheld console: CPU, memory map,
//! cartridge mappers, timer, joypad, graphics and sound units.

pub mod special_registers;
pub mod joypad;
pub mod apu_registers;
pub mod memory_gb;
pub mod cart;
pub mod cpu;
pub mod ops;
pub mod execute;
pub mod ppu;
pub mod apu;
pub mod input;
pub mod scheduler;
