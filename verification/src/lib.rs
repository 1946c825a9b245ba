//! Cycle-level emulation library for the Nintendo Entertainment System.
//!
//! `Cartridge` loads iNES images, the mapper boards decode CPU and PPU
//! addresses, and the CPU, PPU and APU models advance one clock at a time.

pub mod apu;
pub mod bus;
pub mod bytes;
pub mod cartridge;
pub mod cheat;
pub mod controller;
pub mod cpu;
pub mod frame;
pub mod frontend;
pub mod mapper;
pub mod microcode;
pub mod nes;
pub mod nes_bus;
pub mod ppu;
pub mod simple_bus;
pub mod state_image;
