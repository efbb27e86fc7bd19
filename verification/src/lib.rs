//! Core of a cycle-accurate NES emulator: 6502 CPU, PPU, APU, cartridge
//! mappers and the bus that ties them to a single master clock.
//!
//! The host (window, audio device, ROM loading) lives outside this crate and
//! talks to the core through plain values: cartridge bytes in, controller
//! bits in, framebuffer pixels and audio channel samples out.

pub mod apu;
pub mod bus;
pub mod cart;
pub mod cpu;
pub mod framebuffer;
pub mod joypad;
pub mod mapper;
pub mod memory;
pub mod nes;
pub mod opcodes;
pub mod ppu;
pub mod render;

use vstd::prelude::*;

verus! {

} // verus!
