//! A CHIP-8 virtual machine: memory image, register file, call stack,
//! monochrome framebuffer, delay timer and the instruction set that drives
//! them, with every transition stated over a mathematical model of the
//! machine state.

use vstd::prelude::*;

pub mod cartridge;
pub mod cpu;
pub mod display;
pub mod error;
pub mod input;
pub mod instruction;
pub mod laws;
pub mod ram;
pub mod sprite;
pub mod state;

verus! {

/// Address at which program images begin in memory.
pub const ROM_START: usize = 0x200;

/// Width of the framebuffer in pixels.
pub const CHIP8_WIDTH: u32 = 64;

/// Height of the framebuffer in pixels.
pub const CHIP8_HEIGHT: u32 = 32;

} // verus!
