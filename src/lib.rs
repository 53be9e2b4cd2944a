//! An emulator core for a classic 8-bit handheld console: the CPU
//! interpreter, the memory bus with cartridge banking, the timer and
//! interrupt registers, and the scanline renderer.
//!
//! Choices where the hardware leaves room or is not modeled:
//! - opcodes with no instruction take 4 cycles and do nothing;
//! - EI enables interrupts at once, not after the next instruction;
//! - a write to FF46 copies the whole sprite table at once;
//! - HALT and STOP do not suspend the CPU;
//! - the sprites drawn on a line are the first ten in OAM order that
//!   cover it (as on the hardware); among those the least X, then the
//!   lower OAM index, wins each pixel;
//! - the status interrupt sources are VBlank (bit 3 of FF41), HBlank
//!   (bit 4), OAM scan (bit 5) and LY matching LYC on a line change
//!   (bit 6);
//! - dispatching to an interrupt routine takes a step of its own (20
//!   cycles).
#![allow(non_snake_case)]
#![allow(non_upper_case_globals)]

pub mod gb_util;
pub mod gb_joypad;
pub mod gb_lcd;
pub mod gb_memory;
pub mod gb_cpu;
pub mod gb_gpu;
pub mod gb_gameboy;
