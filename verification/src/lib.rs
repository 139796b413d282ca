//! Emulation core for an LR35902-based hand-held console: an 8-bit CPU with
//! a four-flag register file, a memory bus with overlapping regions and
//! memory-mapped devices, a four-phase scanline picture unit, a divider/timer
//! pair and a row-selected joypad matrix.
//!
//! The host supplies a cartridge image and key events, repeatedly advances the
//! machine, and reads the 160x144 ARGB frame buffer.

pub mod bus;
pub mod cpu;
pub mod gpu;
pub mod instruction;
pub mod joypad;
pub mod laws;
pub mod machine;
pub mod memory;
pub mod register;
pub mod timer;
