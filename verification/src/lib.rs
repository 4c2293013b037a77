//! Core of a handheld-console emulator built around an LR35902-family CPU:
//! instruction decoding and execution with machine-cycle accounting, a banked
//! memory bus, a programmable timer, a scanline pixel pipeline, and a joypad
//! register, all with verified contracts.

pub mod alu;
pub mod clock;
pub mod cpu;
pub mod gb;
pub mod graphics;
pub mod joypad;
pub mod memory;
pub mod utils;
