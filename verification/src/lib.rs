//! A virtual machine for the CHIP-8 instruction set: sixteen 8-bit registers,
//! 4 KiB of memory, a 64x32 monochrome display, a 16-key keypad and two timers.

pub mod decode;
pub mod display;
pub mod error;
pub mod laws;
pub mod machine;
pub mod model;
pub mod random;
