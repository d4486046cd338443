//! An emulator of a small 16-bit computer: 65536 words of memory, eight
//! general-purpose registers, a program counter, a condition-flag register,
//! and sixteen opcodes run in a fetch, decode and execute cycle.
//!
//! The library performs no input or output. [`image::read_image`] takes the
//! bytes of a program image, [`dispatch::run`] runs the machine until it has
//! something for the host to write or needs a character from it, and
//! [`traps::deliver`] takes the character that the host has read.
//!
//! Every function carries a contract over [`memory::Machine`], the
//! mathematical model of the machine state, and [`laws`] holds properties of
//! the instruction set that follow from those contracts.

#![allow(non_snake_case)]
#![allow(non_camel_case_types)]

pub mod dispatch;
pub mod image;
pub mod instructions;
pub mod laws;
pub mod memory;
pub mod traps;
