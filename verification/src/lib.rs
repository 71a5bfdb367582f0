//! A bit-accurate model of an 8-bit RISC microcontroller with 12-bit
//! instruction words, verified with Verus.
//!
//! - [`nbitnumber`]: unsigned integers of a fixed width from 1 to 16 bits.
//! - [`instructions`]: the mnemonics, the opcode table, and the codec between
//!   instruction words and mnemonics with operands.
//! - [`data_memory`] and [`program_memory`]: the register file and the
//!   program memory.
//! - [`state`]: the chip as a mathematical state, with what power-on, a fetch
//!   and every instruction do to it, and the laws of the pipeline.
//! - [`pic`]: the execution core, which runs one instruction per tick.
//! - [`clock`]: the phase counter of the system clock.

#![allow(non_snake_case)]
#![allow(non_camel_case_types)]

pub mod clock;
pub mod data_memory;
pub mod instructions;
pub mod nbitnumber;
pub mod pic;
pub mod program_memory;
pub mod state;
