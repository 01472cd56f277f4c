//! A verified virtual machine for the LC-3 instruction set architecture:
//! a 16-bit educational computer with a 65,536-cell memory, eight
//! general-purpose registers, three condition-code flags, and memory-mapped
//! keyboard input.
//!
//! The machine state lives in [`hardware::Hardware`]; instruction execution
//! is specified, word for word, by the spec-level interpreter in
//! [`instructions`] and [`traps`], and the fetch loop in [`run`] is proved
//! to follow that interpreter step by step.

pub mod hardware;
pub mod instructions;
pub mod laws;
pub mod memory;
pub mod registers;
pub mod run;
pub mod traps;
pub mod utils;
