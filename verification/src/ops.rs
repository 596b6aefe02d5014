//! The instruction set: what each opcode does to the machine.
pub mod basic;
pub mod helpers;
pub mod laws;
pub mod math;
