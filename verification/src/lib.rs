//! An instruction-set interpreter for a classic 8-bit microprocessor.
//!
//! The library parses a cartridge container image, maps its program bytes
//! into a flat 64 KiB address space, and executes instructions by fetching,
//! decoding and dispatching opcodes. Every instruction is proved to agree
//! with a mathematical model of the machine: [`model::step_state`] gives the
//! meaning of one instruction, and [`cpu::Cpu::step`] is verified against it.

pub mod cpu;
pub mod laws;
pub mod mem;
pub mod model;
pub mod rom;
