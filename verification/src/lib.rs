//! A verified interpreter core for the MOS 6502 CPU.
//!
//! The crate models the 6502's official instruction set as a small-step
//! machine over a 16-bit address space and a bank of 8-bit registers.  The
//! executable interpreter in [`cpu`] is proved to implement, instruction by
//! instruction, the mathematical step function defined in [`semantics`];
//! [`opcodes`] holds the descriptor table for the 151 official encodings, and
//! [`laws`] states and proves the flag and stack identities that the
//! architecture guarantees.

pub mod cpu;
pub mod laws;
pub mod opcodes;
pub mod semantics;
