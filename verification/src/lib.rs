//! A small verified virtual machine for a fixed-width two-byte instruction
//! set, modeled after a simple 8-bit CPU with a hardware call stack.
//!
//! The machine owns 4096 bytes of memory, sixteen 8-bit registers (the last
//! one doubles as the carry flag of additions), a program counter, and a
//! sixteen-slot stack of saved return addresses. Four operations are
//! implemented: halt, register addition with wraparound and carry, subroutine
//! call, and subroutine return. Every other instruction word decodes to a
//! distinguished unknown operation, which the run loop treats as a fatal
//! fault.
//!
//! The module [`model`] gives the mathematical meaning of the machine: a pure
//! state-transition function over sequences and unbounded integers. The
//! module [`machine`] holds the executable CPU, each method proved against
//! the model, and [`laws`] states the general theorems of the instruction
//! set, such as the nibble round-trip of the decoder and the call/return
//! round-trip of the stack discipline.

pub mod laws;
pub mod machine;
pub mod model;
