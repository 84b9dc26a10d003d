//! An emulator for a small processor: eight 16-bit general registers, a flag
//! register and a flat byte memory, driven by a fetch-decode-execute loop.
//!
//! Every operation is stated against the reference semantics in `semantics`,
//! and the laws of the instruction set are proved in `laws`.
pub mod fault;
pub mod isa;
pub mod memory;
pub mod registers;
pub mod semantics;
pub mod cpu;
pub mod laws;

pub use fault::Fault;
