//! An interpreter core for the LC-3 sixteen-bit instruction set.
//!
//! The machine state is a memory of 65,536 words and a register file of ten
//! words. Every instruction handler is a total function on that state whose
//! contract gives the new state exactly. Console traffic never happens
//! here: a handler that needs a key takes it as an argument, and one that
//! prints returns the bytes.

use vstd::prelude::*;

pub mod console;
pub mod image;
pub mod instructions;
pub mod laws;
pub mod machine;
pub mod memory;
pub mod registers;

pub use crate::machine::Vm;

verus! {

/// Number of cells in memory.
pub const MEMORY_MAX: usize = 65536;

/// Address of the first instruction that a fresh machine fetches.
pub const PC_START: u16 = 0x3000;

} // verus!
