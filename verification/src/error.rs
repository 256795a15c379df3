//! The faults that decoding, loading and execution can report.

use vstd::prelude::*;

verus! {

/// Why the machine could not decode, load or execute.
#[derive(Debug, Clone, Copy, PartialEq, Eq, Hash)]
pub enum VmError {
    /// The byte is not the first byte of any supported instruction.
    InvalidOpcode(u8),
    /// The value is not a three-bit register code.
    InvalidRegisterCode(u8),
    /// An access reached past the end of the bytes at hand.
    MemoryBounds,
    /// A division instruction met a zero divisor.
    DivideByZero,
    /// A program image is larger than the linear memory.
    ProgramTooLarge,
}

} // verus!
