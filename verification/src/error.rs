//! Failures that a machine step can report.

use vstd::prelude::*;

verus! {

/// Why a step of the machine could not be carried out.
#[derive(Clone, Copy, Debug, PartialEq, Eq, Structural)]
pub enum Chip8Error {
    /// The fetched word matches no instruction pattern.
    UnknownOpcode(u16),
    /// A fetch or an indexed access would leave the 4096-byte memory.
    MemoryOutOfBounds,
    /// A call was made with all sixteen stack entries in use.
    StackOverflow,
    /// A return was made with the call stack empty.
    StackUnderflow,
    /// A key index outside `0..16` was used to address the keypad.
    KeyOutOfRange,
}

} // verus!
