//! The fatal conditions that stop the machine.

use vstd::prelude::*;

verus! {

/// A fatal condition. A step that reports one leaves the machine exactly as
/// it was before the step began.
#[derive(Clone, Copy, Debug, PartialEq, Eq, Structural)]
pub enum Chip8Error {
    /// The instruction word matches no entry of the instruction table.
    UnknownOpcode(u16),
    /// A call was made while all sixteen stack slots were in use.
    StackOverflow,
    /// A return was made while the call stack was empty.
    StackUnderflow,
    /// An address outside `0x000..=0xFFF` was about to be read or written.
    MemoryOutOfRange,
}

} // verus!
