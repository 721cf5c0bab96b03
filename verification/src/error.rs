//! The failures that the engine reports.

use vstd::prelude::*;

verus! {

/// Why loading a program or executing an instruction failed.
///
/// The first two come from loading. The others stand for a violated machine
/// invariant: a corrupt program or a misuse of the engine. They are meant to
/// end the run.
#[derive(Debug, Clone, Copy, PartialEq, Eq, Structural)]
pub enum ProcessorError {
    /// The program could not be read.
    IoFailure,
    /// The program is longer than the memory above the load address.
    RomTooLarge,
    /// An operand of the instruction does not fit its opcode field.
    InvalidOperand,
    /// A return with an empty call stack.
    StackUnderflow,
    /// A call with a full call stack.
    StackOverflow,
    /// A fetch, a sprite read or a store that reaches past the end of memory.
    MemoryOutOfBounds,
    /// The program counter would leave the 16-bit range.
    PcOutOfRange,
    /// A key test on a register that holds no key index.
    InvalidKey,
}

} // verus!
