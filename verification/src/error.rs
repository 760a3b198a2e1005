//! The faults the machine reports to its host.

use vstd::prelude::*;

verus! {

/// A fault raised by loading a program or by one execution step. A call that
/// reports a fault has not carried out the operation at fault.
#[derive(Clone, Copy, Debug, PartialEq, Eq, Structural)]
pub enum Chip8Error {
    /// The program image does not fit between the load address and the top
    /// of memory.
    RomTooLarge,
    /// The word `opcode` encodes no instruction; `pc` is the program counter
    /// at the moment the word was decoded.
    UnknownOpcode { opcode: u16, pc: u16 },
    /// A call was made with sixteen return addresses already on the stack.
    StackOverflow,
    /// A return was made with no return address on the stack.
    StackUnderflow,
    /// A memory access beyond the last address.
    MemoryOutOfBounds,
    /// A key instruction named a key index above `0xF`.
    KeyOutOfRange,
}

} // verus!
