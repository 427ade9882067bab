//! The conditions that stop a machine for good.

use vstd::prelude::*;

verus! {

/// Why a machine stopped. None of these can be recovered from: each means
/// that the program is malformed or asks for something the machine lacks.
#[derive(Clone, Copy, Debug, PartialEq, Eq, Structural)]
pub enum Fault {
    /// The four nibbles name no instruction.
    UnknownOpcode(u8, u8, u8, u8),
    /// A key test was asked for, and no keypad is attached.
    KeypadUnavailable,
    /// A call with fifteen return addresses already on the stack.
    StackOverflow,
    /// A return with nothing on the stack.
    StackUnderflow,
    /// A read or write past the end of memory, or a program counter pushed
    /// past sixteen bits. Carries the register that led there: the program
    /// counter for a fetch or a skip, the index register otherwise.
    MemoryOutOfBounds(u16),
    /// A sprite that reaches below the last row of the pixel grid.
    PixelOutOfBounds,
    /// An index register pushed past sixteen bits.
    IndexOverflow,
    /// The clock gave no usable time: it stands before the epoch, or before
    /// the moment the delay timer was last written.
    ClockUnavailable,
    /// A program longer than the memory above address 0x200.
    ProgramTooLarge(usize),
}

} // verus!
