//! The conditions under which the machine refuses to go on.

use vstd::prelude::*;

verus! {

/// A fault detected by the machine. Every operation that reports a fault
/// leaves the machine exactly as it found it.
#[derive(Clone, Copy, Debug, PartialEq, Eq, Structural)]
pub enum Fault {
    /// The program image does not fit between the program start and the end
    /// of memory.
    ImageTooLarge { len: usize },
    /// The word at `pc` matches no instruction.
    UnknownOpcode { opcode: u16, pc: u16 },
    /// A call at `pc` found all sixteen stack entries in use.
    StackOverflow { pc: u16 },
    /// A return at `pc` found the call stack empty.
    StackUnderflow { pc: u16 },
    /// The two bytes of the instruction at `pc` do not both lie in memory.
    FetchOutOfRange { pc: u16 },
    /// The instruction at `pc` addresses memory past its end through the
    /// index register, whose value is `index`.
    AccessOutOfRange { pc: u16, index: u16 },
    /// The instruction at `pc` asks for the state of key `key`, which is not
    /// one of the sixteen keys.
    KeyOutOfRange { pc: u16, key: u8 },
}

} // verus!
