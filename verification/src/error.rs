//! The conditions that stop the machine.

use vstd::prelude::*;

verus! {

/// The stack operation during which a fault was found.
#[derive(Clone, Copy, Debug, PartialEq, Eq, Structural)]
pub enum StackOp {
    /// A call found the stack full.
    Call,
    /// A return found the stack empty.
    Return,
}

/// A fatal condition met while executing one instruction. The machine is left
/// as it was before the instruction.
#[derive(Clone, Copy, Debug, PartialEq, Eq, Structural)]
pub enum EvalError {
    /// The word at `pc` names no instruction.
    UnknownOpcode { pc: u16, instruction: u16 },
    /// A call with a full stack or a return with an empty one; `sp` is the
    /// number of return addresses held when it was attempted.
    StackFault { sp: u8, op: StackOp },
    /// The instruction at `pc` needs memory outside the address space, or
    /// would write into the reserved area below the program base; `address`
    /// is where the access starts.
    MemoryFault { pc: u16, address: u16 },
}

/// Why a program image was not loaded.
#[derive(Clone, Copy, Debug, PartialEq, Eq, Structural)]
pub enum LoadError {
    /// The image would start inside the reserved area.
    ReservedArea,
    /// The image does not fit between its base address and the end of memory.
    TooLarge,
}

} // verus!
