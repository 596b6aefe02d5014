//! The faults that end a step of the interpreter.
use vstd::prelude::*;

verus! {

/// Why a host-implemented function could not serve a guest call.
#[derive(Clone, Copy, Debug, PartialEq, Eq)]
pub enum ShimError {
    /// The guest called an exported function that has no handler.
    Unimplemented { dll: &'static str, func: &'static str },
    /// An argument failed the function's own validation.
    BadArg { func: &'static str, arg: &'static str },
}

/// A fatal condition raised while executing one guest instruction. Every
/// fault ends the current step and is handed to the caller of the step loop.
#[derive(Clone, Copy, Debug, PartialEq, Eq)]
pub enum Fault {
    /// An access of `len` bytes at `addr` reaches past the end of the region.
    MemoryFault { addr: u32, len: u32 },
    /// The bytes at `eip` are no instruction the interpreter can execute.
    /// `bytes` holds the first fifteen of them, the longest an instruction
    /// can be, with zero where guest memory ends before that.
    DecodeError { eip: u32, bytes: [u8; 15] },
    /// Division by zero, or a quotient that does not fit its destination.
    DivideError,
    /// A host-implemented function failed.
    Shim(ShimError),
    /// The heap with the given handle has no room left for the request.
    HeapExhausted { heap: u32 },
    /// The external cancel flag was observed between two instructions.
    Cancelled,
}

/// What an instruction handler returns.
pub type StepResult<T> = Result<T, Fault>;

} // verus!
