//! `shlwapi.dll`.
#![allow(non_snake_case)]
use crate::fault::{Fault, ShimError, StepResult};
use crate::shims::{BuiltinDLL, Func, Handler, Shim};
use crate::mem::Mem;
use crate::winapi::ddraw::call_is;
use crate::winapi::stack_args::{args, has_text, spec_args, spec_text, text};
use crate::x86::{Machine, X86};
use vstd::prelude::*;

verus! {

/// The argument of `PathRemoveFileSpecA`, as it is taken from the stack:
/// `pszPath`, a pointer to a text or null. The fault is that of a stack slot
/// or a text that cannot be read.
pub open spec fn spec_path_argument(m: Machine, stack_args: u32) -> Result<u32, Fault> {
    match spec_args(m.cpu.mem, stack_args, 1) {
        Err(f) => Err(f),
        Ok(list) => if list[0] != 0 && !has_text(m.cpu.mem, list[0]) {
            Err(Fault::MemoryFault { addr: list[0], len: 1 })
        } else {
            Ok(list[0])
        },
    }
}

/// What a call of `PathRemoveFileSpecA` does. With an argument that can be
/// read, it returns the answer that the host has left and takes it away. A
/// host that has left none has no such function.
pub open spec fn spec_path_remove_file_spec(m: Machine, stack_args: u32) -> Result<
    (Machine, u32),
    Fault,
> {
    match spec_path_argument(m, stack_args) {
        Err(f) => Err(f),
        Ok(_) => match m.answer {
            Some(value) => Ok((Machine { answer: None, ..m }, value)),
            None => Err(
                Fault::Shim(
                    ShimError::Unimplemented { dll: "shlwapi.dll", func: "PathRemoveFileSpecA" },
                ),
            ),
        },
    }
}

/// Takes the argument of `PathRemoveFileSpecA` from the stack: the text
/// that `pszPath` points to, or none for a null pointer.
pub fn pszPath(x86: &X86, stack_args: u32) -> (r: StepResult<Option<Mem>>)
    ensures
        match r {
            Ok(path) => spec_path_argument(x86@, stack_args) matches Ok(ptr) && spec_text(
                x86.mem@,
                ptr,
                path,
            ),
            Err(f) => spec_path_argument(x86@, stack_args) == Err::<u32, Fault>(f),
        },
{
    let list = args(x86, stack_args, 1)?;
    text(x86, list[0])
}

/// `PathRemoveFileSpecA(pszPath)`. The argument is taken from the stack.
/// What the function makes of the path only the host knows: the result is
/// the answer that the host has left for this call.
pub fn PathRemoveFileSpecA(x86: &mut X86, stack_args: u32) -> (r: StepResult<u32>)
    ensures
        call_is(old(x86)@, final(x86)@, r, spec_path_remove_file_spec(old(x86)@, stack_args)),
{
    let _ = pszPath(x86, stack_args)?;
    match x86.host.collect() {
        Some(result) => Ok(result),
        None => Err(
            Fault::Shim(
                ShimError::Unimplemented { dll: "shlwapi.dll", func: "PathRemoveFileSpecA" },
            ),
        ),
    }
}

/// The library: its exported functions. The stub image is the caller's to
/// add.
pub fn dll() -> (dll: BuiltinDLL)
    ensures
        dll.file_name == "shlwapi.dll",
        dll.shims@ == seq![
            Shim { name: "PathRemoveFileSpecA", func: Handler::Sync(Func::PathRemoveFileSpecA) },
        ],
        dll.raw is None,
{
    let shims = vec![
        Shim { name: "PathRemoveFileSpecA", func: Handler::Sync(Func::PathRemoveFileSpecA) },
    ];
    BuiltinDLL { file_name: "shlwapi.dll", shims, raw: None }
}

} // verus!
