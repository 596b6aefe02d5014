//! Arguments of host functions.
//!
//! The guest pushes the arguments of a call from right to left, each in
//! four bytes: the first argument lies lowest, right above the return
//! address.
use crate::fault::{Fault, StepResult};
use crate::mem::{first_nul, lemma_whole, Mem};
use crate::x86::{spec_read, X86};
use vstd::prelude::*;

verus! {

/// The guest address `offset` bytes past `base`, in 32 bits.
pub open spec fn spec_offset(base: u32, offset: int) -> u32 {
    ((base + offset) % 0x1_0000_0000) as u32
}

/// Argument `i` of the arguments at `stack_args`.
pub open spec fn spec_arg(mem: Seq<u8>, stack_args: u32, i: int) -> Result<u32, Fault> {
    spec_read::<u32>(mem, spec_offset(stack_args, 4 * i))
}

/// The first `n` arguments at `stack_args`, or the fault of the first that
/// cannot be read.
pub open spec fn spec_args(mem: Seq<u8>, stack_args: u32, n: nat) -> Result<Seq<u32>, Fault>
    decreases n,
{
    if n == 0 {
        Ok(Seq::empty())
    } else {
        match spec_args(mem, stack_args, (n - 1) as nat) {
            Err(f) => Err(f),
            Ok(before) => match spec_arg(mem, stack_args, n - 1) {
                Err(f) => Err(f),
                Ok(v) => Ok(before.push(v)),
            },
        }
    }
}

/// The arguments that are read have the number asked for.
pub proof fn lemma_args_len(mem: Seq<u8>, stack_args: u32, n: nat)
    ensures
        spec_args(mem, stack_args, n) matches Ok(list) ==> list.len() == n,
    decreases n,
{
    if n > 0 {
        lemma_args_len(mem, stack_args, (n - 1) as nat);
    }
}

/// Reads the first `n` arguments at `stack_args`, from the first on.
pub fn args(x86: &X86, stack_args: u32, n: u32) -> (r: StepResult<Vec<u32>>)
    ensures
        match r {
            Ok(list) => spec_args(x86.mem@, stack_args, n as nat) == Ok::<Seq<u32>, Fault>(list@),
            Err(f) => spec_args(x86.mem@, stack_args, n as nat) == Err::<Seq<u32>, Fault>(f),
        },
{
    let mut list: Vec<u32> = Vec::new();
    let mut i: u32 = 0;
    while i < n
        invariant
            i <= n,
            spec_args(x86.mem@, stack_args, i as nat) == Ok::<Seq<u32>, Fault>(list@),
        decreases n - i,
    {
        let at = ((stack_args as u64 + 4 * i as u64) % 0x1_0000_0000) as u32;
        assert(at == spec_offset(stack_args, 4 * i));
        let ghost before = list@;
        match x86.read_u32(at) {
            Ok(v) => {
                list.push(v);
                assert(spec_arg(x86.mem@, stack_args, i as int) == Ok::<u32, Fault>(v));
                assert(spec_args(x86.mem@, stack_args, (i + 1) as nat) == Ok::<Seq<u32>, Fault>(
                    before.push(v),
                ));
            },
            Err(f) => {
                proof {
                    assert(spec_arg(x86.mem@, stack_args, i as int) == Err::<u32, Fault>(f));
                    lemma_args_fault(x86.mem@, stack_args, i as nat, n as nat);
                }
                return Err(f);
            },
        }
        i = i + 1;
    }
    Ok(list)
}

/// When argument `i` cannot be read after all before it could, reading any
/// greater number of arguments gives its fault.
proof fn lemma_args_fault(mem: Seq<u8>, stack_args: u32, i: nat, n: nat)
    requires
        i < n,
        spec_args(mem, stack_args, i) is Ok,
        spec_arg(mem, stack_args, i as int) is Err,
    ensures
        spec_args(mem, stack_args, n) == Err::<Seq<u32>, Fault>(
            spec_arg(mem, stack_args, i as int)->Err_0,
        ),
    decreases n,
{
    if n > i + 1 {
        lemma_args_fault(mem, stack_args, i, (n - 1) as nat);
    }
}

/// The text argument whose address is `ptr`: none for a null pointer, else
/// the bytes from `ptr` up to the first zero byte, which must exist.
pub open spec fn spec_text(mem: Seq<u8>, ptr: u32, text: Option<Mem>) -> bool {
    let whole = Mem::whole(mem.len());
    if ptr == 0 {
        text is None
    } else {
        &&& text matches Some(window)
        &&& first_nul(whole.bytes(mem), ptr as int, ptr + window.spec_len())
        &&& window.spec_start() == ptr
    }
}

/// Whether there is a text at `ptr`: a zero byte at or after it.
pub open spec fn has_text(mem: Seq<u8>, ptr: u32) -> bool {
    exists|i: int| ptr <= i < Mem::whole(mem.len()).spec_len() && mem[i] == 0
}

/// Finds the text argument whose address is `ptr`. A null pointer is no
/// text. A pointer to bytes with no zero among them is a memory fault.
pub fn text(x86: &X86, ptr: u32) -> (r: StepResult<Option<Mem>>)
    ensures
        match r {
            Ok(text) => spec_text(x86.mem@, ptr, text) && (ptr != 0 ==> has_text(x86.mem@, ptr)),
            Err(f) => ptr != 0 && !has_text(x86.mem@, ptr) && f == (Fault::MemoryFault {
                addr: ptr,
                len: 1,
            }),
        },
{
    if ptr == 0 {
        return Ok(None);
    }
    proof {
        lemma_whole(x86.mem@.len());
    }
    let whole = Mem::from_slice(x86.mem.as_slice());
    match whole.slicez(x86.mem.as_slice(), ptr) {
        Some(window) => {
            assert(whole.bytes(x86.mem@)[ptr + window.spec_len()] == 0);
            Ok(Some(window))
        },
        None => {
            assert forall|i: int| ptr <= i < whole.spec_len() implies x86.mem@[i] != 0 by {
                assert(whole.bytes(x86.mem@)[i] != 0);
            }
            Err(Fault::MemoryFault { addr: ptr, len: 1 })
        },
    }
}

} // verus!
