//! Calls from the guest into the host.
//!
//! When the instruction pointer stands on a trampoline the guest has called
//! a host function. The arguments lie on the stack above the return address.
//! The host function runs, its result goes to `EAX`, and control returns as
//! `ret N` would return it, `N` being the size of the arguments: the callee
//! takes them off the stack.
#![allow(non_snake_case)]
use crate::fault::{Fault, ShimError, StepResult};
use crate::registers::Registers;
use crate::shims::{spec_lookup, Func, Handler};
use crate::winapi::ddraw::IDirectDraw;
use crate::winapi::ddraw::IDirectDraw7;
use crate::winapi::ddraw::IDirectDraw7::spec_create_surface;
use crate::winapi::ddraw::IDirectDrawSurface7;
use crate::winapi::ddraw::IDirectDrawSurface7::{
    spec_blt_fast, spec_flip, spec_get_attached_surface, spec_get_dc, spec_get_surface_desc,
};
use crate::winapi::ddraw::{
    call_is, spec_direct_draw_create_ex, DirectDrawCreate, DirectDrawCreateEx, Model, DD_OK,
};
use crate::winapi::shlwapi::{
    spec_path_argument, spec_path_remove_file_spec, PathRemoveFileSpecA,
};
use crate::winapi::stack_args::{args, lemma_args_len, spec_args, spec_offset};
use crate::x86::{spec_read, undecodable, Cpu, Machine, X86};
use vstd::prelude::*;

verus! {

/// What the host function `func` does when called with the arguments at
/// `stack_args`: the state it leaves and the value it returns, or the fault
/// it raises. The arguments are read first, from the first on.
pub open spec fn spec_call(m: Machine, func: Func, stack_args: u32) -> Result<
    (Machine, u32),
    Fault,
> {
    match func {
        Func::Unimplemented { dll, func } => Err(
            Fault::Shim(ShimError::Unimplemented { dll, func }),
        ),
        Func::PathRemoveFileSpecA => spec_path_remove_file_spec(m, stack_args),
        _ => match spec_args(m.cpu.mem, stack_args, func.spec_arg_count() as nat) {
            Err(f) => Err(f),
            Ok(a) => match func {
                Func::DirectDrawCreate => spec_direct_draw_create_ex(m, a[0], a[1], 0, a[2]),
                Func::DirectDrawCreateEx => spec_direct_draw_create_ex(m, a[0], a[1], a[2], a[3]),
                Func::IDirectDraw_CreateSurface => Err(
                    Fault::Shim(
                        ShimError::Unimplemented { dll: "IDirectDraw", func: "CreateSurface" },
                    ),
                ),
                Func::IDirectDraw7_Release => Ok((m, 0)),
                Func::IDirectDraw7_CreateSurface => spec_create_surface(m, a[1], a[2]),
                Func::IDirectDraw7_SetCooperativeLevel => Ok(
                    (Machine { ddraw: Model { hwnd: a[1], ..m.ddraw }, ..m }, DD_OK),
                ),
                Func::IDirectDraw7_SetDisplayMode => Ok(
                    (Machine { ddraw: Model { width: a[1], height: a[2], ..m.ddraw }, ..m }, DD_OK),
                ),
                Func::IDirectDrawSurface7_Release => Ok((m, 0)),
                Func::IDirectDrawSurface7_BltFast => spec_blt_fast(m, a[0], a[1], a[2], a[3], a[4]),
                Func::IDirectDrawSurface7_Flip => spec_flip(m, a[0]),
                Func::IDirectDrawSurface7_GetAttachedSurface => spec_get_attached_surface(
                    m,
                    a[0],
                    a[2],
                ),
                Func::IDirectDrawSurface7_GetDC => spec_get_dc(m, a[0], a[1]),
                Func::IDirectDrawSurface7_GetSurfaceDesc => spec_get_surface_desc(m, a[0], a[1]),
                Func::IDirectDrawSurface7_ReleaseDC => Ok((m, DD_OK)),
                Func::IDirectDrawSurface7_Restore => Ok((m, DD_OK)),
                _ => Ok((m, 0)),
            },
        },
    }
}

/// Calls a host function with the arguments at `stack_args`.
pub fn call(x86: &mut X86, func: Func, stack_args: u32) -> (r: StepResult<u32>)
    ensures
        call_is(old(x86)@, final(x86)@, r, spec_call(old(x86)@, func, stack_args)),
{
    match func {
        Func::Unimplemented { dll, func } => {
            return Err(Fault::Shim(ShimError::Unimplemented { dll, func }));
        },
        Func::PathRemoveFileSpecA => {
            return PathRemoveFileSpecA(x86, stack_args);
        },
        _ => {},
    }
    let a = args(x86, stack_args, func.arg_count())?;
    proof {
        lemma_args_len(x86.mem@, stack_args, func.spec_arg_count() as nat);
    }
    match func {
        Func::DirectDrawCreate => DirectDrawCreate(x86, a[0], a[1], a[2]),
        Func::DirectDrawCreateEx => DirectDrawCreateEx(x86, a[0], a[1], a[2], a[3]),
        Func::IDirectDraw_CreateSurface => IDirectDraw::CreateSurface(x86, a[0], a[1], a[2], a[3]),
        Func::IDirectDraw7_Release => IDirectDraw7::Release(x86, a[0]),
        Func::IDirectDraw7_CreateSurface => IDirectDraw7::CreateSurface(
            x86,
            a[0],
            a[1],
            a[2],
            a[3],
        ),
        Func::IDirectDraw7_SetCooperativeLevel => IDirectDraw7::SetCooperativeLevel(
            x86,
            a[0],
            a[1],
            a[2],
        ),
        Func::IDirectDraw7_SetDisplayMode => IDirectDraw7::SetDisplayMode(
            x86,
            a[0],
            a[1],
            a[2],
            a[3],
            a[4],
            a[5],
        ),
        Func::IDirectDrawSurface7_Release => IDirectDrawSurface7::Release(x86, a[0]),
        Func::IDirectDrawSurface7_BltFast => IDirectDrawSurface7::BltFast(
            x86,
            a[0],
            a[1],
            a[2],
            a[3],
            a[4],
            a[5],
        ),
        Func::IDirectDrawSurface7_Flip => IDirectDrawSurface7::Flip(x86, a[0], a[1], a[2]),
        Func::IDirectDrawSurface7_GetAttachedSurface => IDirectDrawSurface7::GetAttachedSurface(
            x86,
            a[0],
            a[1],
            a[2],
        ),
        Func::IDirectDrawSurface7_GetDC => IDirectDrawSurface7::GetDC(x86, a[0], a[1]),
        Func::IDirectDrawSurface7_GetSurfaceDesc => IDirectDrawSurface7::GetSurfaceDesc(
            x86,
            a[0],
            a[1],
        ),
        Func::IDirectDrawSurface7_ReleaseDC => IDirectDrawSurface7::ReleaseDC(x86, a[0], a[1]),
        Func::IDirectDrawSurface7_Restore => IDirectDrawSurface7::Restore(x86, a[0]),
        _ => Ok(0),
    }
}

/// The registers after a host function with `count` arguments has
/// returned `value` to the address `to`: the result is in `EAX`, the
/// instruction pointer at the return address, and the stack pointer past
/// the return address and the arguments.
pub open spec fn spec_returned(regs: Registers, to: u32, count: u32, value: u32) -> Registers {
    Registers { eax: value, eip: to, esp: spec_offset(regs.esp, 4 + 4 * count), ..regs }
}

/// Returns from a host function to the guest, as `ret` with the size of the
/// arguments would.
fn returned(x86: &mut X86, to: u32, count: u32, value: u32)
    requires
        count <= 6,
    ensures
        final(x86)@ == (Machine {
            cpu: Cpu { regs: spec_returned(old(x86).regs, to, count, value), ..old(x86).cpu() },
            ..old(x86)@
        }),
{
    x86.regs.eax = value;
    x86.regs.eip = to;
    x86.regs.esp = ((x86.regs.esp as u64 + 4 + 4 * count as u64) % 0x1_0000_0000) as u32;
}

/// What a step does when the instruction pointer stands on a trampoline.
/// The shim of that address is called with the arguments above the return
/// address. A synchronous shim runs at once, and the step returns to the
/// guest: `None` is the second part of the result. An asynchronous one is
/// handed out as the second part, for the host to run; the machine is left
/// as it was until the host resumes it with the function's result.
pub open spec fn spec_dispatch(m: Machine) -> Result<(Machine, Option<Func>), Fault> {
    match spec_lookup(m.shims, m.cpu.regs.eip) {
        None => Err(undecodable(m.cpu)),
        Some(shim) => match spec_read::<u32>(m.cpu.mem, m.cpu.regs.esp) {
            Err(f) => Err(f),
            Ok(to) => match shim.func {
                Handler::Async(func) => Ok((m, Some(func))),
                Handler::Sync(func) => match spec_call(
                    m,
                    func,
                    spec_offset(m.cpu.regs.esp, 4),
                ) {
                    Err(f) => Err(f),
                    Ok((after, value)) => Ok(
                        (
                            Machine {
                                cpu: Cpu {
                                    regs: spec_returned(
                                        after.cpu.regs,
                                        to,
                                        func.spec_arg_count(),
                                        value,
                                    ),
                                    ..after.cpu
                                },
                                ..after
                            },
                            None,
                        ),
                    ),
                },
            },
        },
    }
}

/// Whether a dispatch did what `expected` says.
pub open spec fn dispatch_is(
    before: Machine,
    after: Machine,
    r: StepResult<Option<Func>>,
    expected: Result<(Machine, Option<Func>), Fault>,
) -> bool {
    match expected {
        Ok((machine, pending)) => r == Ok::<Option<Func>, Fault>(pending) && after == machine,
        Err(f) => r == Err::<Option<Func>, Fault>(f) && after == before,
    }
}

/// Serves the call of the guest to the trampoline that the instruction
/// pointer stands on.
pub fn dispatch(x86: &mut X86) -> (r: StepResult<Option<Func>>)
    ensures
        dispatch_is(old(x86)@, final(x86)@, r, spec_dispatch(old(x86)@)),
{
    let shim = match x86.shims.lookup(x86.regs.eip) {
        Some(shim) => shim,
        None => {
            return Err(x86.undecodable());
        },
    };
    let esp = x86.regs.esp;
    let to = x86.read_u32(esp)?;
    match shim.func {
        Handler::Async(func) => Ok(Some(func)),
        Handler::Sync(func) => {
            let stack_args = ((esp as u64 + 4) % 0x1_0000_0000) as u32;
            let value = call(x86, func, stack_args)?;
            returned(x86, to, func.arg_count(), value);
            Ok(None)
        },
    }
}

/// What resuming the guest does after the host has run the asynchronous
/// function `func` to its result `value`: the return to the guest that a
/// synchronous function makes by itself.
pub open spec fn spec_resume(m: Machine, func: Func, value: u32) -> Result<Machine, Fault> {
    match spec_read::<u32>(m.cpu.mem, m.cpu.regs.esp) {
        Err(f) => Err(f),
        Ok(to) => Ok(
            Machine {
                cpu: Cpu {
                    regs: spec_returned(m.cpu.regs, to, func.spec_arg_count(), value),
                    ..m.cpu
                },
                ..m
            },
        ),
    }
}

/// Resumes the guest after an asynchronous host function.
pub fn resume(x86: &mut X86, func: Func, value: u32) -> (r: StepResult<()>)
    ensures
        match spec_resume(old(x86)@, func, value) {
            Ok(machine) => r is Ok && final(x86)@ == machine,
            Err(f) => r == Err::<(), Fault>(f) && final(x86)@ == old(x86)@,
        },
{
    let to = x86.read_u32(x86.regs.esp)?;
    returned(x86, to, func.arg_count(), value);
    Ok(())
}

/// The callee cleans the stack. After a synchronous host function with `N`
/// arguments has been served, the stack pointer is `4 + 4 * N` higher than
/// before the call, in 32 bits, the instruction pointer is the return
/// address that lay on top of the stack before the call, and `EAX` holds
/// what the function returned.
pub proof fn lemma_stdcall(m: Machine, func: Func)
    requires
        spec_lookup(m.shims, m.cpu.regs.eip) matches Some(shim) && shim.func == Handler::Sync(func),
        spec_dispatch(m) is Ok,
    ensures
        ({
            let after = spec_dispatch(m)->Ok_0.0;
            &&& after.cpu.regs.esp == spec_offset(m.cpu.regs.esp, 4 + 4 * func.spec_arg_count())
            &&& Ok::<u32, Fault>(after.cpu.regs.eip) == spec_read::<u32>(m.cpu.mem, m.cpu.regs.esp)
            &&& after.cpu.regs.eax == spec_call(m, func, spec_offset(m.cpu.regs.esp, 4))->Ok_0.1
        }),
{
    let called = spec_call(m, func, spec_offset(m.cpu.regs.esp, 4));
    lemma_call_keeps_registers(m, func, spec_offset(m.cpu.regs.esp, 4));
}

/// A function that the host runs returns to the guest like any other. When
/// the guest has called `PathRemoveFileSpecA` with an argument that can be
/// read and the host has left its answer, the step that serves the call
/// puts the answer into `EAX`, takes the return address and the one
/// argument off the stack, and goes on at the return address.
pub proof fn lemma_host_answer_returns(m: Machine, value: u32)
    requires
        spec_lookup(m.shims, m.cpu.regs.eip) matches Some(shim) && shim.func == Handler::Sync(
            Func::PathRemoveFileSpecA,
        ),
        spec_read::<u32>(m.cpu.mem, m.cpu.regs.esp) is Ok,
        spec_path_argument(m, spec_offset(m.cpu.regs.esp, 4)) is Ok,
        m.answer == Some(value),
    ensures
        spec_dispatch(m) matches Ok((after, pending)) && pending is None && after.cpu.regs.eax
            == value && after.cpu.regs.esp == spec_offset(m.cpu.regs.esp, 8)
            && Ok::<u32, Fault>(after.cpu.regs.eip) == spec_read::<u32>(
            m.cpu.mem,
            m.cpu.regs.esp,
        ) && after.answer is None && after.cpu.mem == m.cpu.mem,
{
}

/// No host function touches the registers or the flags.
pub proof fn lemma_call_keeps_registers(m: Machine, func: Func, stack_args: u32)
    ensures
        spec_call(m, func, stack_args) matches Ok((after, _)) ==> after.cpu.regs == m.cpu.regs
            && after.cpu.flags == m.cpu.flags,
{
    if spec_call(m, func, stack_args) is Ok {
        if m.ddraw.hheap == 0 && crate::winapi::ddraw::can_init(m) {
            crate::winapi::ddraw::lemma_init(m);
        }
    }
}

} // verus!
