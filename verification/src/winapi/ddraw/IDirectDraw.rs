//! The interface `IDirectDraw`.
use crate::fault::{Fault, ShimError, StepResult};
use crate::shims::Func;
use crate::winapi::vtable::Method;
use crate::x86::X86;
use vstd::prelude::*;

verus! {

/// The methods of the interface, in the order of their table entries. A
/// method without a host function is one the host does not implement.
#[verifier::opaque]
pub open spec fn spec_methods() -> Seq<Method> {
    seq![
        Method { name: "QueryInterface", func: None },
        Method { name: "AddRef", func: None },
        Method { name: "Release", func: None },
        Method { name: "Compact", func: None },
        Method { name: "CreateClipper", func: None },
        Method { name: "CreatePalette", func: None },
        Method { name: "CreateSurface", func: Some(Func::IDirectDraw_CreateSurface) },
        Method { name: "DuplicateSurface", func: None },
        Method { name: "EnumDisplayModes", func: None },
        Method { name: "EnumSurfaces", func: None },
        Method { name: "FlipToGDISurface", func: None },
        Method { name: "GetCaps", func: None },
        Method { name: "GetDisplayMode", func: None },
        Method { name: "GetFourCCCodes", func: None },
        Method { name: "GetGDISurface", func: None },
        Method { name: "GetMonitorFrequency", func: None },
        Method { name: "GetScanLine", func: None },
        Method { name: "GetVerticalBlankStatus", func: None },
        Method { name: "Initialize", func: None },
        Method { name: "RestoreDisplayMode", func: None },
        Method { name: "SetCooperativeLevel", func: Some(Func::IDirectDraw7_SetCooperativeLevel) },
        Method { name: "SetDisplayMode", func: Some(Func::IDirectDraw7_SetDisplayMode) },
        Method { name: "WaitForVerticalBlank", func: None },
    ]
}

pub fn methods() -> (list: Vec<Method>)
    ensures
        list@ == spec_methods(),
        list@.len() == 23,
{
    reveal(spec_methods);
    let list = vec![
        Method { name: "QueryInterface", func: None },
        Method { name: "AddRef", func: None },
        Method { name: "Release", func: None },
        Method { name: "Compact", func: None },
        Method { name: "CreateClipper", func: None },
        Method { name: "CreatePalette", func: None },
        Method { name: "CreateSurface", func: Some(Func::IDirectDraw_CreateSurface) },
        Method { name: "DuplicateSurface", func: None },
        Method { name: "EnumDisplayModes", func: None },
        Method { name: "EnumSurfaces", func: None },
        Method { name: "FlipToGDISurface", func: None },
        Method { name: "GetCaps", func: None },
        Method { name: "GetDisplayMode", func: None },
        Method { name: "GetFourCCCodes", func: None },
        Method { name: "GetGDISurface", func: None },
        Method { name: "GetMonitorFrequency", func: None },
        Method { name: "GetScanLine", func: None },
        Method { name: "GetVerticalBlankStatus", func: None },
        Method { name: "Initialize", func: None },
        Method { name: "RestoreDisplayMode", func: None },
        Method { name: "SetCooperativeLevel", func: Some(Func::IDirectDraw7_SetCooperativeLevel) },
        Method { name: "SetDisplayMode", func: Some(Func::IDirectDraw7_SetDisplayMode) },
        Method { name: "WaitForVerticalBlank", func: None },
    ];
    assert(list@ =~= spec_methods());
    list
}

/// `IDirectDraw::CreateSurface`, which the host does not implement.
pub fn CreateSurface(
    x86: &mut X86,
    this: u32,
    lpSurfaceDesc: u32,
    lpDirectDrawSurface7: u32,
    unused: u32,
) -> (r: StepResult<u32>)
    ensures
        r == Err::<u32, Fault>(
            Fault::Shim(ShimError::Unimplemented { dll: "IDirectDraw", func: "CreateSurface" }),
        ),
        final(x86)@ == old(x86)@,
{
    Err(Fault::Shim(ShimError::Unimplemented { dll: "IDirectDraw", func: "CreateSurface" }))
}

} // verus!
