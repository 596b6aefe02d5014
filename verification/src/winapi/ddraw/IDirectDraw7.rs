//! The interface `IDirectDraw7`.
use crate::fault::{Fault, ShimError, StepResult};
use crate::host::{HostCall, SurfaceOptions};
use crate::mem::lemma_whole;
use crate::shims::Func;
use crate::winapi::ddraw::{
    bad_arg, call_is, new_object, spec_new_object, Model, State, Surface, DDSCAPS, DDSD,
    DDSURFACEDESC2, DDSURFACEDESC2_SIZE, DD_OK,
};
use crate::winapi::vtable::Method;
use crate::x86::{spec_read, spec_write, Cpu, Machine, X86};
use vstd::prelude::*;

verus! {

broadcast use vstd::std_specs::hash::group_hash_axioms;

/// The methods of the interface, in the order of their table entries. A
/// method without a host function is one the host does not implement.
#[verifier::opaque]
pub open spec fn spec_methods() -> Seq<Method> {
    seq![
        Method { name: "QueryInterface", func: None },
        Method { name: "AddRef", func: None },
        Method { name: "Release", func: Some(Func::IDirectDraw7_Release) },
        Method { name: "Compact", func: None },
        Method { name: "CreateClipper", func: None },
        Method { name: "CreatePalette", func: None },
        Method { name: "CreateSurface", func: Some(Func::IDirectDraw7_CreateSurface) },
        Method { name: "DuplicateSurface", func: None },
        Method { name: "EnumDisplayModes", func: None },
        Method { name: "EnumSurfaces", func: None },
        Method { name: "FlipToGDISurface", func: None },
        Method { name: "GetCaps", func: None },
        Method { name: "GetDisplayMode", func: None },
        Method { name: "GetFourCCCodes", func: None },
        Method { name: "GetGDISurface", func: None },
        Method { name: "GetMonitorFrequency", func: None },
        Method { name: "GetScanLine", func: None },
        Method { name: "GetVerticalBlankStatus", func: None },
        Method { name: "Initialize", func: None },
        Method { name: "RestoreDisplayMode", func: None },
        Method { name: "SetCooperativeLevel", func: Some(Func::IDirectDraw7_SetCooperativeLevel) },
        Method { name: "SetDisplayMode", func: Some(Func::IDirectDraw7_SetDisplayMode) },
        Method { name: "WaitForVerticalBlank", func: None },
        Method { name: "GetAvailableVidMem", func: None },
        Method { name: "GetSurfaceFromDC", func: None },
        Method { name: "RestoreAllSurfaces", func: None },
        Method { name: "TestCooperativeLevel", func: None },
        Method { name: "GetDeviceIdentifier", func: None },
        Method { name: "StartModeTest", func: None },
        Method { name: "EvaluateMode", func: None },
    ]
}

pub fn methods() -> (list: Vec<Method>)
    ensures
        list@ == spec_methods(),
        list@.len() == 30,
{
    reveal(spec_methods);
    let list = vec![
        Method { name: "QueryInterface", func: None },
        Method { name: "AddRef", func: None },
        Method { name: "Release", func: Some(Func::IDirectDraw7_Release) },
        Method { name: "Compact", func: None },
        Method { name: "CreateClipper", func: None },
        Method { name: "CreatePalette", func: None },
        Method { name: "CreateSurface", func: Some(Func::IDirectDraw7_CreateSurface) },
        Method { name: "DuplicateSurface", func: None },
        Method { name: "EnumDisplayModes", func: None },
        Method { name: "EnumSurfaces", func: None },
        Method { name: "FlipToGDISurface", func: None },
        Method { name: "GetCaps", func: None },
        Method { name: "GetDisplayMode", func: None },
        Method { name: "GetFourCCCodes", func: None },
        Method { name: "GetGDISurface", func: None },
        Method { name: "GetMonitorFrequency", func: None },
        Method { name: "GetScanLine", func: None },
        Method { name: "GetVerticalBlankStatus", func: None },
        Method { name: "Initialize", func: None },
        Method { name: "RestoreDisplayMode", func: None },
        Method { name: "SetCooperativeLevel", func: Some(Func::IDirectDraw7_SetCooperativeLevel) },
        Method { name: "SetDisplayMode", func: Some(Func::IDirectDraw7_SetDisplayMode) },
        Method { name: "WaitForVerticalBlank", func: None },
        Method { name: "GetAvailableVidMem", func: None },
        Method { name: "GetSurfaceFromDC", func: None },
        Method { name: "RestoreAllSurfaces", func: None },
        Method { name: "TestCooperativeLevel", func: None },
        Method { name: "GetDeviceIdentifier", func: None },
        Method { name: "StartModeTest", func: None },
        Method { name: "EvaluateMode", func: None },
    ];
    assert(list@ =~= spec_methods());
    list
}

/// The bits of the cooperative level.
pub struct DDSCL {
    pub bits: u32,
}

impl DDSCL {
    pub const DDSCL_FULLSCREEN: u32 = 0x0001;

    pub const DDSCL_ALLOWREBOOT: u32 = 0x0002;

    pub const DDSCL_NOWINDOWCHANGES: u32 = 0x0004;

    pub const DDSCL_NORMAL: u32 = 0x0008;

    pub const DDSCL_EXCLUSIVE: u32 = 0x0010;

    pub const DDSCL_ALLOWMODEX: u32 = 0x0040;

    pub const DDSCL_SETFOCUSWINDOW: u32 = 0x0080;

    pub const DDSCL_SETDEVICEWINDOW: u32 = 0x0100;

    pub const DDSCL_CREATEDEVICEWINDOW: u32 = 0x0200;

    pub const DDSCL_MULTITHREADED: u32 = 0x0400;

    pub const DDSCL_FPUSETUP: u32 = 0x0800;

    pub const DDSCL_FPUPRESERVE: u32 = 0x1000;
}

/// Drops a reference to the object. Objects are never freed: the call does
/// nothing and returns zero.
pub fn Release(x86: &mut X86, this: u32) -> (r: StepResult<u32>)
    ensures
        r == Ok::<u32, Fault>(0),
        final(x86)@ == old(x86)@,
{
    Ok(0)
}

/// The surface that a description asks for. A description that names its
/// width or height gives that. One whose capabilities say that it is the
/// primary surface gets the size of the display instead.
pub open spec fn spec_surface_options(desc: DDSURFACEDESC2, display: Model) -> SurfaceOptions {
    let flags = DDSD { bits: desc.dwFlags };
    let primary = flags.spec_contains(DDSD::CAPS) && (DDSCAPS {
        bits: desc.ddsCaps.dwCaps,
    }).spec_contains(DDSCAPS::PRIMARYSURFACE);
    SurfaceOptions {
        width: if primary {
            display.width
        } else if flags.spec_contains(DDSD::WIDTH) {
            desc.dwWidth
        } else {
            0
        },
        height: if primary {
            display.height
        } else if flags.spec_contains(DDSD::HEIGHT) {
            desc.dwHeight
        } else {
            0
        },
        primary,
    }
}

/// Works out what surface a description asks for.
pub fn surface_options(desc: &DDSURFACEDESC2, display: &State) -> (opts: SurfaceOptions)
    ensures
        opts == spec_surface_options(*desc, display@),
{
    let mut opts = SurfaceOptions::default();
    if desc.flags().contains(DDSD::WIDTH) {
        opts.width = desc.dwWidth;
    }
    if desc.flags().contains(DDSD::HEIGHT) {
        opts.height = desc.dwHeight;
    }
    if let Some(caps) = desc.caps() {
        if caps.caps1().contains(DDSCAPS::PRIMARYSURFACE) {
            opts.width = display.width;
            opts.height = display.height;
            opts.primary = true;
        }
    }
    opts
}

/// What `CreateSurface` does: it reads the description at `lpSurfaceDesc`,
/// makes a surface object, stores the object's address at
/// `lpDirectDrawSurface7`, records the surface with its size, and asks the
/// host to create it.
pub open spec fn spec_create_surface(m: Machine, lpSurfaceDesc: u32, lpDirectDrawSurface7: u32)
    -> Result<(Machine, u32), Fault> {
    match DDSURFACEDESC2::spec_read(m.cpu.mem, lpSurfaceDesc) {
        Err(f) => Err(f),
        Ok(desc) => if desc.dwSize != DDSURFACEDESC2_SIZE {
            Err(bad_arg("CreateSurface", "lpSurfaceDesc"))
        } else {
            match spec_read::<u32>(m.cpu.mem, lpDirectDrawSurface7) {
                Err(f) => Err(f),
                Ok(_) => match spec_new_object(m, m.ddraw.vtable_IDirectDrawSurface7) {
                    Err(f) => Err(f),
                    Ok((made, object)) => {
                        let opts = spec_surface_options(desc, m.ddraw);
                        Ok(
                            (
                                Machine {
                                    cpu: Cpu {
                                        mem: spec_write::<u32>(
                                            made.cpu.mem,
                                            lpDirectDrawSurface7,
                                            object,
                                        ),
                                        ..made.cpu
                                    },
                                    ddraw: Model {
                                        surfaces: made.ddraw.surfaces.insert(
                                            object,
                                            Surface { width: opts.width, height: opts.height },
                                        ),
                                        ..made.ddraw
                                    },
                                    host: made.host.push(
                                        HostCall::CreateSurface { surface: object, opts },
                                    ),
                                    ..made
                                },
                                DD_OK,
                            ),
                        )
                    },
                },
            }
        },
    }
}

/// Creates a surface.
pub fn CreateSurface(
    x86: &mut X86,
    this: u32,
    lpSurfaceDesc: u32,
    lpDirectDrawSurface7: u32,
    unused: u32,
) -> (r: StepResult<u32>)
    ensures
        call_is(
            old(x86)@,
            final(x86)@,
            r,
            spec_create_surface(old(x86)@, lpSurfaceDesc, lpDirectDrawSurface7),
        ),
{
    let desc = DDSURFACEDESC2::read(x86, lpSurfaceDesc)?;
    if desc.dwSize != DDSURFACEDESC2_SIZE {
        return Err(Fault::Shim(ShimError::BadArg { func: "CreateSurface", arg: "lpSurfaceDesc" }));
    }
    let _ = x86.read_u32(lpDirectDrawSurface7)?;
    let opts = surface_options(&desc, &x86.state.ddraw);
    let table = x86.state.ddraw.vtable_IDirectDrawSurface7;
    let x86_surface = new_object(x86, table)?;
    proof {
        lemma_whole(old(x86).mem@.len());
        lemma_whole(x86.mem@.len());
    }
    let _ = x86.write_u32(lpDirectDrawSurface7, x86_surface);
    x86.host.call(HostCall::CreateSurface { surface: x86_surface, opts });
    x86.state.ddraw.surfaces.insert(
        x86_surface,
        Surface { width: opts.width, height: opts.height },
    );
    Ok(DD_OK)
}

/// Remembers the window that the guest draws for.
pub fn SetCooperativeLevel(x86: &mut X86, this: u32, hwnd: u32, flags: u32) -> (r: StepResult<u32>)
    ensures
        r == Ok::<u32, Fault>(DD_OK),
        final(x86)@ == (Machine { ddraw: Model { hwnd, ..old(x86)@.ddraw }, ..old(x86)@ }),
{
    x86.state.ddraw.hwnd = hwnd;
    Ok(DD_OK)
}

/// Remembers the size of the display, which the primary surface gets.
pub fn SetDisplayMode(
    x86: &mut X86,
    this: u32,
    width: u32,
    height: u32,
    bpp: u32,
    refresh: u32,
    flags: u32,
) -> (r: StepResult<u32>)
    ensures
        r == Ok::<u32, Fault>(DD_OK),
        final(x86)@ == (Machine {
            ddraw: Model { width, height, ..old(x86)@.ddraw },
            ..old(x86)@
        }),
{
    x86.state.ddraw.width = width;
    x86.state.ddraw.height = height;
    Ok(DD_OK)
}

} // verus!
