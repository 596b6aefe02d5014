//! The interface `IDirectDrawSurface7`.
use crate::fault::{Fault, ShimError, StepResult};
use crate::host::HostCall;
use crate::mem::lemma_whole;
use crate::shims::Func;
use crate::winapi::ddraw::{
    bad_arg, call_is, new_object, spec_new_object, Model, Surface, DDSD, DDSURFACEDESC2,
    DDSURFACEDESC2_SIZE, DD_OK, RECT,
};
use crate::winapi::gdi32::DC;
use crate::winapi::vtable::Method;
use crate::x86::{spec_read, spec_write, Cpu, Machine, X86};
use vstd::prelude::*;

verus! {

broadcast use vstd::std_specs::hash::group_hash_axioms;

/// The methods of the interface, in the order of their table entries. A
/// method without a host function is one the host does not implement.
#[verifier::opaque]
pub open spec fn spec_methods() -> Seq<Method> {
    seq![
        Method { name: "QueryInterface", func: None },
        Method { name: "AddRef", func: None },
        Method { name: "Release", func: Some(Func::IDirectDrawSurface7_Release) },
        Method { name: "AddAttachedSurface", func: None },
        Method { name: "AddOverlayDirtyRect", func: None },
        Method { name: "Blt", func: None },
        Method { name: "BltBatch", func: None },
        Method { name: "BltFast", func: Some(Func::IDirectDrawSurface7_BltFast) },
        Method { name: "DeleteAttachedSurface", func: None },
        Method { name: "EnumAttachedSurfaces", func: None },
        Method { name: "EnumOverlayZOrders", func: None },
        Method { name: "Flip", func: Some(Func::IDirectDrawSurface7_Flip) },
        Method { name: "GetAttachedSurface", func: Some(Func::IDirectDrawSurface7_GetAttachedSurface) },
        Method { name: "GetBltStatus", func: None },
        Method { name: "GetCaps", func: None },
        Method { name: "GetClipper", func: None },
        Method { name: "GetColorKey", func: None },
        Method { name: "GetDC", func: Some(Func::IDirectDrawSurface7_GetDC) },
        Method { name: "GetFlipStatus", func: None },
        Method { name: "GetOverlayPosition", func: None },
        Method { name: "GetPalette", func: None },
        Method { name: "GetPixelFormat", func: None },
        Method { name: "GetSurfaceDesc", func: Some(Func::IDirectDrawSurface7_GetSurfaceDesc) },
        Method { name: "Initialize", func: None },
        Method { name: "IsLost", func: None },
        Method { name: "Lock", func: None },
        Method { name: "ReleaseDC", func: Some(Func::IDirectDrawSurface7_ReleaseDC) },
        Method { name: "Restore", func: Some(Func::IDirectDrawSurface7_Restore) },
        Method { name: "SetClipper", func: None },
        Method { name: "SetColorKey", func: None },
        Method { name: "SetOverlayPosition", func: None },
        Method { name: "SetPalette", func: None },
        Method { name: "Unlock", func: None },
        Method { name: "UpdateOverlay", func: None },
        Method { name: "UpdateOverlayDisplay", func: None },
        Method { name: "UpdateOverlayZOrder", func: None },
        Method { name: "GetDDInterface", func: None },
        Method { name: "PageLock", func: None },
        Method { name: "PageUnlock", func: None },
        Method { name: "SetSurfaceDesc", func: None },
        Method { name: "SetPrivateData", func: None },
        Method { name: "GetPrivateData", func: None },
        Method { name: "FreePrivateData", func: None },
        Method { name: "GetUniquenessValue", func: None },
        Method { name: "ChangeUniquenessValue", func: None },
        Method { name: "SetPriority", func: None },
        Method { name: "GetPriority", func: None },
        Method { name: "SetLOD", func: None },
        Method { name: "GetLOD", func: None },
    ]
}

pub fn methods() -> (list: Vec<Method>)
    ensures
        list@ == spec_methods(),
        list@.len() == 49,
{
    reveal(spec_methods);
    let list = vec![
        Method { name: "QueryInterface", func: None },
        Method { name: "AddRef", func: None },
        Method { name: "Release", func: Some(Func::IDirectDrawSurface7_Release) },
        Method { name: "AddAttachedSurface", func: None },
        Method { name: "AddOverlayDirtyRect", func: None },
        Method { name: "Blt", func: None },
        Method { name: "BltBatch", func: None },
        Method { name: "BltFast", func: Some(Func::IDirectDrawSurface7_BltFast) },
        Method { name: "DeleteAttachedSurface", func: None },
        Method { name: "EnumAttachedSurfaces", func: None },
        Method { name: "EnumOverlayZOrders", func: None },
        Method { name: "Flip", func: Some(Func::IDirectDrawSurface7_Flip) },
        Method { name: "GetAttachedSurface", func: Some(Func::IDirectDrawSurface7_GetAttachedSurface) },
        Method { name: "GetBltStatus", func: None },
        Method { name: "GetCaps", func: None },
        Method { name: "GetClipper", func: None },
        Method { name: "GetColorKey", func: None },
        Method { name: "GetDC", func: Some(Func::IDirectDrawSurface7_GetDC) },
        Method { name: "GetFlipStatus", func: None },
        Method { name: "GetOverlayPosition", func: None },
        Method { name: "GetPalette", func: None },
        Method { name: "GetPixelFormat", func: None },
        Method { name: "GetSurfaceDesc", func: Some(Func::IDirectDrawSurface7_GetSurfaceDesc) },
        Method { name: "Initialize", func: None },
        Method { name: "IsLost", func: None },
        Method { name: "Lock", func: None },
        Method { name: "ReleaseDC", func: Some(Func::IDirectDrawSurface7_ReleaseDC) },
        Method { name: "Restore", func: Some(Func::IDirectDrawSurface7_Restore) },
        Method { name: "SetClipper", func: None },
        Method { name: "SetColorKey", func: None },
        Method { name: "SetOverlayPosition", func: None },
        Method { name: "SetPalette", func: None },
        Method { name: "Unlock", func: None },
        Method { name: "UpdateOverlay", func: None },
        Method { name: "UpdateOverlayDisplay", func: None },
        Method { name: "UpdateOverlayZOrder", func: None },
        Method { name: "GetDDInterface", func: None },
        Method { name: "PageLock", func: None },
        Method { name: "PageUnlock", func: None },
        Method { name: "SetSurfaceDesc", func: None },
        Method { name: "SetPrivateData", func: None },
        Method { name: "GetPrivateData", func: None },
        Method { name: "FreePrivateData", func: None },
        Method { name: "GetUniquenessValue", func: None },
        Method { name: "ChangeUniquenessValue", func: None },
        Method { name: "SetPriority", func: None },
        Method { name: "GetPriority", func: None },
        Method { name: "SetLOD", func: None },
        Method { name: "GetLOD", func: None },
    ];
    assert(list@ =~= spec_methods());
    list
}

/// Makes a surface object: four bytes from the DirectDraw heap that hold
/// the address of the method table of the interface. Returns the object's
/// guest address.
pub fn new(x86: &mut X86) -> (r: StepResult<u32>)
    ensures
        call_is(
            old(x86)@,
            final(x86)@,
            r,
            spec_new_object(old(x86)@, old(x86)@.ddraw.vtable_IDirectDrawSurface7),
        ),
        r matches Ok(object) ==> spec_read::<u32>(final(x86).mem@, object) == Ok::<u32, Fault>(
            old(x86)@.ddraw.vtable_IDirectDrawSurface7,
        ),
{
    let vtable = x86.state.ddraw.vtable_IDirectDrawSurface7;
    new_object(x86, vtable)
}

fn surface(x86: &X86, object: u32) -> (r: Option<Surface>)
    ensures
        match r {
            Some(s) => x86@.ddraw.surfaces.contains_key(object) && x86@.ddraw.surfaces[object]
                == s,
            None => !x86@.ddraw.surfaces.contains_key(object),
        },
{
    match x86.state.ddraw.surfaces.get(&object) {
        Some(s) => Some(*s),
        None => None,
    }
}

/// What `BltFast` does: it asks the host to copy the rectangle stored at
/// `lpRect` from the surface `lpSurf` to (`x`, `y`) of this surface. Both
/// must be surfaces, and the rectangle must not end before it begins.
pub open spec fn spec_blt_fast(m: Machine, this: u32, x: u32, y: u32, lpSurf: u32, lpRect: u32)
    -> Result<(Machine, u32), Fault> {
    if !m.ddraw.surfaces.contains_key(this) {
        Err(bad_arg("BltFast", "this"))
    } else if !m.ddraw.surfaces.contains_key(lpSurf) {
        Err(bad_arg("BltFast", "lpSurf"))
    } else {
        match RECT::spec_read(m.cpu.mem, lpRect) {
            Err(f) => Err(f),
            Ok(rect) => if rect.right < rect.left || rect.bottom < rect.top {
                Err(bad_arg("BltFast", "lpRect"))
            } else {
                Ok(
                    (
                        Machine {
                            host: m.host.push(
                                HostCall::BitBlt {
                                    dst: this,
                                    dx: x,
                                    dy: y,
                                    src: lpSurf,
                                    sx: rect.left,
                                    sy: rect.top,
                                    w: (rect.right - rect.left) as u32,
                                    h: (rect.bottom - rect.top) as u32,
                                },
                            ),
                            ..m
                        },
                        DD_OK,
                    ),
                )
            },
        }
    }
}

/// Copies a rectangle from another surface.
pub fn BltFast(x86: &mut X86, this: u32, x: u32, y: u32, lpSurf: u32, lpRect: u32, flags: u32) -> (r:
    StepResult<u32>)
    ensures
        call_is(old(x86)@, final(x86)@, r, spec_blt_fast(old(x86)@, this, x, y, lpSurf, lpRect)),
{
    if surface(x86, this).is_none() {
        return Err(Fault::Shim(ShimError::BadArg { func: "BltFast", arg: "this" }));
    }
    if surface(x86, lpSurf).is_none() {
        return Err(Fault::Shim(ShimError::BadArg { func: "BltFast", arg: "lpSurf" }));
    }
    let rect = RECT::read(x86, lpRect)?;
    if rect.right < rect.left || rect.bottom < rect.top {
        return Err(Fault::Shim(ShimError::BadArg { func: "BltFast", arg: "lpRect" }));
    }
    let sx = rect.left;
    let w = rect.right - sx;
    let sy = rect.top;
    let h = rect.bottom - sy;
    x86.host.call(HostCall::BitBlt { dst: this, dx: x, dy: y, src: lpSurf, sx, sy, w, h });
    Ok(DD_OK)
}

/// What `Flip` does: it asks the host to show this surface, which must be
/// one.
pub open spec fn spec_flip(m: Machine, this: u32) -> Result<(Machine, u32), Fault> {
    if !m.ddraw.surfaces.contains_key(this) {
        Err(bad_arg("Flip", "this"))
    } else {
        Ok((Machine { host: m.host.push(HostCall::Flip { surface: this }), ..m }, DD_OK))
    }
}

/// Shows the surface.
pub fn Flip(x86: &mut X86, this: u32, lpSurf: u32, flags: u32) -> (r: StepResult<u32>)
    ensures
        call_is(old(x86)@, final(x86)@, r, spec_flip(old(x86)@, this)),
{
    if surface(x86, this).is_none() {
        return Err(Fault::Shim(ShimError::BadArg { func: "Flip", arg: "this" }));
    }
    x86.host.call(HostCall::Flip { surface: this });
    Ok(DD_OK)
}

/// What `GetAttachedSurface` does: it makes a surface object for the
/// surface attached to this one, stores the object's address at
/// `lpDirectDrawSurface7`, records the surface with the size of this one,
/// and asks the host to attach its side.
pub open spec fn spec_get_attached_surface(m: Machine, this: u32, lpDirectDrawSurface7: u32)
    -> Result<(Machine, u32), Fault> {
    if !m.ddraw.surfaces.contains_key(this) {
        Err(bad_arg("GetAttachedSurface", "this"))
    } else {
        match spec_read::<u32>(m.cpu.mem, lpDirectDrawSurface7) {
            Err(f) => Err(f),
            Ok(_) => match spec_new_object(m, m.ddraw.vtable_IDirectDrawSurface7) {
                Err(f) => Err(f),
                Ok((made, object)) => Ok(
                    (
                        Machine {
                            cpu: Cpu {
                                mem: spec_write::<u32>(made.cpu.mem, lpDirectDrawSurface7, object),
                                ..made.cpu
                            },
                            ddraw: Model {
                                surfaces: made.ddraw.surfaces.insert(
                                    object,
                                    m.ddraw.surfaces[this],
                                ),
                                ..made.ddraw
                            },
                            host: made.host.push(
                                HostCall::GetAttached { surface: this, attached: object },
                            ),
                            ..made
                        },
                        DD_OK,
                    ),
                ),
            },
        }
    }
}

/// Hands out the surface attached to this one.
pub fn GetAttachedSurface(x86: &mut X86, this: u32, lpDDSCaps2: u32, lpDirectDrawSurface7: u32) -> (r:
    StepResult<u32>)
    ensures
        call_is(
            old(x86)@,
            final(x86)@,
            r,
            spec_get_attached_surface(old(x86)@, this, lpDirectDrawSurface7),
        ),
{
    let this_surface = match surface(x86, this) {
        Some(s) => s,
        None => {
            return Err(Fault::Shim(ShimError::BadArg { func: "GetAttachedSurface", arg: "this" }));
        },
    };
    let _ = x86.read_u32(lpDirectDrawSurface7)?;
    let x86_surface = new(x86)?;
    proof {
        lemma_whole(old(x86).mem@.len());
        lemma_whole(x86.mem@.len());
    }
    let _ = x86.write_u32(lpDirectDrawSurface7, x86_surface);
    x86.host.call(HostCall::GetAttached { surface: this, attached: x86_surface });
    x86.state.ddraw.surfaces.insert(
        x86_surface,
        Surface { width: this_surface.width, height: this_surface.height },
    );
    Ok(DD_OK)
}

/// What `GetDC` does: it makes a device context that draws on this surface
/// and stores its handle at `lpHDC`. When the handles have run out it stores
/// zero.
pub open spec fn spec_get_dc(m: Machine, this: u32, lpHDC: u32) -> Result<(Machine, u32), Fault> {
    match spec_read::<u32>(m.cpu.mem, lpHDC) {
        Err(f) => Err(f),
        Ok(_) => if m.dcs.len() < u32::MAX {
            Ok(
                (
                    Machine {
                        cpu: Cpu {
                            mem: spec_write::<u32>(m.cpu.mem, lpHDC, (m.dcs.len() + 1) as u32),
                            ..m.cpu
                        },
                        dcs: m.dcs.push(DC { ddraw_surface: this }),
                        ..m
                    },
                    DD_OK,
                ),
            )
        } else {
            Ok(
                (
                    Machine {
                        cpu: Cpu { mem: spec_write::<u32>(m.cpu.mem, lpHDC, 0), ..m.cpu },
                        ..m
                    },
                    DD_OK,
                ),
            )
        },
    }
}

/// Hands out a device context for the surface.
pub fn GetDC(x86: &mut X86, this: u32, lpHDC: u32) -> (r: StepResult<u32>)
    ensures
        call_is(old(x86)@, final(x86)@, r, spec_get_dc(old(x86)@, this, lpHDC)),
{
    let _ = x86.read_u32(lpHDC)?;
    let handle = x86.state.gdi32.new_dc(DC { ddraw_surface: this });
    let _ = x86.write_u32(lpHDC, handle);
    Ok(DD_OK)
}

/// Guest memory after the fields that `flags` names have been filled in, in
/// the description at `lpDesc`, from the surface: the width, the height.
pub open spec fn spec_fill_desc(mem: Seq<u8>, lpDesc: u32, flags: DDSD, surface: Surface) -> Seq<
    u8,
> {
    let with_width = if flags.spec_contains(DDSD::WIDTH) {
        spec_write::<u32>(mem, (lpDesc + 12) as u32, surface.width)
    } else {
        mem
    };
    if flags.spec_contains(DDSD::HEIGHT) {
        spec_write::<u32>(with_width, (lpDesc + 8) as u32, surface.height)
    } else {
        with_width
    }
}

/// What `GetSurfaceDesc` does: in the description at `lpDesc` it fills in
/// the width and height of this surface, each if the description's flags
/// ask for it, and leaves everything else as it is.
pub open spec fn spec_get_surface_desc(m: Machine, this: u32, lpDesc: u32) -> Result<
    (Machine, u32),
    Fault,
> {
    if !m.ddraw.surfaces.contains_key(this) {
        Err(bad_arg("GetSurfaceDesc", "this"))
    } else {
        match DDSURFACEDESC2::spec_read(m.cpu.mem, lpDesc) {
            Err(f) => Err(f),
            Ok(desc) => if desc.dwSize != DDSURFACEDESC2_SIZE {
                Err(bad_arg("GetSurfaceDesc", "lpDesc"))
            } else {
                Ok(
                    (
                        Machine {
                            cpu: Cpu {
                                mem: spec_fill_desc(
                                    m.cpu.mem,
                                    lpDesc,
                                    DDSD { bits: desc.dwFlags },
                                    m.ddraw.surfaces[this],
                                ),
                                ..m.cpu
                            },
                            ..m
                        },
                        DD_OK,
                    ),
                )
            },
        }
    }
}

/// Describes the surface.
pub fn GetSurfaceDesc(x86: &mut X86, this: u32, lpDesc: u32) -> (r: StepResult<u32>)
    ensures
        call_is(old(x86)@, final(x86)@, r, spec_get_surface_desc(old(x86)@, this, lpDesc)),
{
    let surf = match surface(x86, this) {
        Some(s) => s,
        None => {
            return Err(Fault::Shim(ShimError::BadArg { func: "GetSurfaceDesc", arg: "this" }));
        },
    };
    let desc = DDSURFACEDESC2::read(x86, lpDesc)?;
    if desc.dwSize != DDSURFACEDESC2_SIZE {
        return Err(Fault::Shim(ShimError::BadArg { func: "GetSurfaceDesc", arg: "lpDesc" }));
    }
    let flags = desc.flags();
    if flags.contains(DDSD::WIDTH) {
        let _ = x86.write_u32(lpDesc + 12, surf.width);
    }
    if flags.contains(DDSD::HEIGHT) {
        let _ = x86.write_u32(lpDesc + 8, surf.height);
    }
    Ok(DD_OK)
}

/// Drops a reference to the surface. Surfaces are never freed: the call
/// does nothing and returns zero.
pub fn Release(x86: &mut X86, this: u32) -> (r: StepResult<u32>)
    ensures
        r == Ok::<u32, Fault>(0),
        final(x86)@ == old(x86)@,
{
    Ok(0)
}

/// Gives a device context back. Contexts are never freed: the call does
/// nothing.
pub fn ReleaseDC(x86: &mut X86, this: u32, hDC: u32) -> (r: StepResult<u32>)
    ensures
        r == Ok::<u32, Fault>(DD_OK),
        final(x86)@ == old(x86)@,
{
    Ok(DD_OK)
}

/// Restores a lost surface. Surfaces are never lost: the call does nothing.
pub fn Restore(x86: &mut X86, this: u32) -> (r: StepResult<u32>)
    ensures
        r == Ok::<u32, Fault>(DD_OK),
        final(x86)@ == old(x86)@,
{
    Ok(DD_OK)
}

} // verus!
