//! Host functions and the guest addresses that stand for them.
//!
//! Every host function that the guest can call has a trampoline: an address
//! in a range that no image is ever mapped to. A call of the guest to that
//! address is a call of the host function.
use vstd::prelude::*;

verus! {

/// The first trampoline address. The range runs from here to the end of the
/// address space.
pub const TRAMPOLINE_BASE: u32 = 0xFFFF_0000;

/// How many trampoline addresses there are.
pub const TRAMPOLINE_COUNT: u32 = 0x1_0000;

/// The host functions.
#[allow(non_camel_case_types)]
#[derive(Clone, Copy, Debug, PartialEq, Eq)]
pub enum Func {
    /// A function that is exported but has no implementation.
    Unimplemented { dll: &'static str, func: &'static str },
    DirectDrawCreate,
    DirectDrawCreateEx,
    IDirectDraw_CreateSurface,
    IDirectDraw7_Release,
    IDirectDraw7_CreateSurface,
    IDirectDraw7_SetCooperativeLevel,
    IDirectDraw7_SetDisplayMode,
    IDirectDrawSurface7_Release,
    IDirectDrawSurface7_BltFast,
    IDirectDrawSurface7_Flip,
    IDirectDrawSurface7_GetAttachedSurface,
    IDirectDrawSurface7_GetDC,
    IDirectDrawSurface7_GetSurfaceDesc,
    IDirectDrawSurface7_ReleaseDC,
    IDirectDrawSurface7_Restore,
    /// A function that the host runs: the library takes its argument from
    /// the stack and returns the answer that the host has left.
    PathRemoveFileSpecA,
}

/// How a host function runs: to completion within the step that calls it,
/// or started by the step and finished by the host later.
#[derive(Clone, Copy, Debug, PartialEq, Eq)]
pub enum Handler {
    Sync(Func),
    Async(Func),
}

/// A host function under the name that the guest imports it by.
#[derive(Clone, Copy, Debug, PartialEq, Eq)]
pub struct Shim {
    pub name: &'static str,
    pub func: Handler,
}

/// The host functions of one library of the guest, and the bytes of the
/// stub image that satisfies the loader, if there is one.
pub struct BuiltinDLL {
    pub file_name: &'static str,
    pub shims: Vec<Shim>,
    pub raw: Option<Vec<u8>>,
}

/// The host functions that have a trampoline, in the order of their
/// addresses.
pub struct Shims {
    pub list: Vec<Shim>,
}

impl View for Shims {
    type V = Seq<Shim>;

    open spec fn view(&self) -> Seq<Shim> {
        self.list@
    }
}

/// The trampoline address of the shim at position `index`.
pub open spec fn trampoline(index: int) -> u32 {
    (TRAMPOLINE_BASE + index) as u32
}

/// The shim that `addr` is the trampoline of.
pub open spec fn spec_lookup(shims: Seq<Shim>, addr: u32) -> Option<Shim> {
    if addr >= TRAMPOLINE_BASE && addr - TRAMPOLINE_BASE < shims.len() {
        Some(shims[addr - TRAMPOLINE_BASE])
    } else {
        None
    }
}

impl Func {
    /// How many arguments the function takes on the stack.
    pub open spec fn spec_arg_count(self) -> u32 {
        match self {
            Func::Unimplemented { .. } => 0,
            Func::DirectDrawCreate => 3,
            Func::DirectDrawCreateEx => 4,
            Func::IDirectDraw_CreateSurface => 4,
            Func::IDirectDraw7_Release => 1,
            Func::IDirectDraw7_CreateSurface => 4,
            Func::IDirectDraw7_SetCooperativeLevel => 3,
            Func::IDirectDraw7_SetDisplayMode => 6,
            Func::IDirectDrawSurface7_Release => 1,
            Func::IDirectDrawSurface7_BltFast => 6,
            Func::IDirectDrawSurface7_Flip => 3,
            Func::IDirectDrawSurface7_GetAttachedSurface => 3,
            Func::IDirectDrawSurface7_GetDC => 2,
            Func::IDirectDrawSurface7_GetSurfaceDesc => 2,
            Func::IDirectDrawSurface7_ReleaseDC => 2,
            Func::IDirectDrawSurface7_Restore => 1,
            Func::PathRemoveFileSpecA => 1,
        }
    }

    pub fn arg_count(self) -> (n: u32)
        ensures
            n == self.spec_arg_count(),
            n <= 6,
    {
        match self {
            Func::Unimplemented { .. } => 0,
            Func::DirectDrawCreate => 3,
            Func::DirectDrawCreateEx => 4,
            Func::IDirectDraw_CreateSurface => 4,
            Func::IDirectDraw7_Release => 1,
            Func::IDirectDraw7_CreateSurface => 4,
            Func::IDirectDraw7_SetCooperativeLevel => 3,
            Func::IDirectDraw7_SetDisplayMode => 6,
            Func::IDirectDrawSurface7_Release => 1,
            Func::IDirectDrawSurface7_BltFast => 6,
            Func::IDirectDrawSurface7_Flip => 3,
            Func::IDirectDrawSurface7_GetAttachedSurface => 3,
            Func::IDirectDrawSurface7_GetDC => 2,
            Func::IDirectDrawSurface7_GetSurfaceDesc => 2,
            Func::IDirectDrawSurface7_ReleaseDC => 2,
            Func::IDirectDrawSurface7_Restore => 1,
            Func::PathRemoveFileSpecA => 1,
        }
    }
}

impl Shims {
    pub fn new() -> (shims: Shims)
        ensures
            shims@ == Seq::<Shim>::empty(),
    {
        Shims { list: Vec::new() }
    }

    /// How many more shims can get an address.
    pub fn room(&self) -> (n: u32)
        ensures
            n == if self@.len() >= TRAMPOLINE_COUNT {
                0
            } else {
                TRAMPOLINE_COUNT - self@.len()
            },
    {
        if self.list.len() >= TRAMPOLINE_COUNT as usize {
            0
        } else {
            TRAMPOLINE_COUNT - self.list.len() as u32
        }
    }

    /// Gives a shim the next free trampoline address and returns it. `None`
    /// when every address is taken.
    pub fn add(&mut self, shim: Shim) -> (r: Option<u32>)
        ensures
            match r {
                Some(addr) => {
                    &&& old(self)@.len() < TRAMPOLINE_COUNT
                    &&& addr == trampoline(old(self)@.len() as int)
                    &&& final(self)@ == old(self)@.push(shim)
                },
                None => old(self)@.len() >= TRAMPOLINE_COUNT && final(self)@ == old(self)@,
            },
    {
        if self.list.len() >= TRAMPOLINE_COUNT as usize {
            return None;
        }
        let addr = TRAMPOLINE_BASE + self.list.len() as u32;
        self.list.push(shim);
        Some(addr)
    }

    /// The shim whose trampoline `addr` is.
    pub fn lookup(&self, addr: u32) -> (r: Option<Shim>)
        ensures
            r == spec_lookup(self@, addr),
    {
        if addr >= TRAMPOLINE_BASE && ((addr - TRAMPOLINE_BASE) as usize) < self.list.len() {
            Some(self.list[(addr - TRAMPOLINE_BASE) as usize])
        } else {
            None
        }
    }
}

/// Every shim is found at the address it was given, and the addresses of
/// two shims differ.
pub proof fn lemma_lookup(shims: Seq<Shim>, i: int, j: int)
    requires
        0 <= i < shims.len() <= TRAMPOLINE_COUNT,
        0 <= j < shims.len(),
    ensures
        spec_lookup(shims, trampoline(i)) == Some(shims[i]),
        trampoline(i) >= TRAMPOLINE_BASE,
        i != j ==> trampoline(i) != trampoline(j),
{
}

} // verus!
