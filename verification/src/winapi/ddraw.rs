//! DirectDraw.
#![allow(non_snake_case)]
#![allow(non_upper_case_globals)]
use crate::fault::{Fault, ShimError, StepResult};
use crate::mem::{lemma_whole, Mem};
use crate::pod::Pod;
use crate::shims::{TRAMPOLINE_BASE, TRAMPOLINE_COUNT};
use crate::winapi::kernel32;
use crate::winapi::kernel32::{grown, spec_break, Heap};
use crate::winapi::vtable::{lemma_table_frame, lemma_table_len, vtable, with_vtable};
use crate::x86::{spec_read, spec_write, Cpu, Machine, X86};
use std::collections::HashMap;
use vstd::prelude::*;

pub mod IDirectDraw;
pub mod IDirectDraw7;
pub mod IDirectDrawSurface7;
pub mod laws;

verus! {

broadcast use vstd::std_specs::hash::group_hash_axioms;

/// A drawing surface of the guest. The host's side of it is found under the
/// guest address of the object that stands for the surface.
#[derive(Clone, Copy, Debug, PartialEq, Eq, Structural)]
pub struct Surface {
    pub width: u32,
    pub height: u32,
}

/// What DirectDraw keeps for the guest process.
pub struct State {
    /// The heap that the objects and their method tables are made in; zero
    /// until the first object is asked for.
    pub hheap: u32,
    pub vtable_IDirectDraw: u32,
    pub vtable_IDirectDraw7: u32,
    pub vtable_IDirectDrawSurface7: u32,
    pub hwnd: u32,
    pub width: u32,
    pub height: u32,
    /// The surfaces, by the guest address of their object.
    pub surfaces: HashMap<u32, Surface>,
}

/// [`State`] as a value.
#[verifier::ext_equal]
pub struct Model {
    pub hheap: u32,
    pub vtable_IDirectDraw: u32,
    pub vtable_IDirectDraw7: u32,
    pub vtable_IDirectDrawSurface7: u32,
    pub hwnd: u32,
    pub width: u32,
    pub height: u32,
    pub surfaces: Map<u32, Surface>,
}

impl View for State {
    type V = Model;

    open spec fn view(&self) -> Model {
        Model {
            hheap: self.hheap,
            vtable_IDirectDraw: self.vtable_IDirectDraw,
            vtable_IDirectDraw7: self.vtable_IDirectDraw7,
            vtable_IDirectDrawSurface7: self.vtable_IDirectDrawSurface7,
            hwnd: self.hwnd,
            width: self.width,
            height: self.height,
            surfaces: self.surfaces@,
        }
    }
}

pub const DD_OK: u32 = 0;

/// The failure code of DirectDraw that says no more than that.
pub const DDERR_GENERIC: u32 = 0x80004005;


/// A set of the capability bits of a surface.
#[derive(Clone, Copy, Debug, PartialEq, Eq, Structural)]
pub struct DDSCAPS {
    pub bits: u32,
}

impl DDSCAPS {
    pub const ALPHA: u32 = 0x00000002;

    pub const BACKBUFFER: u32 = 0x00000004;

    pub const COMPLEX: u32 = 0x00000008;

    pub const FLIP: u32 = 0x00000010;

    pub const FRONTBUFFER: u32 = 0x00000020;

    pub const OFFSCREENPLAIN: u32 = 0x00000040;

    pub const OVERLAY: u32 = 0x00000080;

    pub const PALETTE: u32 = 0x00000100;

    pub const PRIMARYSURFACE: u32 = 0x00000200;

    pub const PRIMARYSURFACELEFT: u32 = 0x00000400;

    pub const SYSTEMMEMORY: u32 = 0x00000800;

    pub const TEXTURE: u32 = 0x00001000;

    pub const _3DDEVICE: u32 = 0x00002000;

    pub const VIDEOMEMORY: u32 = 0x00004000;

    pub const VISIBLE: u32 = 0x00008000;

    pub const WRITEONLY: u32 = 0x00010000;

    pub const ZBUFFER: u32 = 0x00020000;

    pub const OWNDC: u32 = 0x00040000;

    pub const LIVEVIDEO: u32 = 0x00080000;

    pub const HWCODEC: u32 = 0x00100000;

    pub const MODEX: u32 = 0x00200000;

    pub const MIPMAP: u32 = 0x00400000;

    pub const ALLOCONLOAD: u32 = 0x04000000;

    pub const VIDEOPORT: u32 = 0x08000000;

    pub const LOCALVIDMEM: u32 = 0x10000000;

    pub const NONLOCALVIDMEM: u32 = 0x20000000;

    pub const STANDARDVGAMODE: u32 = 0x40000000;

    /// Whether every bit of `flag` is in the set.
    pub open spec fn spec_contains(self, flag: u32) -> bool {
        self.bits & flag == flag
    }

    pub fn from_bits_unchecked(bits: u32) -> (caps: DDSCAPS)
        ensures
            caps.bits == bits,
    {
        DDSCAPS { bits }
    }

    pub fn contains(&self, flag: u32) -> (b: bool)
        ensures
            b == self.spec_contains(flag),
    {
        self.bits & flag == flag
    }
}

/// A set of the bits that say which fields of a surface description are
/// filled in.
#[derive(Clone, Copy, Debug, PartialEq, Eq, Structural)]
pub struct DDSD {
    pub bits: u32,
}

impl DDSD {
    pub const CAPS: u32 = 0x00000001;

    pub const HEIGHT: u32 = 0x00000002;

    pub const WIDTH: u32 = 0x00000004;

    pub const PITCH: u32 = 0x00000008;

    pub const BACKBUFFERCOUNT: u32 = 0x00000020;

    pub const ZBUFFERBITDEPTH: u32 = 0x00000040;

    pub const ALPHABITDEPTH: u32 = 0x00000080;

    pub const LPSURFACE: u32 = 0x00000800;

    pub const PIXELFORMAT: u32 = 0x00001000;

    pub const CKDESTOVERLAY: u32 = 0x00002000;

    pub const CKDESTBLT: u32 = 0x00004000;

    pub const CKSRCOVERLAY: u32 = 0x00008000;

    pub const CKSRCBLT: u32 = 0x00010000;

    pub const MIPMAPCOUNT: u32 = 0x00020000;

    pub const REFRESHRATE: u32 = 0x00040000;

    pub const LINEARSIZE: u32 = 0x00080000;

    pub const TEXTURESTAGE: u32 = 0x00100000;

    pub const FVF: u32 = 0x00200000;

    pub const SRCVBHANDLE: u32 = 0x00400000;

    pub const DEPTH: u32 = 0x00800000;

    /// Whether every bit of `flag` is in the set.
    pub open spec fn spec_contains(self, flag: u32) -> bool {
        self.bits & flag == flag
    }

    pub fn from_bits_unchecked(bits: u32) -> (flags: DDSD)
        ensures
            flags.bits == bits,
    {
        DDSD { bits }
    }

    pub fn contains(&self, flag: u32) -> (b: bool)
        ensures
            b == self.spec_contains(flag),
    {
        self.bits & flag == flag
    }

    pub fn remove(&mut self, flag: u32)
        ensures
            final(self).bits == old(self).bits & !flag,
    {
        self.bits = self.bits & !flag;
    }

    pub fn is_empty(&self) -> (b: bool)
        ensures
            b == (self.bits == 0),
    {
        self.bits == 0
    }
}

/// A rectangle as the guest lays it out: four dwords.
#[derive(Clone, Copy, Debug, PartialEq, Eq, Structural)]
pub struct RECT {
    pub left: u32,
    pub top: u32,
    pub right: u32,
    pub bottom: u32,
}

#[derive(Clone, Copy, Debug, PartialEq, Eq, Structural)]
pub struct DDSCAPS2 {
    pub dwCaps: u32,
    pub dwCaps2: u32,
    pub dwCaps3: u32,
    pub dwCaps4: u32,
}

#[derive(Clone, Copy, Debug, PartialEq, Eq, Structural)]
pub struct DDCOLORKEY {
    pub dwColorSpaceLowValue: u32,
    pub dwColorSpaceHighValue: u32,
}

/// A surface description as the guest lays it out: 31 dwords.
#[derive(Clone, Copy, Debug, PartialEq, Eq)]
pub struct DDSURFACEDESC2 {
    pub dwSize: u32,
    pub dwFlags: u32,
    pub dwHeight: u32,
    pub dwWidth: u32,
    pub lPitch_dwLinearSize: u32,
    pub dwBackBufferCount_dwDepth: u32,
    pub dwMipMapCount_dwRefreshRate_dwSrcVBHandle: u32,
    pub dwAlphaBitDepth: u32,
    pub dwReserved: u32,
    pub lpSurface: u32,
    pub ddckCKDestOverlay_dwEmptyFaceColor: DDCOLORKEY,
    pub ddckCKDestBlt: DDCOLORKEY,
    pub ddckCKSrcOverlay: DDCOLORKEY,
    pub ddckCKSrcBlt: DDCOLORKEY,
    pub ddpfPixelFormat: [u32; 8],
    pub ddsCaps: DDSCAPS2,
    pub dwTextureStage: u32,
}

/// The size of a [`DDSURFACEDESC2`] in guest memory.
pub const DDSURFACEDESC2_SIZE: u32 = 124;

/// The size of a [`RECT`] in guest memory.
pub const RECT_SIZE: u32 = 16;

/// Dword `i` of the structure at `addr`.
pub open spec fn spec_dword(mem: Seq<u8>, addr: u32, i: int) -> u32 {
    u32::decoded(mem.subrange(addr + 4 * i, addr + 4 * i + 4))
}

/// Whether guest memory holds `len` bytes at `addr`.
pub open spec fn readable(mem: Seq<u8>, addr: u32, len: u32) -> bool {
    addr + len <= mem.len() && addr + len <= u32::MAX
}

impl DDSCAPS2 {
    pub fn caps1(&self) -> (caps: DDSCAPS)
        ensures
            caps.bits == self.dwCaps,
    {
        DDSCAPS::from_bits_unchecked(self.dwCaps)
    }
}

impl RECT {
    /// The rectangle stored at `addr`.
    pub open spec fn spec_read(mem: Seq<u8>, addr: u32) -> Result<RECT, Fault> {
        if readable(mem, addr, RECT_SIZE) {
            Ok(
                RECT {
                    left: spec_dword(mem, addr, 0),
                    top: spec_dword(mem, addr, 1),
                    right: spec_dword(mem, addr, 2),
                    bottom: spec_dword(mem, addr, 3),
                },
            )
        } else {
            Err(Fault::MemoryFault { addr, len: RECT_SIZE })
        }
    }

    pub fn read(x86: &X86, addr: u32) -> (r: StepResult<RECT>)
        ensures
            r == Self::spec_read(x86.mem@, addr),
    {
        let window = structure(x86, addr, RECT_SIZE)?;
        Ok(
            RECT {
                left: dword(x86, window, 0),
                top: dword(x86, window, 1),
                right: dword(x86, window, 2),
                bottom: dword(x86, window, 3),
            },
        )
    }
}

impl DDSURFACEDESC2 {
    /// The description stored at `addr`.
    pub open spec fn spec_read(mem: Seq<u8>, addr: u32) -> Result<DDSURFACEDESC2, Fault> {
        if readable(mem, addr, DDSURFACEDESC2_SIZE) {
            Ok(
                DDSURFACEDESC2 {
                    dwSize: spec_dword(mem, addr, 0),
                    dwFlags: spec_dword(mem, addr, 1),
                    dwHeight: spec_dword(mem, addr, 2),
                    dwWidth: spec_dword(mem, addr, 3),
                    lPitch_dwLinearSize: spec_dword(mem, addr, 4),
                    dwBackBufferCount_dwDepth: spec_dword(mem, addr, 5),
                    dwMipMapCount_dwRefreshRate_dwSrcVBHandle: spec_dword(mem, addr, 6),
                    dwAlphaBitDepth: spec_dword(mem, addr, 7),
                    dwReserved: spec_dword(mem, addr, 8),
                    lpSurface: spec_dword(mem, addr, 9),
                    ddckCKDestOverlay_dwEmptyFaceColor: DDCOLORKEY {
                        dwColorSpaceLowValue: spec_dword(mem, addr, 10),
                        dwColorSpaceHighValue: spec_dword(mem, addr, 11),
                    },
                    ddckCKDestBlt: DDCOLORKEY {
                        dwColorSpaceLowValue: spec_dword(mem, addr, 12),
                        dwColorSpaceHighValue: spec_dword(mem, addr, 13),
                    },
                    ddckCKSrcOverlay: DDCOLORKEY {
                        dwColorSpaceLowValue: spec_dword(mem, addr, 14),
                        dwColorSpaceHighValue: spec_dword(mem, addr, 15),
                    },
                    ddckCKSrcBlt: DDCOLORKEY {
                        dwColorSpaceLowValue: spec_dword(mem, addr, 16),
                        dwColorSpaceHighValue: spec_dword(mem, addr, 17),
                    },
                    ddpfPixelFormat: [
                        spec_dword(mem, addr, 18),
                        spec_dword(mem, addr, 19),
                        spec_dword(mem, addr, 20),
                        spec_dword(mem, addr, 21),
                        spec_dword(mem, addr, 22),
                        spec_dword(mem, addr, 23),
                        spec_dword(mem, addr, 24),
                        spec_dword(mem, addr, 25),
                    ],
                    ddsCaps: DDSCAPS2 {
                        dwCaps: spec_dword(mem, addr, 26),
                        dwCaps2: spec_dword(mem, addr, 27),
                        dwCaps3: spec_dword(mem, addr, 28),
                        dwCaps4: spec_dword(mem, addr, 29),
                    },
                    dwTextureStage: spec_dword(mem, addr, 30),
                },
            )
        } else {
            Err(Fault::MemoryFault { addr, len: DDSURFACEDESC2_SIZE })
        }
    }

    pub fn read(x86: &X86, addr: u32) -> (r: StepResult<DDSURFACEDESC2>)
        ensures
            r == Self::spec_read(x86.mem@, addr),
    {
        let window = structure(x86, addr, DDSURFACEDESC2_SIZE)?;
        Ok(
            DDSURFACEDESC2 {
                dwSize: dword(x86, window, 0),
                dwFlags: dword(x86, window, 1),
                dwHeight: dword(x86, window, 2),
                dwWidth: dword(x86, window, 3),
                lPitch_dwLinearSize: dword(x86, window, 4),
                dwBackBufferCount_dwDepth: dword(x86, window, 5),
                dwMipMapCount_dwRefreshRate_dwSrcVBHandle: dword(x86, window, 6),
                dwAlphaBitDepth: dword(x86, window, 7),
                dwReserved: dword(x86, window, 8),
                lpSurface: dword(x86, window, 9),
                ddckCKDestOverlay_dwEmptyFaceColor: DDCOLORKEY {
                    dwColorSpaceLowValue: dword(x86, window, 10),
                    dwColorSpaceHighValue: dword(x86, window, 11),
                },
                ddckCKDestBlt: DDCOLORKEY {
                    dwColorSpaceLowValue: dword(x86, window, 12),
                    dwColorSpaceHighValue: dword(x86, window, 13),
                },
                ddckCKSrcOverlay: DDCOLORKEY {
                    dwColorSpaceLowValue: dword(x86, window, 14),
                    dwColorSpaceHighValue: dword(x86, window, 15),
                },
                ddckCKSrcBlt: DDCOLORKEY {
                    dwColorSpaceLowValue: dword(x86, window, 16),
                    dwColorSpaceHighValue: dword(x86, window, 17),
                },
                ddpfPixelFormat: [
                    dword(x86, window, 18),
                    dword(x86, window, 19),
                    dword(x86, window, 20),
                    dword(x86, window, 21),
                    dword(x86, window, 22),
                    dword(x86, window, 23),
                    dword(x86, window, 24),
                    dword(x86, window, 25),
                ],
                ddsCaps: DDSCAPS2 {
                    dwCaps: dword(x86, window, 26),
                    dwCaps2: dword(x86, window, 27),
                    dwCaps3: dword(x86, window, 28),
                    dwCaps4: dword(x86, window, 29),
                },
                dwTextureStage: dword(x86, window, 30),
            },
        )
    }

    pub fn flags(&self) -> (flags: DDSD)
        ensures
            flags.bits == self.dwFlags,
    {
        DDSD::from_bits_unchecked(self.dwFlags)
    }

    /// The number of back buffers, when the description says it gives one.
    pub fn back_buffer_count(&self) -> (r: Option<u32>)
        ensures
            r == if (DDSD { bits: self.dwFlags }).spec_contains(DDSD::BACKBUFFERCOUNT) {
                Some(self.dwBackBufferCount_dwDepth)
            } else {
                None
            },
    {
        if !self.flags().contains(DDSD::BACKBUFFERCOUNT) {
            return None;
        }
        Some(self.dwBackBufferCount_dwDepth)
    }

    /// The capabilities, when the description says it gives them.
    pub fn caps(&self) -> (r: Option<&DDSCAPS2>)
        ensures
            r == if (DDSD { bits: self.dwFlags }).spec_contains(DDSD::CAPS) {
                Some(&self.ddsCaps)
            } else {
                None
            },
    {
        if !self.flags().contains(DDSD::CAPS) {
            return None;
        }
        Some(&self.ddsCaps)
    }
}

/// The window over the `len` bytes of a structure at `addr`.
fn structure(x86: &X86, addr: u32, len: u32) -> (r: StepResult<Mem>)
    ensures
        match r {
            Ok(window) => {
                &&& readable(x86.mem@, addr, len)
                &&& window.spec_start() == addr
                &&& window.spec_len() == len
            },
            Err(f) => !readable(x86.mem@, addr, len) && f == (Fault::MemoryFault { addr, len }),
        },
{
    proof {
        lemma_whole(x86.mem@.len());
    }
    Mem::from_slice(x86.mem.as_slice()).sub(addr, len)
}

/// Dword `i` of the structure that `window` covers.
fn dword(x86: &X86, window: Mem, i: u32) -> (v: u32)
    requires
        window.fits(x86.mem@.len()),
        4 * i + 4 <= window.spec_len(),
    ensures
        v == spec_dword(x86.mem@, window.spec_start(), i as int),
{
    match window.get::<u32>(x86.mem.as_slice(), 4 * i) {
        Ok(v) => v,
        Err(_) => 0,
    }
}

/// Whether a host function did what `expected` says: on success it returns
/// the expected value and leaves the machine in the expected state; on a
/// fault it returns that fault and has changed nothing.
pub open spec fn call_is(
    before: Machine,
    after: Machine,
    r: StepResult<u32>,
    expected: Result<(Machine, u32), Fault>,
) -> bool {
    match expected {
        Ok((machine, value)) => r == Ok::<u32, Fault>(value) && after == machine,
        Err(f) => r == Err::<u32, Fault>(f) && after == before,
    }
}

/// What making a host object does: four bytes from the DirectDraw heap that
/// hold the address of the object's method table.
pub open spec fn spec_new_object(m: Machine, table: u32) -> Result<(Machine, u32), Fault> {
    match kernel32::State::spec_allocate(m.heaps, m.cpu.mem.len(), m.ddraw.hheap, 4) {
        Ok(object) => Ok(
            (
                Machine {
                    cpu: Cpu { mem: spec_write::<u32>(m.cpu.mem, object, table), ..m.cpu },
                    heaps: kernel32::State::spec_after_allocate(
                        m.heaps,
                        m.cpu.mem.len(),
                        m.ddraw.hheap,
                        4,
                    ),
                    ..m
                },
                object,
            ),
        ),
        Err(f) => Err(f),
    }
}

/// Makes a host object with the given method table and returns its guest
/// address.
pub fn new_object(x86: &mut X86, table: u32) -> (r: StepResult<u32>)
    ensures
        call_is(old(x86)@, final(x86)@, r, spec_new_object(old(x86)@, table)),
        r matches Ok(object) ==> spec_read::<u32>(final(x86).mem@, object) == Ok::<u32, Fault>(
            table,
        ),
{
    let heap = x86.state.ddraw.hheap;
    let object = x86.state.kernel32.allocate(x86.mem.as_slice(), heap, 4)?;
    let ghost mem = x86.mem@;
    let _ = x86.write_u32(object, table);
    proof {
        lemma_whole(mem.len());
        let window = Mem::whole(mem.len());
        crate::mem::lemma_put_then_get::<u32>(mem, window, object, window, object, table);
    }
    Ok(object)
}

/// The size of the heap that the objects and method tables of DirectDraw
/// are made in.
pub const HEAP_SIZE: u32 = 0x1000;

/// How many methods the three interfaces have together: each needs a
/// trampoline.
pub const METHOD_COUNT: u32 = 102;

/// Whether the state of DirectDraw can be set up: there must be address
/// space for its heap and trampolines for the methods.
pub open spec fn can_init(m: Machine) -> bool {
    &&& kernel32::State::can_reserve(m.cpu.mem.len(), HEAP_SIZE)
    &&& m.shims.len() + METHOD_COUNT <= TRAMPOLINE_COUNT
}

/// The fault of a set-up that cannot be done.
pub open spec fn init_fault(m: Machine) -> Fault {
    if !kernel32::State::can_reserve(m.cpu.mem.len(), HEAP_SIZE) {
        Fault::HeapExhausted { heap: 0 }
    } else {
        Fault::HeapExhausted { heap: TRAMPOLINE_BASE }
    }
}

/// The machine after the set-up, with the heap made: its handle is `heap`.
pub open spec fn with_heap(m: Machine) -> Machine {
    let heap = spec_break(m.cpu.mem.len()) as u32;
    Machine {
        cpu: Cpu { mem: grown(m.cpu.mem, heap + HEAP_SIZE), ..m.cpu },
        heaps: m.heaps.insert(heap, Heap { addr: heap, size: HEAP_SIZE, next: 0 }),
        ..m
    }
}

/// The state of DirectDraw after the set-up: the heap and, in it, the
/// method tables of the three interfaces one after the other.
pub open spec fn init_model(m: Machine) -> Model {
    let heap = spec_break(m.cpu.mem.len()) as u32;
    Model {
        hheap: heap,
        vtable_IDirectDraw: heap,
        vtable_IDirectDraw7: (heap + 92) as u32,
        vtable_IDirectDrawSurface7: (heap + 212) as u32,
        ..Model::empty()
    }
}

/// The machine after the set-up, the state of DirectDraw itself left aside.
pub open spec fn init_machine(m: Machine) -> Machine {
    let heap = spec_break(m.cpu.mem.len()) as u32;
    let tables = init_model(m);
    with_vtable(
        with_vtable(
            with_vtable(
                with_heap(m),
                heap,
                "IDirectDraw",
                IDirectDraw::spec_methods(),
                tables.vtable_IDirectDraw,
            ),
            heap,
            "IDirectDraw7",
            IDirectDraw7::spec_methods(),
            tables.vtable_IDirectDraw7,
        ),
        heap,
        "IDirectDrawSurface7",
        IDirectDrawSurface7::spec_methods(),
        tables.vtable_IDirectDrawSurface7,
    )
}

/// The identifier of the interface `IDirectDraw7`.
pub open spec fn spec_iid_IDirectDraw7() -> Seq<u8> {
    seq![
        0xc0u8,
        0x5e,
        0xe6,
        0x15,
        0x9c,
        0x3b,
        0xd2,
        0x11,
        0xb9,
        0x2f,
        0x00,
        0x60,
        0x97,
        0x97,
        0xea,
        0x5b,
    ]
}

pub fn iid_IDirectDraw7() -> (iid: [u8; 16])
    ensures
        iid@ == spec_iid_IDirectDraw7(),
{
    let iid = [
        0xc0u8,
        0x5e,
        0xe6,
        0x15,
        0x9c,
        0x3b,
        0xd2,
        0x11,
        0xb9,
        0x2f,
        0x00,
        0x60,
        0x97,
        0x97,
        0xea,
        0x5b,
    ];
    assert(iid@ =~= spec_iid_IDirectDraw7());
    iid
}

/// The fault of an argument that a host function does not accept.
pub open spec fn bad_arg(func: &'static str, arg: &'static str) -> Fault {
    Fault::Shim(ShimError::BadArg { func, arg })
}

/// The machine with DirectDraw set up, if it was not.
pub open spec fn initialized(m: Machine) -> Machine {
    if m.ddraw.hheap == 0 {
        Machine { ddraw: init_model(m), ..init_machine(m) }
    } else {
        m
    }
}

/// After the set-up the heap of DirectDraw exists, lies in guest memory and
/// has the three method tables in it and nothing else; memory has grown by
/// the heap and is otherwise as it was, outside the tables.
#[verifier::rlimit(50)]
pub proof fn lemma_init(m: Machine)
    requires
        can_init(m),
    ensures
        ({
            let heap = spec_break(m.cpu.mem.len()) as u32;
            let after = init_machine(m);
            &&& heap != 0
            &&& after.heaps.contains_key(heap)
            &&& after.heaps[heap] == Heap { addr: heap, size: HEAP_SIZE, next: 408 }
            &&& after.cpu.mem.len() == heap + HEAP_SIZE
            &&& after.cpu.regs == m.cpu.regs
            &&& after.cpu.flags == m.cpu.flags
            &&& after.shims.len() == m.shims.len() + METHOD_COUNT
            &&& forall|a: int| 0 <= a < m.cpu.mem.len() ==> after.cpu.mem[a] == m.cpu.mem[a]
        }),
{
    reveal(IDirectDraw::spec_methods);
    reveal(IDirectDraw7::spec_methods);
    reveal(IDirectDrawSurface7::spec_methods);
    let heap = spec_break(m.cpu.mem.len()) as u32;
    let first = m.shims.len() as int;
    let tables = init_model(m);
    let made = with_heap(m);
    lemma_table_len(made.cpu.mem, heap, first, 23);
    assert(made.heaps[heap] == Heap { addr: heap, size: HEAP_SIZE, next: 0 });
    let one = with_vtable(
        made,
        heap,
        "IDirectDraw",
        IDirectDraw::spec_methods(),
        tables.vtable_IDirectDraw,
    );
    assert(one.heaps[heap] == Heap { addr: heap, size: HEAP_SIZE, next: 92 });
    lemma_table_len(one.cpu.mem, (heap + 92) as u32, first + 23, 30);
    let two = with_vtable(
        one,
        heap,
        "IDirectDraw7",
        IDirectDraw7::spec_methods(),
        tables.vtable_IDirectDraw7,
    );
    assert(two.heaps[heap] == Heap { addr: heap, size: HEAP_SIZE, next: 212 });
    lemma_table_len(two.cpu.mem, (heap + 212) as u32, first + 53, 49);
    let after = init_machine(m);
    assert forall|a: int| 0 <= a < m.cpu.mem.len() implies after.cpu.mem[a] == m.cpu.mem[a] by {
        lemma_table_frame(made.cpu.mem, heap, first, 23, a);
        lemma_table_frame(one.cpu.mem, (heap + 92) as u32, first + 23, 30, a);
        lemma_table_frame(two.cpu.mem, (heap + 212) as u32, first + 53, 49, a);
    }
}

/// What `DirectDrawCreateEx` does. The arguments `lpGuid` and `pUnkOuter`
/// must be zero. With `iid` zero the guest gets an object of the interface
/// `IDirectDraw`; with `iid` the address of the identifier of `IDirectDraw7`,
/// an object of that; its address is stored at `lplpDD`. Any other
/// identifier gives the generic failure code. DirectDraw is set up first if
/// it was not.
pub open spec fn spec_direct_draw_create_ex(
    m: Machine,
    lpGuid: u32,
    lplpDD: u32,
    iid: u32,
    pUnkOuter: u32,
) -> Result<(Machine, u32), Fault> {
    let known = iid == 0 || m.cpu.mem.subrange(iid as int, iid + 16) == spec_iid_IDirectDraw7();
    if lpGuid != 0 {
        Err(bad_arg("DirectDrawCreateEx", "lpGuid"))
    } else if pUnkOuter != 0 {
        Err(bad_arg("DirectDrawCreateEx", "pUnkOuter"))
    } else if iid != 0 && !readable(m.cpu.mem, iid, 16) {
        Err(Fault::MemoryFault { addr: iid, len: 16 })
    } else if known && spec_read::<u32>(m.cpu.mem, lplpDD) is Err {
        Err(Fault::MemoryFault { addr: lplpDD, len: 4 })
    } else if m.ddraw.hheap == 0 && !can_init(m) {
        Err(init_fault(m))
    } else if !known {
        Ok((initialized(m), DDERR_GENERIC))
    } else {
        let ready = initialized(m);
        let table = if iid == 0 {
            ready.ddraw.vtable_IDirectDraw
        } else {
            ready.ddraw.vtable_IDirectDraw7
        };
        match spec_new_object(ready, table) {
            Err(f) => Err(f),
            Ok((made, object)) => Ok(
                (
                    Machine {
                        cpu: Cpu {
                            mem: spec_write::<u32>(made.cpu.mem, lplpDD, object),
                            ..made.cpu
                        },
                        ..made
                    },
                    DD_OK,
                ),
            ),
        }
    }
}

fn same_bytes(a: &[u8], b: &[u8; 16]) -> (same: bool)
    ensures
        same == (a@ == b@),
{
    if a.len() != 16 {
        return false;
    }
    let mut i: usize = 0;
    while i < 16
        invariant
            i <= 16,
            a@.len() == 16,
            forall|j: int| 0 <= j < i ==> a@[j] == b@[j],
        decreases 16 - i,
    {
        if a[i] != b[i] {
            return false;
        }
        i = i + 1;
    }
    assert(a@ =~= b@);
    true
}

/// `DirectDrawCreate`: `DirectDrawCreateEx` for the interface `IDirectDraw`.
pub fn DirectDrawCreate(x86: &mut X86, lpGuid: u32, lplpDD: u32, pUnkOuter: u32) -> (r:
    StepResult<u32>)
    ensures
        call_is(
            old(x86)@,
            final(x86)@,
            r,
            spec_direct_draw_create_ex(old(x86)@, lpGuid, lplpDD, 0, pUnkOuter),
        ),
{
    DirectDrawCreateEx(x86, lpGuid, lplpDD, 0, pUnkOuter)
}

/// `DirectDrawCreateEx`: hands the guest a DirectDraw object.
#[verifier::rlimit(50)]
pub fn DirectDrawCreateEx(x86: &mut X86, lpGuid: u32, lplpDD: u32, iid: u32, pUnkOuter: u32) -> (r:
    StepResult<u32>)
    ensures
        call_is(
            old(x86)@,
            final(x86)@,
            r,
            spec_direct_draw_create_ex(old(x86)@, lpGuid, lplpDD, iid, pUnkOuter),
        ),
{
    if lpGuid != 0 {
        return Err(Fault::Shim(ShimError::BadArg { func: "DirectDrawCreateEx", arg: "lpGuid" }));
    }
    if pUnkOuter != 0 {
        return Err(
            Fault::Shim(ShimError::BadArg { func: "DirectDrawCreateEx", arg: "pUnkOuter" }),
        );
    }
    let known = if iid == 0 {
        true
    } else {
        let window = structure(x86, iid, 16)?;
        match window.as_slice_todo(x86.mem.as_slice()) {
            Ok(bytes) => same_bytes(bytes, &iid_IDirectDraw7()),
            Err(_) => false,
        }
    };
    if known {
        let _ = x86.read_u32(lplpDD)?;
    }
    let ghost before = x86@;
    proof {
        lemma_whole(before.cpu.mem.len());
    }
    if x86.state.ddraw.hheap == 0 {
        let ddraw = State::new_init(x86)?;
        x86.state.ddraw = ddraw;
        proof {
            lemma_init(before);
            lemma_whole(x86.mem@.len());
        }
    }
    assert(x86@ == initialized(before));
    if !known {
        return Ok(DDERR_GENERIC);
    }
    let table = if iid == 0 {
        x86.state.ddraw.vtable_IDirectDraw
    } else {
        x86.state.ddraw.vtable_IDirectDraw7
    };
    let object = new_object(x86, table)?;
    let _ = x86.write_u32(lplpDD, object);
    Ok(DD_OK)
}

impl Model {
    pub open spec fn empty() -> Model {
        Model {
            hheap: 0,
            vtable_IDirectDraw: 0,
            vtable_IDirectDraw7: 0,
            vtable_IDirectDrawSurface7: 0,
            hwnd: 0,
            width: 0,
            height: 0,
            surfaces: Map::empty(),
        }
    }
}

impl State {
    /// The state before the guest has asked for anything.
    pub fn new_empty() -> (state: State)
        ensures
            state@ == Model::empty(),
    {
        State {
            hheap: 0,
            vtable_IDirectDraw: 0,
            vtable_IDirectDraw7: 0,
            vtable_IDirectDrawSurface7: 0,
            hwnd: 0,
            width: 0,
            height: 0,
            surfaces: HashMap::new(),
        }
    }

    /// Sets DirectDraw up for the guest process: makes its heap and the
    /// method tables of its interfaces, and returns the state that names
    /// them. When the set-up cannot be done nothing changes.
    #[verifier::rlimit(50)]
    pub fn new_init(x86: &mut X86) -> (r: StepResult<State>)
        ensures
            match r {
                Ok(state) => {
                    &&& can_init(old(x86)@)
                    &&& final(x86)@ == init_machine(old(x86)@)
                    &&& state@ == init_model(old(x86)@)
                },
                Err(f) => !can_init(old(x86)@) && f == init_fault(old(x86)@) && final(x86)@ == old(
                    x86,
                )@,
            },
    {
        if x86.mem.len() as u64 > u32::MAX as u64 {
            return Err(Fault::HeapExhausted { heap: 0 });
        }
        let len = x86.mem.len() as u64;
        let start: u64 = if len < 0x1000 {
            0x1000
        } else {
            (len + 3) / 4 * 4
        };
        if start + HEAP_SIZE as u64 > u32::MAX as u64 {
            return Err(Fault::HeapExhausted { heap: 0 });
        }
        if x86.shims.room() < METHOD_COUNT || x86.shims.list.len() > TRAMPOLINE_COUNT as usize {
            return Err(Fault::HeapExhausted { heap: TRAMPOLINE_BASE });
        }
        let ghost before = x86@;
        let mut ddraw = State::new_empty();
        ddraw.hheap = x86.state.kernel32.new_heap(&mut x86.mem, HEAP_SIZE)?;
        let heap = ddraw.hheap;
        let ghost made = x86@;
        assert(made == with_heap(before));
        assert(made.heaps[heap] == Heap { addr: heap, size: HEAP_SIZE, next: 0 });
        let first = IDirectDraw::methods();
        ddraw.vtable_IDirectDraw = vtable(x86, heap, "IDirectDraw", &first)?;
        let ghost one = x86@;
        proof {
            lemma_table_len(made.cpu.mem, heap, made.shims.len() as int, 23);
        }
        assert(one.heaps[heap] == Heap { addr: heap, size: HEAP_SIZE, next: 92 });
        assert(one.shims.len() == before.shims.len() + 23);
        let second = IDirectDraw7::methods();
        ddraw.vtable_IDirectDraw7 = vtable(x86, heap, "IDirectDraw7", &second)?;
        let ghost two = x86@;
        proof {
            lemma_table_len(one.cpu.mem, (heap + 92) as u32, one.shims.len() as int, 30);
        }
        assert(two.heaps[heap] == Heap { addr: heap, size: HEAP_SIZE, next: 212 });
        assert(two.shims.len() == before.shims.len() + 53);
        let third = IDirectDrawSurface7::methods();
        ddraw.vtable_IDirectDrawSurface7 = vtable(x86, heap, "IDirectDrawSurface7", &third)?;
        Ok(ddraw)
    }

    /// The heap that the objects of DirectDraw are made in.
    pub fn heap(&self, kernel32: &kernel32::State) -> (r: Option<Heap>)
        ensures
            match r {
                Some(heap) => kernel32@.contains_key(self.hheap) && kernel32@[self.hheap] == heap,
                None => !kernel32@.contains_key(self.hheap),
            },
    {
        kernel32.heap(self.hheap)
    }
}

} // verus!
