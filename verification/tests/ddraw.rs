#![allow(non_snake_case)]
use win32emu::dispatch::{call, dispatch, resume};
use win32emu::fault::{Fault, ShimError};
use win32emu::host::{HostCall, SurfaceOptions};
use win32emu::shims::{Func, Handler, Shim, Shims, TRAMPOLINE_BASE};
use win32emu::step::step;
use win32emu::winapi::ddraw::IDirectDraw;
use win32emu::winapi::ddraw::IDirectDraw7;
use win32emu::winapi::ddraw::IDirectDrawSurface7;
use win32emu::winapi::ddraw::{
    iid_IDirectDraw7, new_object, DirectDrawCreate, DirectDrawCreateEx, State, Surface, DDERR_GENERIC,
    DDSCAPS, DDSD, DDSURFACEDESC2, DD_OK, RECT,
};
use win32emu::winapi::gdi32::DC;
use win32emu::winapi::kernel32::Heap;
use win32emu::winapi::shlwapi;
use win32emu::winapi::stack_args::{args, text};
use win32emu::winapi::vtable::{vtable, Method};
use win32emu::x86::X86;

const RETURN: u32 = 0x0000_0400;
const STACK: u32 = 0x1800;
const SCRATCH: u32 = 0x1000;
const HEAP: u32 = 0x2000;

fn machine() -> X86 {
    let mut x86 = X86::new(vec![0u8; 0x2000]);
    x86.regs.esp = STACK;
    x86
}

/// A machine whose guest has asked for an `IDirectDraw7` object; returns
/// the object's address too.
fn with_ddraw7() -> (X86, u32) {
    let mut x86 = machine();
    let iid = SCRATCH + 0x100;
    x86.mem[iid as usize..iid as usize + 16].copy_from_slice(&iid_IDirectDraw7());
    assert_eq!(DirectDrawCreateEx(&mut x86, 0, SCRATCH, iid, 0), Ok(DD_OK));
    let object = x86.read_u32(SCRATCH).unwrap();
    (x86, object)
}

/// Pushes a call as the guest makes it: the arguments from the last to the
/// first, then the return address; and jumps to `target`.
fn guest_call(x86: &mut X86, target: u32, arguments: &[u32]) {
    for a in arguments.iter().rev() {
        x86.regs.esp -= 4;
        x86.write_u32(x86.regs.esp, *a).unwrap();
    }
    x86.regs.esp -= 4;
    x86.write_u32(x86.regs.esp, RETURN).unwrap();
    x86.regs.eip = target;
}

/// The address that the guest calls for method `index` of `object`.
fn method(x86: &X86, object: u32, index: u32) -> u32 {
    let table = x86.read_u32(object).unwrap();
    x86.read_u32(table + 4 * index).unwrap()
}

fn write_desc(x86: &mut X86, at: u32, flags: u32, width: u32, height: u32, caps: u32) {
    x86.write_u32(at, 124).unwrap();
    x86.write_u32(at + 4, flags).unwrap();
    x86.write_u32(at + 8, height).unwrap();
    x86.write_u32(at + 12, width).unwrap();
    x86.write_u32(at + 104, caps).unwrap();
}

#[test]
fn the_first_object_sets_direct_draw_up() {
    let (x86, object) = with_ddraw7();
    let ddraw = &x86.state.ddraw;
    assert_eq!(ddraw.hheap, HEAP);
    assert_eq!(ddraw.vtable_IDirectDraw, HEAP);
    assert_eq!(ddraw.vtable_IDirectDraw7, HEAP + 92);
    assert_eq!(ddraw.vtable_IDirectDrawSurface7, HEAP + 212);
    assert_eq!(object, HEAP + 408);
    assert_eq!(x86.mem.len(), 0x3000);
    assert_eq!(x86.read_u32(object), Ok(ddraw.vtable_IDirectDraw7));
    assert_eq!(x86.shims.list.len(), 102);
    assert_eq!(
        x86.state.kernel32.heap(HEAP),
        Some(Heap { addr: HEAP, size: 0x1000, next: 412 })
    );
    assert_eq!(ddraw.heap(&x86.state.kernel32), x86.state.kernel32.heap(HEAP));
}

#[test]
fn method_i_is_at_offset_4i() {
    let (x86, object) = with_ddraw7();
    let table = x86.read_u32(object).unwrap();
    let methods = IDirectDraw7::methods();
    assert_eq!(methods.len(), 30);
    for (i, m) in methods.iter().enumerate() {
        let entry = x86.read_u32(table + 4 * i as u32).unwrap();
        assert_eq!(entry, TRAMPOLINE_BASE + 23 + i as u32);
        let shim = x86.shims.lookup(entry).unwrap();
        assert_eq!(shim.name, m.name);
        let func = m.func.unwrap_or(Func::Unimplemented { dll: "IDirectDraw7", func: m.name });
        assert_eq!(shim.func, Handler::Sync(func));
    }
    assert_eq!(methods[21].name, "SetDisplayMode");
    assert_eq!(methods[21].func, Some(Func::IDirectDraw7_SetDisplayMode));
    assert_eq!(methods[6].name, "CreateSurface");
    assert_eq!(IDirectDraw::methods().len(), 23);
    assert_eq!(IDirectDraw::methods()[21].func, Some(Func::IDirectDraw7_SetDisplayMode));
    assert_eq!(IDirectDraw::methods()[6].func, Some(Func::IDirectDraw_CreateSurface));
    assert_eq!(IDirectDrawSurface7::methods().len(), 49);
    assert_eq!(IDirectDrawSurface7::methods()[7].name, "BltFast");
    assert_eq!(IDirectDrawSurface7::methods()[22].name, "GetSurfaceDesc");
}

#[test]
fn a_table_of_ones_own() {
    let mut x86 = machine();
    let heap = x86.state.kernel32.new_heap(&mut x86.mem, 0x40).unwrap();
    assert_eq!(heap, HEAP);
    x86.state.ddraw.hheap = heap;
    let methods = vec![
        Method { name: "First", func: Some(Func::IDirectDraw7_Release) },
        Method { name: "Second", func: None },
        Method { name: "Third", func: Some(Func::IDirectDrawSurface7_Flip) },
    ];
    let table = vtable(&mut x86, heap, "IThing", &methods).unwrap();
    assert_eq!(table, HEAP);
    let object = new_object(&mut x86, table).unwrap();
    assert_eq!(object, HEAP + 12);
    assert_eq!(x86.read_u32(object), Ok(table));
    for i in 0..3 {
        assert_eq!(method(&x86, object, i), TRAMPOLINE_BASE + i);
    }
    assert_eq!(
        x86.shims.lookup(TRAMPOLINE_BASE + 1),
        Some(Shim {
            name: "Second",
            func: Handler::Sync(Func::Unimplemented { dll: "IThing", func: "Second" }),
        })
    );
    assert_eq!(x86.shims.lookup(TRAMPOLINE_BASE + 3), None);
    assert_eq!(x86.shims.lookup(TRAMPOLINE_BASE - 1), None);
    // twelve more entries do not fit the 48 bytes that are left
    let many = vec![Method { name: "M", func: None }; 13];
    let before = x86.mem.clone();
    assert_eq!(
        vtable(&mut x86, heap, "IThing", &many),
        Err(Fault::HeapExhausted { heap: HEAP })
    );
    assert_eq!(x86.mem, before);
    assert_eq!(x86.shims.list.len(), 3);
    let twelve = vec![Method { name: "M", func: None }; 12];
    assert_eq!(vtable(&mut x86, heap, "IThing", &twelve), Ok(HEAP + 16));
    assert_eq!(new_object(&mut x86, table), Err(Fault::HeapExhausted { heap: HEAP }));
    assert_eq!(
        vtable(&mut x86, 0x999, "IThing", &methods),
        Err(Fault::HeapExhausted { heap: 0x999 })
    );
}

#[test]
fn trampolines_run_out() {
    let mut x86 = machine();
    let heap = x86.state.kernel32.new_heap(&mut x86.mem, 0x40).unwrap();
    let shim = Shim { name: "x", func: Handler::Sync(Func::IDirectDraw7_Release) };
    let mut shims = Shims::new();
    assert_eq!(shims.room(), 0x1_0000);
    for i in 0..0xFFFFu32 {
        assert_eq!(shims.add(shim), Some(TRAMPOLINE_BASE + i));
    }
    assert_eq!(shims.room(), 1);
    x86.shims = shims;
    let two = vec![Method { name: "M", func: None }; 2];
    assert_eq!(
        vtable(&mut x86, heap, "IThing", &two),
        Err(Fault::HeapExhausted { heap: TRAMPOLINE_BASE })
    );
    let one = vec![Method { name: "M", func: None }; 1];
    assert_eq!(vtable(&mut x86, heap, "IThing", &one), Ok(HEAP));
    assert_eq!(x86.read_u32(HEAP), Ok(0xFFFF_FFFF));
    assert_eq!(x86.shims.add(shim), None);
    assert_eq!(x86.shims.room(), 0);
    let mut fresh = machine();
    fresh.shims = Shims { list: x86.shims.list.clone() };
    assert_eq!(State::new_init(&mut fresh).err(), Some(Fault::HeapExhausted { heap: TRAMPOLINE_BASE }));
    assert_eq!(fresh.mem.len(), 0x2000);
}

#[test]
fn set_display_mode_through_the_table() {
    let (mut x86, object) = with_ddraw7();
    let target = method(&x86, object, 21);
    guest_call(&mut x86, target, &[object, 640, 480, 32, 60, 0]);
    let esp = x86.regs.esp;
    x86.regs.eax = 0xFFFF_FFFF;
    assert_eq!(step(&mut x86), Ok(None));
    assert_eq!(x86.regs.eax, DD_OK);
    assert_eq!(x86.regs.eip, RETURN);
    assert_eq!(x86.regs.esp, esp + 4 + 24);
    assert_eq!(x86.regs.esp, STACK);
    assert_eq!((x86.state.ddraw.width, x86.state.ddraw.height), (640, 480));
}

#[test]
fn the_callee_cleans_the_stack() {
    let (mut x86, object) = with_ddraw7();
    for (index, arguments) in [(2u32, 1usize), (20, 3), (21, 6)] {
        let target = method(&x86, object, index);
        let list = vec![object; arguments];
        guest_call(&mut x86, target, &list);
        let esp = x86.regs.esp;
        assert_eq!(dispatch(&mut x86), Ok(None));
        assert_eq!(x86.regs.esp, esp + 4 + 4 * arguments as u32);
        assert_eq!(x86.regs.eip, RETURN);
    }
    // the stack pointer wraps at 32 bits
    let target = method(&x86, object, 2);
    x86.write_u32(0x1FFC, 0x1234).unwrap();
    x86.regs.esp = 0x1FFC;
    x86.regs.eip = target;
    x86.mem.truncate(0x2000);
    assert_eq!(
        dispatch(&mut x86),
        Err(Fault::MemoryFault { addr: 0x2000, len: 4 })
    );
    assert_eq!(x86.regs.esp, 0x1FFC);
    assert_eq!(x86.regs.eip, target);
}

#[test]
fn create_surface_through_the_table() {
    let (mut x86, object) = with_ddraw7();
    let desc = SCRATCH + 0x200;
    let out = SCRATCH + 0x300;
    write_desc(&mut x86, desc, DDSD::WIDTH | DDSD::HEIGHT, 100, 80, 0);
    let target = method(&x86, object, 6);
    guest_call(&mut x86, target, &[object, desc, out, 0]);
    assert_eq!(step(&mut x86), Ok(None));
    assert_eq!(x86.regs.eax, DD_OK);
    assert_eq!(x86.regs.esp, STACK);
    let surface = x86.read_u32(out).unwrap();
    assert_eq!(surface, HEAP + 412);
    assert_eq!(x86.read_u32(surface), Ok(x86.state.ddraw.vtable_IDirectDrawSurface7));
    assert_eq!(
        x86.state.ddraw.surfaces.get(&surface),
        Some(&Surface { width: 100, height: 80 })
    );
    assert_eq!(
        x86.host.take(),
        vec![HostCall::CreateSurface {
            surface,
            opts: SurfaceOptions { width: 100, height: 80, primary: false },
        }]
    );
    assert_eq!(x86.host.take(), vec![]);
}

#[test]
fn the_primary_surface_has_the_size_of_the_display() {
    let (mut x86, object) = with_ddraw7();
    assert_eq!(IDirectDraw7::SetDisplayMode(&mut x86, object, 800, 600, 16, 0, 0), Ok(DD_OK));
    assert_eq!(IDirectDraw7::SetCooperativeLevel(&mut x86, object, 0x77, 0x11), Ok(DD_OK));
    assert_eq!(x86.state.ddraw.hwnd, 0x77);
    let desc = SCRATCH + 0x200;
    let out = SCRATCH + 0x300;
    write_desc(
        &mut x86,
        desc,
        DDSD::CAPS | DDSD::WIDTH | DDSD::BACKBUFFERCOUNT,
        100,
        80,
        DDSCAPS::PRIMARYSURFACE | DDSCAPS::FLIP,
    );
    x86.write_u32(desc + 20, 2).unwrap();
    let read = DDSURFACEDESC2::read(&x86, desc).unwrap();
    assert_eq!(read.dwSize, 124);
    assert_eq!(read.dwWidth, 100);
    assert_eq!(read.back_buffer_count(), Some(2));
    assert_eq!(read.caps().map(|c| c.dwCaps), Some(0x210));
    assert!(read.caps().unwrap().caps1().contains(DDSCAPS::FLIP));
    assert!(read.flags().contains(DDSD::WIDTH));
    assert!(!read.flags().contains(DDSD::HEIGHT));
    assert_eq!(
        IDirectDraw7::surface_options(&read, &x86.state.ddraw),
        SurfaceOptions { width: 800, height: 600, primary: true }
    );
    assert_eq!(IDirectDraw7::CreateSurface(&mut x86, object, desc, out, 0), Ok(DD_OK));
    let surface = x86.read_u32(out).unwrap();
    assert_eq!(
        x86.state.ddraw.surfaces.get(&surface),
        Some(&Surface { width: 800, height: 600 })
    );
    // without the capabilities flag the capabilities do not count
    write_desc(&mut x86, desc, DDSD::HEIGHT, 100, 80, DDSCAPS::PRIMARYSURFACE);
    let read = DDSURFACEDESC2::read(&x86, desc).unwrap();
    assert_eq!(read.caps(), None);
    assert_eq!(read.back_buffer_count(), None);
    assert_eq!(
        IDirectDraw7::surface_options(&read, &x86.state.ddraw),
        SurfaceOptions { width: 0, height: 80, primary: false }
    );
}

#[test]
fn create_surface_checks_its_arguments() {
    let (mut x86, object) = with_ddraw7();
    let desc = SCRATCH + 0x200;
    let out = SCRATCH + 0x300;
    write_desc(&mut x86, desc, 0, 0, 0, 0);
    x86.write_u32(desc, 108).unwrap();
    let before = (x86.mem.clone(), x86.state.kernel32.heap(HEAP));
    assert_eq!(
        IDirectDraw7::CreateSurface(&mut x86, object, desc, out, 0),
        Err(Fault::Shim(ShimError::BadArg { func: "CreateSurface", arg: "lpSurfaceDesc" }))
    );
    assert_eq!(
        IDirectDraw7::CreateSurface(&mut x86, object, 0x2FFF, out, 0),
        Err(Fault::MemoryFault { addr: 0x2FFF, len: 124 })
    );
    x86.write_u32(desc, 124).unwrap();
    let before = (x86.mem.clone(), before.1);
    assert_eq!(
        IDirectDraw7::CreateSurface(&mut x86, object, desc, 0x2FFD, 0),
        Err(Fault::MemoryFault { addr: 0x2FFD, len: 4 })
    );
    assert_eq!((x86.mem.clone(), x86.state.kernel32.heap(HEAP)), before);
    assert!(x86.state.ddraw.surfaces.is_empty());
    assert!(x86.host.calls.is_empty());
}

#[test]
fn the_heap_runs_out() {
    let (mut x86, object) = with_ddraw7();
    let desc = SCRATCH + 0x200;
    let out = SCRATCH + 0x300;
    write_desc(&mut x86, desc, 0, 0, 0, 0);
    // 412 bytes are in use; 921 more objects fit
    for _ in 0..921 {
        assert_eq!(IDirectDraw7::CreateSurface(&mut x86, object, desc, out, 0), Ok(DD_OK));
    }
    assert_eq!(x86.read_u32(out), Ok(HEAP + 0xFFC));
    assert_eq!(
        IDirectDraw7::CreateSurface(&mut x86, object, desc, out, 0),
        Err(Fault::HeapExhausted { heap: HEAP })
    );
    assert_eq!(x86.state.ddraw.surfaces.len(), 921);
    assert_eq!(
        IDirectDrawSurface7::new(&mut x86),
        Err(Fault::HeapExhausted { heap: HEAP })
    );
}

#[test]
fn heaps() {
    let mut x86 = X86::new(vec![1u8; 0x1001]);
    let heap = x86.state.kernel32.new_heap(&mut x86.mem, 10).unwrap();
    assert_eq!(heap, 0x1004);
    assert_eq!(x86.mem.len(), 0x100E);
    assert_eq!(&x86.mem[0x1000..0x1002], &[1, 0]);
    assert_eq!(x86.state.kernel32.allocate(&x86.mem, heap, 1), Ok(0x1004));
    assert_eq!(x86.state.kernel32.allocate(&x86.mem, heap, 3), Ok(0x1008));
    assert_eq!(x86.state.kernel32.allocate(&x86.mem, heap, 3), Err(Fault::HeapExhausted { heap }));
    assert_eq!(x86.state.kernel32.allocate(&x86.mem, heap, 2), Ok(0x100C));
    assert_eq!(x86.state.kernel32.allocate(&x86.mem, heap, 0), Err(Fault::HeapExhausted { heap }));
    let mut h = x86.state.kernel32.heap(heap).unwrap();
    h.free(0x1004);
    assert_eq!(Some(h), x86.state.kernel32.heap(heap));
    assert_eq!(x86.state.kernel32.heap(0), None);
    assert_eq!(
        x86.state.kernel32.allocate(&x86.mem, 0, 1),
        Err(Fault::HeapExhausted { heap: 0 })
    );
    // an empty machine gets its first heap past the first page
    let mut empty = X86::new(Vec::new());
    assert_eq!(empty.state.kernel32.new_heap(&mut empty.mem, 8), Ok(0x1000));
    assert_eq!(empty.mem.len(), 0x1008);
    // a heap that memory does not back hands nothing out
    let mut loose = Heap { addr: 0x100, size: 0x100, next: 0 };
    assert_eq!(loose.allocate(&[0u8; 0x104], 4), Ok(0x100));
    assert_eq!(loose.allocate(&[0u8; 0x104], 4), Err(Fault::HeapExhausted { heap: 0x100 }));
    assert_eq!(loose, Heap { addr: 0x100, size: 0x100, next: 4 });
}

#[test]
fn direct_draw_create() {
    let mut x86 = machine();
    assert_eq!(DirectDrawCreate(&mut x86, 0, SCRATCH, 0), Ok(DD_OK));
    let object = x86.read_u32(SCRATCH).unwrap();
    assert_eq!(x86.read_u32(object), Ok(x86.state.ddraw.vtable_IDirectDraw));
    assert_eq!(method(&x86, object, 0), TRAMPOLINE_BASE);
    // a second object uses the set-up that is there
    assert_eq!(DirectDrawCreate(&mut x86, 0, SCRATCH + 4, 0), Ok(DD_OK));
    assert_eq!(x86.read_u32(SCRATCH + 4), Ok(object + 4));
    assert_eq!(x86.shims.list.len(), 102);
    assert_eq!(x86.mem.len(), 0x3000);
}

#[test]
fn direct_draw_create_ex_checks_its_arguments() {
    let mut x86 = machine();
    assert_eq!(
        DirectDrawCreateEx(&mut x86, 1, SCRATCH, 0, 0),
        Err(Fault::Shim(ShimError::BadArg { func: "DirectDrawCreateEx", arg: "lpGuid" }))
    );
    assert_eq!(
        DirectDrawCreateEx(&mut x86, 0, SCRATCH, 0, 1),
        Err(Fault::Shim(ShimError::BadArg { func: "DirectDrawCreateEx", arg: "pUnkOuter" }))
    );
    assert_eq!(
        DirectDrawCreateEx(&mut x86, 0, SCRATCH, 0x1FF1, 0),
        Err(Fault::MemoryFault { addr: 0x1FF1, len: 16 })
    );
    assert_eq!(
        DirectDrawCreateEx(&mut x86, 0, 0x1FFD, 0, 0),
        Err(Fault::MemoryFault { addr: 0x1FFD, len: 4 })
    );
    assert_eq!(x86.state.ddraw.hheap, 0);
    assert_eq!(x86.mem.len(), 0x2000);
    // an identifier that is not known: the set-up is done, no object made
    assert_eq!(DirectDrawCreateEx(&mut x86, 0, 0x1FFD, SCRATCH + 0x100, 0), Ok(DDERR_GENERIC));
    assert_eq!(x86.state.ddraw.hheap, HEAP);
    assert_eq!(x86.state.kernel32.heap(HEAP).unwrap().next, 408);
    assert_eq!(x86.read_u32(SCRATCH), Ok(0));
    // no address space for the heap
    let mut full = machine();
    full.shims = Shims { list: vec![Shim { name: "x", func: Handler::Sync(Func::DirectDrawCreate) }; 0xFFFF] };
    assert_eq!(
        DirectDrawCreateEx(&mut full, 0, SCRATCH, 0, 0),
        Err(Fault::HeapExhausted { heap: TRAMPOLINE_BASE })
    );
}

#[test]
fn surfaces() {
    let (mut x86, object) = with_ddraw7();
    let desc = SCRATCH + 0x200;
    let out = SCRATCH + 0x300;
    write_desc(&mut x86, desc, DDSD::WIDTH | DDSD::HEIGHT, 64, 48, 0);
    IDirectDraw7::CreateSurface(&mut x86, object, desc, out, 0).unwrap();
    let front = x86.read_u32(out).unwrap();
    x86.host.take();

    assert_eq!(IDirectDrawSurface7::GetAttachedSurface(&mut x86, front, 0, out), Ok(DD_OK));
    let back = x86.read_u32(out).unwrap();
    assert_eq!(back, front + 4);
    assert_eq!(x86.state.ddraw.surfaces.get(&back), Some(&Surface { width: 64, height: 48 }));
    assert_eq!(x86.read_u32(back), Ok(x86.state.ddraw.vtable_IDirectDrawSurface7));

    let rect = SCRATCH + 0x400;
    for (i, v) in [10u32, 20, 42, 36].iter().enumerate() {
        x86.write_u32(rect + 4 * i as u32, *v).unwrap();
    }
    assert_eq!(RECT::read(&x86, rect), Ok(RECT { left: 10, top: 20, right: 42, bottom: 36 }));
    assert_eq!(IDirectDrawSurface7::BltFast(&mut x86, back, 1, 2, front, rect, 0), Ok(DD_OK));
    assert_eq!(IDirectDrawSurface7::Flip(&mut x86, front, 0, 0), Ok(DD_OK));
    assert_eq!(
        x86.host.take(),
        vec![
            HostCall::GetAttached { surface: front, attached: back },
            HostCall::BitBlt { dst: back, dx: 1, dy: 2, src: front, sx: 10, sy: 20, w: 32, h: 16 },
            HostCall::Flip { surface: front },
        ]
    );

    assert_eq!(
        IDirectDrawSurface7::BltFast(&mut x86, 0x1234, 0, 0, front, rect, 0),
        Err(Fault::Shim(ShimError::BadArg { func: "BltFast", arg: "this" }))
    );
    assert_eq!(
        IDirectDrawSurface7::BltFast(&mut x86, back, 0, 0, 0x1234, rect, 0),
        Err(Fault::Shim(ShimError::BadArg { func: "BltFast", arg: "lpSurf" }))
    );
    assert_eq!(
        IDirectDrawSurface7::BltFast(&mut x86, back, 0, 0, front, 0x2FF8, 0),
        Err(Fault::MemoryFault { addr: 0x2FF8, len: 16 })
    );
    x86.write_u32(rect + 8, 9).unwrap();
    assert_eq!(
        IDirectDrawSurface7::BltFast(&mut x86, back, 0, 0, front, rect, 0),
        Err(Fault::Shim(ShimError::BadArg { func: "BltFast", arg: "lpRect" }))
    );
    assert_eq!(
        IDirectDrawSurface7::Flip(&mut x86, object, 0, 0),
        Err(Fault::Shim(ShimError::BadArg { func: "Flip", arg: "this" }))
    );
    assert_eq!(
        IDirectDrawSurface7::GetAttachedSurface(&mut x86, object, 0, out),
        Err(Fault::Shim(ShimError::BadArg { func: "GetAttachedSurface", arg: "this" }))
    );
    assert_eq!(
        IDirectDrawSurface7::GetAttachedSurface(&mut x86, front, 0, 0x2FFE),
        Err(Fault::MemoryFault { addr: 0x2FFE, len: 4 })
    );
    assert!(x86.host.calls.is_empty());
    assert_eq!(x86.state.ddraw.surfaces.len(), 2);

    assert_eq!(IDirectDrawSurface7::Release(&mut x86, front), Ok(0));
    assert_eq!(IDirectDrawSurface7::Restore(&mut x86, front), Ok(DD_OK));
    assert_eq!(IDirectDrawSurface7::ReleaseDC(&mut x86, front, 1), Ok(DD_OK));
    assert_eq!(IDirectDraw7::Release(&mut x86, object), Ok(0));
    assert_eq!(x86.state.ddraw.surfaces.len(), 2);
}

#[test]
fn get_surface_desc_fills_in_what_is_asked_for() {
    let (mut x86, object) = with_ddraw7();
    let desc = SCRATCH + 0x200;
    let out = SCRATCH + 0x300;
    write_desc(&mut x86, desc, DDSD::WIDTH | DDSD::HEIGHT, 64, 48, 0);
    IDirectDraw7::CreateSurface(&mut x86, object, desc, out, 0).unwrap();
    let surface = x86.read_u32(out).unwrap();

    write_desc(&mut x86, desc, DDSD::WIDTH, 1, 2, 0);
    assert_eq!(IDirectDrawSurface7::GetSurfaceDesc(&mut x86, surface, desc), Ok(DD_OK));
    assert_eq!((x86.read_u32(desc + 12), x86.read_u32(desc + 8)), (Ok(64), Ok(2)));
    write_desc(&mut x86, desc, DDSD::HEIGHT | DDSD::PITCH, 1, 2, 0);
    assert_eq!(IDirectDrawSurface7::GetSurfaceDesc(&mut x86, surface, desc), Ok(DD_OK));
    assert_eq!((x86.read_u32(desc + 12), x86.read_u32(desc + 8)), (Ok(1), Ok(48)));
    write_desc(&mut x86, desc, 0, 1, 2, 0);
    assert_eq!(IDirectDrawSurface7::GetSurfaceDesc(&mut x86, surface, desc), Ok(DD_OK));
    assert_eq!((x86.read_u32(desc + 12), x86.read_u32(desc + 8)), (Ok(1), Ok(2)));
    assert_eq!(x86.read_u32(desc), Ok(124));
    assert_eq!(x86.read_u32(desc + 4), Ok(0));
    write_desc(&mut x86, desc, DDSD::WIDTH | DDSD::HEIGHT, 1, 2, 0);
    let before = x86.mem.clone();
    assert_eq!(IDirectDrawSurface7::GetSurfaceDesc(&mut x86, surface, desc), Ok(DD_OK));
    assert_eq!((x86.read_u32(desc + 12), x86.read_u32(desc + 8)), (Ok(64), Ok(48)));
    let d = desc as usize;
    assert_eq!(&x86.mem[..d + 8], &before[..d + 8]);
    assert_eq!(&x86.mem[d + 16..], &before[d + 16..]);
    assert_eq!(x86.state.ddraw.surfaces.len(), 1);

    assert_eq!(
        IDirectDrawSurface7::GetSurfaceDesc(&mut x86, object, desc),
        Err(Fault::Shim(ShimError::BadArg { func: "GetSurfaceDesc", arg: "this" }))
    );
    assert_eq!(
        IDirectDrawSurface7::GetSurfaceDesc(&mut x86, surface, 0x2F85),
        Err(Fault::MemoryFault { addr: 0x2F85, len: 124 })
    );
    x86.write_u32(desc, 0).unwrap();
    assert_eq!(
        IDirectDrawSurface7::GetSurfaceDesc(&mut x86, surface, desc),
        Err(Fault::Shim(ShimError::BadArg { func: "GetSurfaceDesc", arg: "lpDesc" }))
    );
}

#[test]
fn device_contexts() {
    let (mut x86, _) = with_ddraw7();
    assert_eq!(IDirectDrawSurface7::GetDC(&mut x86, 0x5000, SCRATCH), Ok(DD_OK));
    assert_eq!(x86.read_u32(SCRATCH), Ok(1));
    assert_eq!(IDirectDrawSurface7::GetDC(&mut x86, 0x6000, SCRATCH + 4), Ok(DD_OK));
    assert_eq!(x86.read_u32(SCRATCH + 4), Ok(2));
    assert_eq!(
        x86.state.gdi32.dcs,
        vec![DC { ddraw_surface: 0x5000 }, DC { ddraw_surface: 0x6000 }]
    );
    assert_eq!(
        IDirectDrawSurface7::GetDC(&mut x86, 0x5000, 0x2FFF),
        Err(Fault::MemoryFault { addr: 0x2FFF, len: 4 })
    );
    assert_eq!(x86.state.gdi32.dcs.len(), 2);
}

#[test]
fn methods_without_a_host_function() {
    let (mut x86, object) = with_ddraw7();
    let target = method(&x86, object, 0);
    guest_call(&mut x86, target, &[object, 0, 0]);
    let esp = x86.regs.esp;
    assert_eq!(
        step(&mut x86),
        Err(Fault::Shim(ShimError::Unimplemented { dll: "IDirectDraw7", func: "QueryInterface" }))
    );
    assert_eq!((x86.regs.esp, x86.regs.eip), (esp, target));
    assert_eq!(
        IDirectDraw::CreateSurface(&mut x86, object, 0, 0, 0),
        Err(Fault::Shim(ShimError::Unimplemented { dll: "IDirectDraw", func: "CreateSurface" }))
    );
    assert_eq!(
        call(&mut x86, Func::IDirectDraw_CreateSurface, STACK - 16),
        Err(Fault::Shim(ShimError::Unimplemented { dll: "IDirectDraw", func: "CreateSurface" }))
    );
    // a trampoline that no shim has
    x86.regs.eip = TRAMPOLINE_BASE + 102;
    assert_eq!(
        step(&mut x86),
        Err(Fault::DecodeError { eip: TRAMPOLINE_BASE + 102, bytes: [0; 15] })
    );
}

#[test]
fn arguments_come_from_the_stack_in_order() {
    let mut x86 = machine();
    guest_call(&mut x86, 0, &[11, 22, 33]);
    let stack_args = x86.regs.esp + 4;
    assert_eq!(args(&x86, stack_args, 3), Ok(vec![11, 22, 33]));
    assert_eq!(args(&x86, stack_args, 0), Ok(vec![]));
    assert_eq!(
        args(&x86, 0x1FF8, 3),
        Err(Fault::MemoryFault { addr: 0x2000, len: 4 })
    );
    assert_eq!(args(&x86, 0xFFFF_FFFC, 2), Err(Fault::MemoryFault { addr: 0xFFFF_FFFC, len: 4 }));
}

#[test]
fn text_arguments() {
    let mut x86 = machine();
    x86.mem[0x1000..0x1008].copy_from_slice(b"C:\\a\\b\0x");
    assert_eq!(text(&x86, 0), Ok(None));
    let window = text(&x86, 0x1000).unwrap().unwrap();
    assert_eq!((window.start(), window.len()), (0x1000, 6));
    assert_eq!(window.to_ascii(&x86.mem), Some("C:\\a\\b"));
    for b in x86.mem.iter_mut() {
        *b = 0x41;
    }
    assert_eq!(text(&x86, 0x1000), Err(Fault::MemoryFault { addr: 0x1000, len: 1 }));
    assert_eq!(text(&x86, 0x2000), Err(Fault::MemoryFault { addr: 0x2000, len: 1 }));
}

#[test]
fn path_remove_file_spec_returns_the_answer_of_the_host() {
    let mut x86 = machine();
    x86.mem[0x1000..0x1004].copy_from_slice(b"a\\b\0");
    let dll = shlwapi::dll();
    assert_eq!(dll.file_name, "shlwapi.dll");
    assert_eq!(dll.raw, None);
    assert_eq!(
        dll.shims,
        vec![Shim { name: "PathRemoveFileSpecA", func: Handler::Sync(Func::PathRemoveFileSpecA) }]
    );
    let target = x86.shims.add(dll.shims[0]).unwrap();
    guest_call(&mut x86, target, &[0x1000]);
    let esp = x86.regs.esp;
    let path = shlwapi::pszPath(&x86, esp + 4).unwrap().unwrap();
    assert_eq!(path.to_ascii(&x86.mem), Some("a\\b"));
    x86.host.leave(1);
    x86.regs.eax = 0xFFFF_FFFF;
    let memory = x86.mem.clone();
    assert_eq!(step(&mut x86), Ok(None));
    assert_eq!(x86.regs.eax, 1);
    assert_eq!(x86.regs.esp, esp + 8);
    assert_eq!(x86.regs.eip, RETURN);
    assert_eq!(x86.host.answer, None);
    assert_eq!(x86.mem, memory);

    // a null pointer is an argument like any other
    x86.write_u32(STACK, 0).unwrap();
    assert_eq!(shlwapi::pszPath(&x86, STACK), Ok(None));
    x86.host.leave(0);
    assert_eq!(shlwapi::PathRemoveFileSpecA(&mut x86, STACK), Ok(0));
    assert_eq!(x86.host.answer, None);
    x86.host.leave(7);
    x86.host.leave(0x8000_0001);
    assert_eq!(shlwapi::PathRemoveFileSpecA(&mut x86, STACK), Ok(0x8000_0001));
}

#[test]
fn path_remove_file_spec_needs_its_argument_and_the_host() {
    let mut x86 = machine();
    x86.mem[0x1000..0x1004].copy_from_slice(b"a\\b\0");
    let target = x86.shims.add(shlwapi::dll().shims[0]).unwrap();
    guest_call(&mut x86, target, &[0x1000]);
    let esp = x86.regs.esp;
    // a host that has left no answer has no such function
    let unimplemented = Fault::Shim(ShimError::Unimplemented {
        dll: "shlwapi.dll",
        func: "PathRemoveFileSpecA",
    });
    assert_eq!(step(&mut x86), Err(unimplemented));
    assert_eq!((x86.regs.esp, x86.regs.eip), (esp, target));
    assert_eq!(shlwapi::PathRemoveFileSpecA(&mut x86, esp + 4), Err(unimplemented));
    // an argument that cannot be read is a fault, and the answer stays
    x86.host.leave(1);
    assert_eq!(
        shlwapi::PathRemoveFileSpecA(&mut x86, 0x1FFE),
        Err(Fault::MemoryFault { addr: 0x1FFE, len: 4 })
    );
    assert_eq!(shlwapi::pszPath(&x86, 0x1FFE), Err(Fault::MemoryFault { addr: 0x1FFE, len: 4 }));
    x86.write_u32(STACK, 0x1FFF).unwrap();
    x86.mem[0x1FFF] = 0x41;
    assert_eq!(
        shlwapi::PathRemoveFileSpecA(&mut x86, STACK),
        Err(Fault::MemoryFault { addr: 0x1FFF, len: 1 })
    );
    assert_eq!(x86.host.answer, Some(1));
}

#[test]
fn asynchronous_functions_wait_for_the_host() {
    let mut x86 = machine();
    let target = x86
        .shims
        .add(Shim { name: "Sleep", func: Handler::Async(Func::IDirectDraw7_SetCooperativeLevel) })
        .unwrap();
    guest_call(&mut x86, target, &[1, 2, 3]);
    let esp = x86.regs.esp;
    assert_eq!(step(&mut x86), Ok(Some(Func::IDirectDraw7_SetCooperativeLevel)));
    assert_eq!((x86.regs.esp, x86.regs.eip), (esp, target));
    assert_eq!(resume(&mut x86, Func::IDirectDraw7_SetCooperativeLevel, 0x55), Ok(()));
    assert_eq!(x86.regs.eax, 0x55);
    assert_eq!(x86.regs.eip, RETURN);
    assert_eq!(x86.regs.esp, esp + 16);
    x86.regs.esp = 0x1FFE;
    assert_eq!(
        resume(&mut x86, Func::IDirectDraw7_Release, 0),
        Err(Fault::MemoryFault { addr: 0x1FFE, len: 4 })
    );
}

#[test]
fn the_arguments_each_function_takes() {
    assert_eq!(Func::DirectDrawCreate.arg_count(), 3);
    assert_eq!(Func::DirectDrawCreateEx.arg_count(), 4);
    assert_eq!(Func::IDirectDraw7_SetDisplayMode.arg_count(), 6);
    assert_eq!(Func::IDirectDrawSurface7_BltFast.arg_count(), 6);
    assert_eq!(Func::IDirectDrawSurface7_Restore.arg_count(), 1);
    assert_eq!(Func::PathRemoveFileSpecA.arg_count(), 1);
    assert_eq!(Func::Unimplemented { dll: "a", func: "b" }.arg_count(), 0);
}

#[test]
fn an_empty_state() {
    let state = State::new_empty();
    assert_eq!(state.hheap, 0);
    assert_eq!((state.width, state.height, state.hwnd), (0, 0, 0));
    assert!(state.surfaces.is_empty());
    let mut x86 = machine();
    let made = State::new_init(&mut x86).ok().unwrap();
    assert_eq!(made.hheap, HEAP);
    assert_eq!(x86.state.ddraw.hheap, 0);
    assert_eq!(x86.shims.list.len(), 102);
    let mut top = X86::new(Vec::new());
    top.mem = vec![0u8; 16];
    assert!(State::new_init(&mut top).is_ok());
}

/// Checks that every slot of the table that `object` begins with leads to
/// the method of its position.
fn check_table(x86: &X86, object: u32, interface: &'static str, methods: &[Method]) {
    for (i, m) in methods.iter().enumerate() {
        let shim = x86.shims.lookup(method(x86, object, i as u32)).unwrap();
        let func = m.func.unwrap_or(Func::Unimplemented { dll: interface, func: m.name });
        assert_eq!(shim, Shim { name: m.name, func: Handler::Sync(func) });
    }
}

#[test]
fn tables_stay_intact_and_objects_are_fresh() {
    let (mut x86, seven) = with_ddraw7();
    assert_eq!(DirectDrawCreate(&mut x86, 0, SCRATCH + 8, 0), Ok(DD_OK));
    let one = x86.read_u32(SCRATCH + 8).unwrap();
    let desc = SCRATCH + 0x200;
    let out = SCRATCH + 0x300;
    write_desc(&mut x86, desc, DDSD::WIDTH | DDSD::HEIGHT, 8, 8, 0);
    let mut objects = vec![seven, one];
    for round in 0..20 {
        if round % 2 == 0 {
            assert_eq!(IDirectDraw7::CreateSurface(&mut x86, seven, desc, out, 0), Ok(DD_OK));
        } else {
            let last = *objects.last().unwrap();
            assert_eq!(IDirectDrawSurface7::GetAttachedSurface(&mut x86, last, 0, out), Ok(DD_OK));
        }
        let object = x86.read_u32(out).unwrap();
        assert_ne!(object, 0);
        assert!(!objects.contains(&object));
        assert!(objects.iter().all(|o| *o < object));
        assert!(x86.state.ddraw.surfaces.contains_key(&object));
        objects.push(object);
        let heap = x86.state.kernel32.heap(HEAP).unwrap();
        assert_eq!(heap.addr, x86.state.ddraw.hheap);
        assert_eq!(heap.addr + heap.next, object + 4);
    }
    assert_eq!(x86.state.ddraw.surfaces.len(), 20);
    check_table(&x86, seven, "IDirectDraw7", &IDirectDraw7::methods());
    check_table(&x86, one, "IDirectDraw", &IDirectDraw::methods());
    for surface in &objects[2..] {
        check_table(&x86, *surface, "IDirectDrawSurface7", &IDirectDrawSurface7::methods());
    }
    // the tables take the trampolines in order
    let tables = &x86.state.ddraw;
    assert_eq!(x86.read_u32(tables.vtable_IDirectDraw + 4 * 22), Ok(TRAMPOLINE_BASE + 22));
    assert_eq!(x86.read_u32(tables.vtable_IDirectDraw7), Ok(TRAMPOLINE_BASE + 23));
    assert_eq!(x86.read_u32(tables.vtable_IDirectDraw7 + 4 * 29), Ok(TRAMPOLINE_BASE + 52));
    assert_eq!(x86.read_u32(tables.vtable_IDirectDrawSurface7), Ok(TRAMPOLINE_BASE + 53));
    assert_eq!(
        x86.read_u32(tables.vtable_IDirectDrawSurface7 + 4 * 48),
        Ok(TRAMPOLINE_BASE + 101)
    );
}

#[test]
fn a_pointer_into_a_table_overwrites_it() {
    // the guest chooses where the address of a new object goes
    let (mut x86, seven) = with_ddraw7();
    let desc = SCRATCH + 0x200;
    write_desc(&mut x86, desc, 0, 0, 0, 0);
    let slot = x86.state.ddraw.vtable_IDirectDraw7 + 8;
    assert_eq!(IDirectDraw7::CreateSurface(&mut x86, seven, desc, slot, 0), Ok(DD_OK));
    assert_eq!(x86.read_u32(slot), Ok(HEAP + 412));
    assert_eq!(method(&x86, seven, 1), TRAMPOLINE_BASE + 24);
}
