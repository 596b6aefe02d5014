//! What holds of the objects and method tables of DirectDraw.
//!
//! The guest reaches a method through two loads: the first dword of the
//! object is the address of the method table, and the dword `4 * i` bytes
//! into the table is the address that the guest calls for method `i`.
use crate::fault::Fault;
use crate::mem::{lemma_put_elsewhere, lemma_put_then_get, lemma_whole, Mem};
use crate::shims::{spec_lookup, trampoline, TRAMPOLINE_COUNT};
use crate::winapi::ddraw::IDirectDraw;
use crate::winapi::ddraw::IDirectDraw7;
use crate::winapi::ddraw::IDirectDrawSurface7;
use crate::winapi::ddraw::IDirectDraw7::spec_create_surface;
use crate::pod::Pod;
use crate::winapi::ddraw::IDirectDrawSurface7::{spec_get_attached_surface, spec_get_surface_desc};
use crate::winapi::ddraw::{
    can_init, init_machine, init_model, initialized, lemma_init, spec_direct_draw_create_ex,
    spec_dword, spec_new_object, with_heap, Surface, DDSD, DD_OK, HEAP_SIZE,
};
use crate::winapi::kernel32::{spec_break, Heap, State};
use crate::winapi::vtable::{
    can_build, lemma_table_elsewhere, lemma_table_len, lemma_vtable_shape, shim_for, with_vtable,
    Method,
};
use crate::x86::{spec_read, spec_write, Cpu, Machine};
use vstd::prelude::*;

verus! {

/// Whether slot `i` of the table at `table` leads to method `i` of the
/// interface: it holds a trampoline address, and the shim of that address
/// is the shim of the method.
pub open spec fn slot_leads(
    m: Machine,
    table: u32,
    interface: &'static str,
    methods: Seq<Method>,
    i: int,
) -> bool {
    spec_read::<u32>(m.cpu.mem, (table + 4 * i) as u32) matches Ok(entry) && spec_lookup(
        m.shims,
        entry,
    ) == Some(shim_for(interface, methods[i]))
}

/// Whether slot `i` of the table at `table` holds the trampoline address
/// of the shim at position `index`, which is the shim of method `i`.
pub open spec fn slot_is(
    m: Machine,
    table: u32,
    interface: &'static str,
    methods: Seq<Method>,
    i: int,
    index: int,
) -> bool {
    &&& spec_read::<u32>(m.cpu.mem, (table + 4 * i) as u32) == Ok::<u32, Fault>(trampoline(index))
    &&& spec_lookup(m.shims, trampoline(index)) == Some(shim_for(interface, methods[i]))
}

/// Whether every slot of the table at `table` leads to its method.
pub open spec fn table_intact(
    m: Machine,
    table: u32,
    interface: &'static str,
    methods: Seq<Method>,
) -> bool {
    forall|i: int| 0 <= i < methods.len() ==> #[trigger] slot_leads(m, table, interface, methods, i)
}

/// Whether the method tables of the three interfaces are intact.
pub open spec fn tables_intact(m: Machine) -> bool {
    &&& table_intact(m, m.ddraw.vtable_IDirectDraw, "IDirectDraw", IDirectDraw::spec_methods())
    &&& table_intact(m, m.ddraw.vtable_IDirectDraw7, "IDirectDraw7", IDirectDraw7::spec_methods())
    &&& table_intact(
        m,
        m.ddraw.vtable_IDirectDrawSurface7,
        "IDirectDrawSurface7",
        IDirectDrawSurface7::spec_methods(),
    )
}

/// Whether a block of `len` bytes at `at` lies in the part of the heap that
/// has been handed out.
pub open spec fn handed_out(heap: Heap, at: u32, len: nat) -> bool {
    heap.addr <= at && at + len <= heap.addr + heap.next
}

/// Whether the heap of DirectDraw is in order: DirectDraw is set up, the
/// handle of its heap is the address of the heap and not zero, and the
/// method tables and every object that stands for a surface lie in the
/// part of the heap that has been handed out.
pub open spec fn in_order(m: Machine) -> bool {
    let heap = m.heaps[m.ddraw.hheap];
    &&& m.ddraw.hheap != 0
    &&& m.heaps.contains_key(m.ddraw.hheap)
    &&& heap.addr == m.ddraw.hheap
    &&& heap.addr + heap.next <= u32::MAX
    &&& handed_out(heap, m.ddraw.vtable_IDirectDraw, 4 * IDirectDraw::spec_methods().len())
    &&& handed_out(heap, m.ddraw.vtable_IDirectDraw7, 4 * IDirectDraw7::spec_methods().len())
    &&& handed_out(
        heap,
        m.ddraw.vtable_IDirectDrawSurface7,
        4 * IDirectDrawSurface7::spec_methods().len(),
    )
    &&& forall|object: u32| #[trigger]
        m.ddraw.surfaces.contains_key(object) ==> handed_out(heap, object, 4)
}

/// The machine after the heap and the table of `IDirectDraw` are made.
pub open spec fn init_one(m: Machine) -> Machine {
    with_vtable(
        with_heap(m),
        init_model(m).hheap,
        "IDirectDraw",
        IDirectDraw::spec_methods(),
        init_model(m).vtable_IDirectDraw,
    )
}

/// The machine after the table of `IDirectDraw7` is made too.
pub open spec fn init_two(m: Machine) -> Machine {
    with_vtable(
        init_one(m),
        init_model(m).hheap,
        "IDirectDraw7",
        IDirectDraw7::spec_methods(),
        init_model(m).vtable_IDirectDraw7,
    )
}

/// The steps of the set-up: each table is made where the state of DirectDraw
/// says it is, and takes the next trampolines in order.
#[verifier::rlimit(50)]
pub proof fn lemma_init_steps(m: Machine)
    requires
        can_init(m),
    ensures
        ({
            let heap = init_model(m).hheap;
            let first = m.shims.len();
            let made = with_heap(m);
            let one = init_one(m);
            let two = init_two(m);
            &&& heap == spec_break(m.cpu.mem.len())
            &&& IDirectDraw::spec_methods().len() == 23
            &&& IDirectDraw7::spec_methods().len() == 30
            &&& IDirectDrawSurface7::spec_methods().len() == 49
            &&& can_build(made, heap, 23)
            &&& State::spec_allocate(made.heaps, made.cpu.mem.len(), heap, 92) == Ok::<u32, Fault>(
                heap,
            )
            &&& made.shims.len() == first
            &&& can_build(one, heap, 30)
            &&& State::spec_allocate(one.heaps, one.cpu.mem.len(), heap, 120) == Ok::<u32, Fault>(
                (heap + 92) as u32,
            )
            &&& one.shims.len() == first + 23
            &&& can_build(two, heap, 49)
            &&& State::spec_allocate(two.heaps, two.cpu.mem.len(), heap, 196) == Ok::<u32, Fault>(
                (heap + 212) as u32,
            )
            &&& two.shims.len() == first + 53
            &&& init_machine(m) == with_vtable(
                two,
                heap,
                "IDirectDrawSurface7",
                IDirectDrawSurface7::spec_methods(),
                (heap + 212) as u32,
            )
            &&& first + 102 <= TRAMPOLINE_COUNT
            &&& heap + HEAP_SIZE <= u32::MAX
        }),
{
    reveal(IDirectDraw::spec_methods);
    reveal(IDirectDraw7::spec_methods);
    reveal(IDirectDrawSurface7::spec_methods);
    let heap = spec_break(m.cpu.mem.len()) as u32;
    let first = m.shims.len() as int;
    let made = with_heap(m);
    assert(made.heaps[heap] == Heap { addr: heap, size: HEAP_SIZE, next: 0 });
    lemma_table_len(made.cpu.mem, heap, first, 23);
    let one = init_one(m);
    assert(one.heaps[heap] == Heap { addr: heap, size: HEAP_SIZE, next: 92 });
    lemma_table_len(one.cpu.mem, (heap + 92) as u32, first + 23, 30);
    let two = init_two(m);
    assert(two.heaps[heap] == Heap { addr: heap, size: HEAP_SIZE, next: 212 });
}

/// The shape of the method tables after the set-up. Slot `i` of the table
/// of each interface, at offset `4 * i`, holds the trampoline address of
/// method `i` of that interface. The tables of the three interfaces take
/// the trampolines in order, first the 23 of `IDirectDraw`, then the 30 of
/// `IDirectDraw7`, then the 49 of `IDirectDrawSurface7`; so no two slots
/// hold the same address. The tables made later have not touched those
/// made before.
#[verifier::rlimit(50)]
pub proof fn lemma_init_tables(m: Machine, i: int)
    requires
        can_init(m),
    ensures
        ({
            let after = init_machine(m);
            let tables = init_model(m);
            let first = m.shims.len();
            &&& 0 <= i < 23 ==> slot_is(
                after,
                tables.vtable_IDirectDraw,
                "IDirectDraw",
                IDirectDraw::spec_methods(),
                i,
                first + i,
            )
            &&& 0 <= i < 30 ==> slot_is(
                after,
                tables.vtable_IDirectDraw7,
                "IDirectDraw7",
                IDirectDraw7::spec_methods(),
                i,
                first + 23 + i,
            )
            &&& 0 <= i < 49 ==> slot_is(
                after,
                tables.vtable_IDirectDrawSurface7,
                "IDirectDrawSurface7",
                IDirectDrawSurface7::spec_methods(),
                i,
                first + 53 + i,
            )
        }),
{
    lemma_init_steps(m);
    let heap = init_model(m).hheap;
    let first = m.shims.len() as int;
    let made = with_heap(m);
    let one = init_one(m);
    let two = init_two(m);
    let after = init_machine(m);
    let second = (heap + 92) as u32;
    let third = (heap + 212) as u32;
    if 0 <= i < 23 {
        let slot = (heap + 4 * i) as u32;
        lemma_vtable_shape(made, heap, "IDirectDraw", IDirectDraw::spec_methods(), heap, i);
        lemma_table_elsewhere(one.cpu.mem, second, first + 23, 30, slot);
        lemma_table_elsewhere(two.cpu.mem, third, first + 53, 49, slot);
        assert(after.shims[first + i] == one.shims[first + i]);
    }
    if 0 <= i < 30 {
        let slot = (second + 4 * i) as u32;
        lemma_vtable_shape(one, heap, "IDirectDraw7", IDirectDraw7::spec_methods(), second, i);
        lemma_table_elsewhere(two.cpu.mem, third, first + 53, 49, slot);
        assert(after.shims[first + 23 + i] == two.shims[first + 23 + i]);
    }
    if 0 <= i < 49 {
        lemma_vtable_shape(
            two,
            heap,
            "IDirectDrawSurface7",
            IDirectDrawSurface7::spec_methods(),
            third,
            i,
        );
    }
}

/// The machine right after the set-up of DirectDraw.
pub open spec fn set_up(m: Machine) -> Machine {
    Machine { ddraw: init_model(m), ..init_machine(m) }
}

/// After the set-up the heap of DirectDraw is in order and the method
/// tables are intact; there is no surface yet.
pub proof fn lemma_set_up(m: Machine)
    requires
        can_init(m),
    ensures
        in_order(set_up(m)),
        tables_intact(set_up(m)),
        set_up(m).ddraw.surfaces == Map::<u32, Surface>::empty(),
{
    lemma_init_steps(m);
    lemma_init(m);
    let ready = set_up(m);
    assert forall|i: int| 0 <= i < 23 implies #[trigger] slot_leads(
        ready,
        ready.ddraw.vtable_IDirectDraw,
        "IDirectDraw",
        IDirectDraw::spec_methods(),
        i,
    ) by {
        lemma_init_tables(m, i);
    }
    assert forall|i: int| 0 <= i < 30 implies #[trigger] slot_leads(
        ready,
        ready.ddraw.vtable_IDirectDraw7,
        "IDirectDraw7",
        IDirectDraw7::spec_methods(),
        i,
    ) by {
        lemma_init_tables(m, i);
    }
    assert forall|i: int| 0 <= i < 49 implies #[trigger] slot_leads(
        ready,
        ready.ddraw.vtable_IDirectDrawSurface7,
        "IDirectDrawSurface7",
        IDirectDrawSurface7::spec_methods(),
        i,
    ) by {
        lemma_init_tables(m, i);
    }
}

/// A dword stored outside a method table leaves the table intact.
pub proof fn lemma_store_keeps_table(
    m: Machine,
    after: Machine,
    at: u32,
    value: u32,
    table: u32,
    interface: &'static str,
    methods: Seq<Method>,
)
    requires
        table_intact(m, table, interface, methods),
        table + 4 * methods.len() <= u32::MAX,
        at + 4 <= table || table + 4 * methods.len() <= at,
        after.cpu.mem == spec_write::<u32>(m.cpu.mem, at, value),
        after.shims == m.shims,
    ensures
        table_intact(after, table, interface, methods),
{
    let whole = Mem::whole(m.cpu.mem.len());
    lemma_whole(m.cpu.mem.len());
    assert forall|i: int| 0 <= i < methods.len() implies #[trigger] slot_leads(
        after,
        table,
        interface,
        methods,
        i,
    ) by {
        assert(slot_leads(m, table, interface, methods, i));
        lemma_put_elsewhere::<u32, u32>(
            m.cpu.mem,
            whole,
            at,
            whole,
            (table + 4 * i) as u32,
            value,
        );
    }
}

/// A dword stored outside the part of the heap that has been handed out
/// leaves the three method tables intact.
pub proof fn lemma_store_keeps_tables(m: Machine, after: Machine, at: u32, value: u32)
    requires
        in_order(m),
        tables_intact(m),
        at + 4 <= m.heaps[m.ddraw.hheap].addr || m.heaps[m.ddraw.hheap].addr
            + m.heaps[m.ddraw.hheap].next <= at,
        after.cpu.mem == spec_write::<u32>(m.cpu.mem, at, value),
        after.shims == m.shims,
        after.ddraw.vtable_IDirectDraw == m.ddraw.vtable_IDirectDraw,
        after.ddraw.vtable_IDirectDraw7 == m.ddraw.vtable_IDirectDraw7,
        after.ddraw.vtable_IDirectDrawSurface7 == m.ddraw.vtable_IDirectDrawSurface7,
    ensures
        tables_intact(after),
{
    lemma_store_keeps_table(
        m,
        after,
        at,
        value,
        m.ddraw.vtable_IDirectDraw,
        "IDirectDraw",
        IDirectDraw::spec_methods(),
    );
    lemma_store_keeps_table(
        m,
        after,
        at,
        value,
        m.ddraw.vtable_IDirectDraw7,
        "IDirectDraw7",
        IDirectDraw7::spec_methods(),
    );
    lemma_store_keeps_table(
        m,
        after,
        at,
        value,
        m.ddraw.vtable_IDirectDrawSurface7,
        "IDirectDrawSurface7",
        IDirectDrawSurface7::spec_methods(),
    );
}

/// A new object is fresh. With the heap in order, the object that is made
/// is not at address zero, lies past everything that was handed out before,
/// and so is the object of no surface there is. Its first dword is the
/// address of its method table. The heap stays in order, and the making of
/// the object touches no method table.
pub proof fn lemma_new_object(m: Machine, table: u32)
    requires
        in_order(m),
        spec_new_object(m, table) is Ok,
    ensures
        ({
            let (made, object) = spec_new_object(m, table)->Ok_0;
            let heap = m.heaps[m.ddraw.hheap];
            &&& in_order(made)
            &&& made.ddraw == m.ddraw
            &&& made.shims == m.shims
            &&& object != 0
            &&& heap.addr + heap.next <= object
            &&& made.heaps[m.ddraw.hheap].addr + made.heaps[m.ddraw.hheap].next == object + 4
            &&& !m.ddraw.surfaces.contains_key(object)
            &&& spec_read::<u32>(made.cpu.mem, object) == Ok::<u32, Fault>(table)
            &&& tables_intact(m) ==> tables_intact(made)
        }),
{
    let (made, object) = spec_new_object(m, table)->Ok_0;
    let whole = Mem::whole(m.cpu.mem.len());
    lemma_whole(m.cpu.mem.len());
    lemma_put_then_get::<u32>(m.cpu.mem, whole, object, whole, object, table);
    if m.ddraw.surfaces.contains_key(object) {
        assert(handed_out(m.heaps[m.ddraw.hheap], object, 4));
    }
    assert forall|other: u32| #[trigger] made.ddraw.surfaces.contains_key(other) implies handed_out(
        made.heaps[made.ddraw.hheap],
        other,
        4,
    ) by {
        assert(handed_out(m.heaps[m.ddraw.hheap], other, 4));
    }
    if tables_intact(m) {
        lemma_store_keeps_tables(m, made, object, table);
    }
}

/// The machine after the address of a new object has been stored at `out`
/// and the object has been recorded as a surface.
pub open spec fn with_surface(made: Machine, out: u32, object: u32, surface: Surface) -> Machine {
    Machine {
        cpu: Cpu { mem: spec_write::<u32>(made.cpu.mem, out, object), ..made.cpu },
        ddraw: crate::winapi::ddraw::Model {
            surfaces: made.ddraw.surfaces.insert(object, surface),
            ..made.ddraw
        },
        ..made
    }
}

/// Whether the dword at `at` lies outside the part of the heap of
/// DirectDraw that has been handed out.
pub open spec fn outside_heap(m: Machine, at: u32) -> bool {
    let heap = m.heaps[m.ddraw.hheap];
    at + 4 <= heap.addr || heap.addr + heap.next <= at
}

/// Storing the address of a new object and recording it as a surface keeps
/// the heap in order. The place it was stored at reads as the object. When
/// that place lies outside the heap, the object still begins with the
/// address of its table and the method tables are still intact.
pub proof fn lemma_surface_recorded(
    m: Machine,
    table: u32,
    out: u32,
    surface: Surface,
    host: Seq<crate::host::HostCall>,
)
    requires
        in_order(m),
        spec_new_object(m, table) is Ok,
        spec_read::<u32>(m.cpu.mem, out) is Ok,
    ensures
        ({
            let (made, object) = spec_new_object(m, table)->Ok_0;
            let after = Machine { host, ..with_surface(made, out, object, surface) };
            &&& in_order(after)
            &&& spec_read::<u32>(after.cpu.mem, out) == Ok::<u32, Fault>(object)
            &&& outside_heap(made, out) ==> spec_read::<u32>(after.cpu.mem, object) == Ok::<
                u32,
                Fault,
            >(table)
            &&& outside_heap(made, out) && tables_intact(m) ==> tables_intact(after)
        }),
{
    lemma_new_object(m, table);
    let (made, object) = spec_new_object(m, table)->Ok_0;
    let after = Machine { host, ..with_surface(made, out, object, surface) };
    let whole = Mem::whole(made.cpu.mem.len());
    lemma_whole(made.cpu.mem.len());
    lemma_whole(m.cpu.mem.len());
    lemma_put_then_get::<u32>(made.cpu.mem, whole, out, whole, out, object);
    assert forall|other: u32| #[trigger] after.ddraw.surfaces.contains_key(other) implies handed_out(
        after.heaps[after.ddraw.hheap],
        other,
        4,
    ) by {
        if other != object {
            assert(made.ddraw.surfaces.contains_key(other));
        }
    }
    if outside_heap(made, out) {
        lemma_put_elsewhere::<u32, u32>(made.cpu.mem, whole, out, whole, object, object);
        if tables_intact(m) {
            lemma_store_keeps_tables(made, after, out, object);
        }
    }
}

/// What holds after a function has made an object on the machine `before`,
/// whose heap was in order, and has stored the object's address at `out`.
/// The heap is still in order. The object is fresh: not at address zero,
/// past everything handed out before, and the object of no surface that
/// there was. When `out` lies outside the heap, the first dword of the
/// object is the address of its method table `table`, and the method tables
/// are intact if they were.
pub open spec fn object_handed_out(before: Machine, after: Machine, out: u32, table: u32) -> bool {
    let heap = before.heaps[before.ddraw.hheap];
    &&& in_order(after)
    &&& spec_read::<u32>(after.cpu.mem, out) matches Ok(object) && {
        &&& object != 0
        &&& heap.addr + heap.next <= object
        &&& !before.ddraw.surfaces.contains_key(object)
        &&& outside_heap(after, out) ==> spec_read::<u32>(after.cpu.mem, object) == Ok::<
            u32,
            Fault,
        >(table)
    }
    &&& outside_heap(after, out) && tables_intact(before) ==> tables_intact(after)
}

/// `CreateSurface` hands out a fresh object and records it as a surface; the
/// heap stays in order and the surfaces that there were stay.
#[verifier::rlimit(50)]
pub proof fn lemma_create_surface(m: Machine, lpSurfaceDesc: u32, out: u32)
    requires
        in_order(m),
        spec_create_surface(m, lpSurfaceDesc, out) is Ok,
    ensures
        ({
            let (after, code) = spec_create_surface(m, lpSurfaceDesc, out)->Ok_0;
            &&& code == DD_OK
            &&& object_handed_out(m, after, out, m.ddraw.vtable_IDirectDrawSurface7)
            &&& spec_read::<u32>(after.cpu.mem, out) matches Ok(object)
                && after.ddraw.surfaces.dom() == m.ddraw.surfaces.dom().insert(object)
        }),
{
    let table = m.ddraw.vtable_IDirectDrawSurface7;
    let (after, code) = spec_create_surface(m, lpSurfaceDesc, out)->Ok_0;
    let (made, object) = spec_new_object(m, table)->Ok_0;
    lemma_new_object(m, table);
    lemma_surface_recorded(m, table, out, after.ddraw.surfaces[object], after.host);
    assert(after == Machine {
        host: after.host,
        ..with_surface(made, out, object, after.ddraw.surfaces[object])
    });
    assert(after.ddraw.surfaces.dom() =~= m.ddraw.surfaces.dom().insert(object));
}

/// `GetAttachedSurface` hands out a fresh object and records it as a
/// surface; the heap stays in order and the surfaces that there were stay.
pub proof fn lemma_get_attached_surface(m: Machine, this: u32, out: u32)
    requires
        in_order(m),
        spec_get_attached_surface(m, this, out) is Ok,
    ensures
        ({
            let (after, code) = spec_get_attached_surface(m, this, out)->Ok_0;
            &&& code == DD_OK
            &&& object_handed_out(m, after, out, m.ddraw.vtable_IDirectDrawSurface7)
            &&& spec_read::<u32>(after.cpu.mem, out) matches Ok(object)
                && after.ddraw.surfaces.dom() == m.ddraw.surfaces.dom().insert(object)
                && after.ddraw.surfaces[object] == m.ddraw.surfaces[this]
        }),
{
    let table = m.ddraw.vtable_IDirectDrawSurface7;
    let (after, code) = spec_get_attached_surface(m, this, out)->Ok_0;
    let (made, object) = spec_new_object(m, table)->Ok_0;
    lemma_new_object(m, table);
    lemma_surface_recorded(m, table, out, m.ddraw.surfaces[this], after.host);
    assert(after == Machine {
        host: after.host,
        ..with_surface(made, out, object, m.ddraw.surfaces[this])
    });
    assert(after.ddraw.surfaces.dom() =~= m.ddraw.surfaces.dom().insert(object));
}

/// `DirectDrawCreateEx` leaves the heap of DirectDraw in order, whether it
/// has set DirectDraw up itself or found it set up and in order. When it
/// succeeds it has handed out a fresh object of the interface asked for. A
/// call that does the set-up stores the object's address outside the heap,
/// which did not exist when the address was given.
#[verifier::rlimit(50)]
pub proof fn lemma_direct_draw_create_ex(m: Machine, lplpDD: u32, iid: u32)
    requires
        m.ddraw.hheap != 0 ==> in_order(m),
        spec_direct_draw_create_ex(m, 0, lplpDD, iid, 0) is Ok,
    ensures
        ({
            let (after, code) = spec_direct_draw_create_ex(m, 0, lplpDD, iid, 0)->Ok_0;
            let ready = initialized(m);
            &&& in_order(ready)
            &&& m.ddraw.hheap == 0 ==> ready == set_up(m) && tables_intact(ready)
            &&& in_order(after)
            &&& after.ddraw == ready.ddraw
            &&& code == DD_OK ==> object_handed_out(
                ready,
                after,
                lplpDD,
                if iid == 0 {
                    ready.ddraw.vtable_IDirectDraw
                } else {
                    ready.ddraw.vtable_IDirectDraw7
                },
            )
            &&& code == DD_OK && m.ddraw.hheap == 0 ==> outside_heap(after, lplpDD)
        }),
{
    let (after, code) = spec_direct_draw_create_ex(m, 0, lplpDD, iid, 0)->Ok_0;
    let ready = initialized(m);
    if m.ddraw.hheap == 0 {
        lemma_set_up(m);
        lemma_init(m);
    }
    if code == DD_OK {
        let table = if iid == 0 {
            ready.ddraw.vtable_IDirectDraw
        } else {
            ready.ddraw.vtable_IDirectDraw7
        };
        let (made, object) = spec_new_object(ready, table)->Ok_0;
        lemma_new_object(ready, table);
        let whole = Mem::whole(made.cpu.mem.len());
        lemma_whole(made.cpu.mem.len());
        lemma_whole(m.cpu.mem.len());
        lemma_put_then_get::<u32>(made.cpu.mem, whole, lplpDD, whole, lplpDD, object);
        assert forall|other: u32| #[trigger]
            after.ddraw.surfaces.contains_key(other) implies handed_out(
            after.heaps[after.ddraw.hheap],
            other,
            4,
        ) by {
            assert(made.ddraw.surfaces.contains_key(other));
        }
        if outside_heap(after, lplpDD) {
            lemma_put_elsewhere::<u32, u32>(made.cpu.mem, whole, lplpDD, whole, object, object);
            if tables_intact(ready) {
                lemma_store_keeps_tables(made, after, lplpDD, object);
            }
        }
    }
}

/// `GetSurfaceDesc` succeeds with `DD_OK` and changes two fields at most. In
/// the description at `lpDesc`, the width is that of the surface if the
/// flags ask for the width and else as it was, and so the height. No other
/// byte of guest memory changes, and nothing else of the machine.
pub proof fn lemma_get_surface_desc(m: Machine, this: u32, lpDesc: u32)
    requires
        spec_get_surface_desc(m, this, lpDesc) is Ok,
    ensures
        ({
            let (after, code) = spec_get_surface_desc(m, this, lpDesc)->Ok_0;
            let flags = DDSD { bits: spec_dword(m.cpu.mem, lpDesc, 1) };
            let surface = m.ddraw.surfaces[this];
            &&& code == DD_OK
            &&& after == Machine { cpu: Cpu { mem: after.cpu.mem, ..m.cpu }, ..m }
            &&& after.cpu.mem.len() == m.cpu.mem.len()
            &&& spec_dword(after.cpu.mem, lpDesc, 3) == if flags.spec_contains(DDSD::WIDTH) {
                surface.width
            } else {
                spec_dword(m.cpu.mem, lpDesc, 3)
            }
            &&& spec_dword(after.cpu.mem, lpDesc, 2) == if flags.spec_contains(DDSD::HEIGHT) {
                surface.height
            } else {
                spec_dword(m.cpu.mem, lpDesc, 2)
            }
            &&& forall|a: int|
                0 <= a < m.cpu.mem.len() && !(lpDesc + 8 <= a < lpDesc + 16)
                    ==> after.cpu.mem[a] == m.cpu.mem[a]
        }),
{
    let (after, code) = spec_get_surface_desc(m, this, lpDesc)->Ok_0;
    let flags = DDSD { bits: spec_dword(m.cpu.mem, lpDesc, 1) };
    let surface = m.ddraw.surfaces[this];
    let mem = m.cpu.mem;
    lemma_whole(mem.len());
    u32::lemma_layout(surface.width, surface.width.encoded());
    u32::lemma_layout(surface.height, surface.height.encoded());
    let widened = if flags.spec_contains(DDSD::WIDTH) {
        spec_write::<u32>(mem, (lpDesc + 12) as u32, surface.width)
    } else {
        mem
    };
    assert(widened.len() == mem.len());
    lemma_whole(widened.len());
    if flags.spec_contains(DDSD::WIDTH) {
        assert(widened.subrange(lpDesc + 12, lpDesc + 16) =~= surface.width.encoded());
    }
    assert(after.cpu.mem.subrange(lpDesc + 12, lpDesc + 16) =~= widened.subrange(
        lpDesc + 12,
        lpDesc + 16,
    ));
    if flags.spec_contains(DDSD::HEIGHT) {
        assert(after.cpu.mem.subrange(lpDesc + 8, lpDesc + 12) =~= surface.height.encoded());
    } else {
        assert(after.cpu.mem.subrange(lpDesc + 8, lpDesc + 12) =~= mem.subrange(
            lpDesc + 8,
            lpDesc + 12,
        ));
    }
}

} // verus!
