//! Method tables in guest memory.
//!
//! The guest calls a method of a host object through the object's first
//! dword, which points to a table of addresses, one per method in the order
//! the interface fixes. Each address is the trampoline of the method's shim.
use crate::fault::{Fault, StepResult};
use crate::mem::{lemma_whole, Mem};
use crate::pod::Pod;
use crate::shims::{
    spec_lookup, trampoline, Func, Handler, Shim, TRAMPOLINE_BASE, TRAMPOLINE_COUNT,
};
use crate::winapi::kernel32::State;
use crate::x86::{spec_read, Cpu, Machine, X86};
use vstd::prelude::*;

verus! {

/// A method of an interface: its name, and the host function behind it if
/// there is one.
#[derive(Clone, Copy, Debug, PartialEq, Eq)]
pub struct Method {
    pub name: &'static str,
    pub func: Option<Func>,
}

/// The shim of a method. A method without a host function gets one that
/// reports the method as unimplemented.
pub open spec fn shim_for(interface: &'static str, method: Method) -> Shim {
    Shim {
        name: method.name,
        func: Handler::Sync(
            match method.func {
                Some(func) => func,
                None => Func::Unimplemented { dll: interface, func: method.name },
            },
        ),
    }
}

/// The shims of the first `count` methods, in order.
pub open spec fn shims_for(interface: &'static str, methods: Seq<Method>, count: int) -> Seq<
    Shim,
> {
    Seq::new(count as nat, |i: int| shim_for(interface, methods[i]))
}

/// Guest memory with a table of `count` entries at `table`: entry `i` holds
/// the trampoline address of the shim at position `first + i`.
#[verifier::opaque]
pub open spec fn with_table(mem: Seq<u8>, table: u32, first: int, count: int) -> Seq<u8> {
    Seq::new(
        mem.len(),
        |a: int|
            if table <= a < table + 4 * count {
                trampoline(first + (a - table) / 4).encoded()[(a - table) % 4]
            } else {
                mem[a]
            },
    )
}

/// Whether a table of `count` entries can be made in the heap `heap`: the
/// trampoline range must have `count` free addresses and the heap room for
/// the entries.
pub open spec fn can_build(m: Machine, heap: u32, count: nat) -> bool {
    &&& m.shims.len() + count <= TRAMPOLINE_COUNT
    &&& State::spec_allocate(m.heaps, m.cpu.mem.len(), heap, (4 * count) as u32) is Ok
}

/// The fault of a table that cannot be made: the trampoline range is
/// exhausted, or else the heap.
pub open spec fn build_fault(m: Machine, heap: u32, count: nat) -> Fault {
    if m.shims.len() + count > TRAMPOLINE_COUNT {
        Fault::HeapExhausted { heap: TRAMPOLINE_BASE }
    } else {
        Fault::HeapExhausted { heap }
    }
}

/// The machine after a table for `methods` has been made at `table`.
pub open spec fn with_vtable(
    m: Machine,
    heap: u32,
    interface: &'static str,
    methods: Seq<Method>,
    table: u32,
) -> Machine {
    Machine {
        cpu: Cpu {
            mem: with_table(m.cpu.mem, table, m.shims.len() as int, methods.len() as int),
            ..m.cpu
        },
        heaps: State::spec_after_allocate(
            m.heaps,
            m.cpu.mem.len(),
            heap,
            (4 * methods.len()) as u32,
        ),
        shims: m.shims + shims_for(interface, methods, methods.len() as int),
        ..m
    }
}

/// A table changes not how much memory there is.
pub proof fn lemma_table_len(mem: Seq<u8>, table: u32, first: int, count: int)
    ensures
        with_table(mem, table, first, count).len() == mem.len(),
{
    reveal(with_table);
}

/// A table changes no byte of memory outside itself.
pub proof fn lemma_table_frame(mem: Seq<u8>, table: u32, first: int, count: int, a: int)
    requires
        0 <= a < mem.len(),
        a < table || a >= table + 4 * count,
    ensures
        with_table(mem, table, first, count)[a] == mem[a],
{
    reveal(with_table);
}

/// A load of a dword that lies outside a table returns what it returned
/// before the table was built.
pub proof fn lemma_table_elsewhere(mem: Seq<u8>, table: u32, first: int, count: int, a: u32)
    requires
        a + 4 <= table || table + 4 * count <= a,
    ensures
        spec_read::<u32>(with_table(mem, table, first, count), a) == spec_read::<u32>(mem, a),
{
    let after = with_table(mem, table, first, count);
    lemma_table_len(mem, table, first, count);
    lemma_whole(mem.len());
    if a + 4 <= mem.len() {
        assert forall|j: int| a <= j < a + 4 implies after[j] == mem[j] by {
            lemma_table_frame(mem, table, first, count, j);
        }
        assert(after.subrange(a as int, a + 4) =~= mem.subrange(a as int, a + 4));
    }
}

/// Each entry of a table reads as the trampoline address of its method.
pub proof fn lemma_table_entry(mem: Seq<u8>, table: u32, first: int, count: int, i: int)
    requires
        0 <= i < count,
        table + 4 * count <= mem.len(),
        table + 4 * count <= u32::MAX,
        0 <= first,
        first + count <= TRAMPOLINE_COUNT,
    ensures
        spec_read::<u32>(with_table(mem, table, first, count), (table + 4 * i) as u32) == Ok::<
            u32,
            Fault,
        >(trampoline(first + i)),
{
    reveal(with_table);
    let after = with_table(mem, table, first, count);
    let at = table + 4 * i;
    let word = trampoline(first + i);
    lemma_whole(after.len());
    u32::lemma_layout(word, word.encoded());
    assert(after.subrange(at, at + 4) =~= word.encoded());
}

/// The shape of a method table. Once the table of an interface is built,
/// entry `i`, at offset `4 * i`, holds the trampoline address of method `i`,
/// and that address leads to the method's shim.
pub proof fn lemma_vtable_shape(
    m: Machine,
    heap: u32,
    interface: &'static str,
    methods: Seq<Method>,
    table: u32,
    i: int,
)
    requires
        can_build(m, heap, methods.len()),
        Ok::<u32, Fault>(table) == State::spec_allocate(
            m.heaps,
            m.cpu.mem.len(),
            heap,
            (4 * methods.len()) as u32,
        ),
        0 <= i < methods.len(),
    ensures
        ({
            let built = with_vtable(m, heap, interface, methods, table);
            let entry = trampoline(m.shims.len() + i);
            &&& spec_read::<u32>(built.cpu.mem, (table + 4 * i) as u32) == Ok::<u32, Fault>(entry)
            &&& spec_lookup(built.shims, entry) == Some(shim_for(interface, methods[i]))
        }),
{
    lemma_table_entry(m.cpu.mem, table, m.shims.len() as int, methods.len() as int, i);
    let built = with_vtable(m, heap, interface, methods, table);
    crate::shims::lemma_lookup(built.shims, m.shims.len() + i, m.shims.len() + i);
}

/// The shape of a host object. An object made in the heap of a method table
/// right after the table holds the table's address in its first dword, and
/// through it the guest finds method `i` at offset `4 * i`: the making of
/// the object has not touched the table.
pub proof fn lemma_object_shape(
    m: Machine,
    heap: u32,
    interface: &'static str,
    methods: Seq<Method>,
    table: u32,
    i: int,
)
    requires
        can_build(m, heap, methods.len()),
        m.ddraw.hheap == heap,
        Ok::<u32, Fault>(table) == State::spec_allocate(
            m.heaps,
            m.cpu.mem.len(),
            heap,
            (4 * methods.len()) as u32,
        ),
        0 <= i < methods.len(),
        crate::winapi::ddraw::spec_new_object(
            with_vtable(m, heap, interface, methods, table),
            table,
        ) is Ok,
    ensures
        ({
            let built = with_vtable(m, heap, interface, methods, table);
            let (made, object) = crate::winapi::ddraw::spec_new_object(built, table)->Ok_0;
            let entry = trampoline(m.shims.len() + i);
            &&& spec_read::<u32>(made.cpu.mem, object) == Ok::<u32, Fault>(table)
            &&& spec_read::<u32>(made.cpu.mem, (table + 4 * i) as u32) == Ok::<u32, Fault>(entry)
            &&& spec_lookup(made.shims, entry) == Some(shim_for(interface, methods[i]))
        }),
{
    lemma_vtable_shape(m, heap, interface, methods, table, i);
    lemma_table_len(m.cpu.mem, table, m.shims.len() as int, methods.len() as int);
    let built = with_vtable(m, heap, interface, methods, table);
    let (made, object) = crate::winapi::ddraw::spec_new_object(built, table)->Ok_0;
    let window = Mem::whole(built.cpu.mem.len());
    lemma_whole(built.cpu.mem.len());
    crate::mem::lemma_put_then_get::<u32>(built.cpu.mem, window, object, window, object, table);
    crate::mem::lemma_put_elsewhere::<u32, u32>(
        built.cpu.mem,
        window,
        object,
        window,
        (table + 4 * i) as u32,
        table,
    );
}

/// Builds the method table of an interface in the heap `heap` and returns
/// its address. Every method gets a shim and a trampoline address, and
/// entry `i` of the table, four bytes wide, holds the address of method
/// `i`. When the table cannot be made nothing changes.
#[verifier::rlimit(50)]
pub fn vtable(x86: &mut X86, heap: u32, interface: &'static str, methods: &Vec<Method>) -> (r:
    StepResult<u32>)
    ensures
        match r {
            Ok(table) => {
                &&& can_build(old(x86)@, heap, methods@.len())
                &&& Ok::<u32, Fault>(table) == State::spec_allocate(
                    old(x86)@.heaps,
                    old(x86).mem@.len(),
                    heap,
                    (4 * methods@.len()) as u32,
                )
                &&& final(x86)@ == with_vtable(old(x86)@, heap, interface, methods@, table)
            },
            Err(f) => {
                &&& !can_build(old(x86)@, heap, methods@.len())
                &&& f == build_fault(old(x86)@, heap, methods@.len())
                &&& final(x86)@ == old(x86)@
            },
        },
{
    let count = methods.len();
    if count > x86.shims.room() as usize || x86.shims.list.len() > TRAMPOLINE_COUNT as usize {
        return Err(Fault::HeapExhausted { heap: TRAMPOLINE_BASE });
    }
    let table = match x86.state.kernel32.allocate(x86.mem.as_slice(), heap, (count * 4) as u32) {
        Ok(table) => table,
        Err(_) => {
            return Err(Fault::HeapExhausted { heap });
        },
    };
    let ghost before = x86@;
    let ghost first = x86.shims@.len() as int;
    proof {
        reveal(with_table);
        assert(with_table(before.cpu.mem, table, first, 0) =~= before.cpu.mem);
        assert(before.shims + shims_for(interface, methods@, 0) =~= before.shims);
    }
    let mut i: usize = 0;
    while i < count
        invariant
            i <= count == methods@.len(),
            first + count <= TRAMPOLINE_COUNT,
            table + 4 * count <= before.cpu.mem.len(),
            table + 4 * count <= u32::MAX,
            first == before.shims.len(),
            x86@ == (Machine {
                cpu: Cpu { mem: with_table(before.cpu.mem, table, first, i as int), ..before.cpu },
                shims: before.shims + shims_for(interface, methods@, i as int),
                ..before
            }),
        decreases count - i,
    {
        let method = methods[i];
        let func = match method.func {
            Some(func) => func,
            None => Func::Unimplemented { dll: interface, func: method.name },
        };
        let addr = match x86.shims.add(Shim { name: method.name, func: Handler::Sync(func) }) {
            Some(addr) => addr,
            None => {
                return Err(Fault::HeapExhausted { heap: TRAMPOLINE_BASE });
            },
        };
        let at = table + 4 * i as u32;
        let ghost mem = x86.mem@;
        let _ = x86.write_u32(at, addr);
        proof {
            reveal(with_table);
            lemma_whole(mem.len());
            u32::lemma_layout(addr, addr.encoded());
            assert(x86.mem@ =~= with_table(before.cpu.mem, table, first, i + 1));
            assert(x86.shims@ =~= before.shims + shims_for(interface, methods@, i + 1));
        }
        i = i + 1;
    }
    Ok(table)
}

} // verus!
