//! Heaps in guest memory.
use crate::fault::{Fault, StepResult};
use std::collections::HashMap;
use vstd::prelude::*;

verus! {

broadcast use vstd::std_specs::hash::group_hash_axioms;

/// A heap: a reservation of `size` bytes of guest memory at `addr`, handed
/// out from the front. Nothing is ever taken back.
#[derive(Clone, Copy, Debug, PartialEq, Eq, Structural)]
pub struct Heap {
    pub addr: u32,
    pub size: u32,
    /// How many bytes of the reservation are in use.
    pub next: u32,
}

/// The heaps of the guest process, by handle. The handle of a heap is the
/// address of its reservation.
pub struct State {
    pub heaps: HashMap<u32, Heap>,
}

impl View for State {
    type V = Map<u32, Heap>;

    open spec fn view(&self) -> Map<u32, Heap> {
        self.heaps@
    }
}

/// `mem` grown to `len` bytes with zeros.
pub open spec fn grown(mem: Seq<u8>, len: int) -> Seq<u8> {
    Seq::new(
        len as nat,
        |i: int|
            if i < mem.len() {
                mem[i]
            } else {
                0u8
            },
    )
}

/// `n` rounded up to a multiple of four.
pub open spec fn align4(n: int) -> int {
    (n + 3) / 4 * 4
}

/// The lowest address at which a new reservation may begin: past the end of
/// memory, on a multiple of four, and not in the first page.
pub open spec fn spec_break(mem_len: nat) -> int {
    if mem_len < 0x1000 {
        0x1000
    } else {
        align4(mem_len as int)
    }
}

impl Heap {
    /// Where the next block begins: the first multiple of four past what is
    /// in use.
    pub open spec fn spec_block(self) -> int {
        align4(self.addr + self.next)
    }

    /// Whether a block of `size` bytes can be handed out: it must end inside
    /// the reservation and inside guest memory.
    pub open spec fn has_room(self, mem_len: nat, size: u32) -> bool {
        &&& self.spec_block() + size <= self.addr + self.size
        &&& self.spec_block() + size <= mem_len
        &&& self.spec_block() + size <= u32::MAX
    }

    /// The heap after a block of `size` bytes has been handed out.
    pub open spec fn spec_after(self, size: u32) -> Heap {
        Heap { next: (self.spec_block() + size - self.addr) as u32, ..self }
    }

    /// Hands out a block of `size` bytes and returns its address, which is
    /// a multiple of four. The block lies in guest memory, inside the
    /// reservation and past everything handed out before. Without room for
    /// it the heap stays as it is.
    pub fn allocate(&mut self, mem: &[u8], size: u32) -> (r: StepResult<u32>)
        ensures
            match r {
                Ok(block) => {
                    &&& old(self).has_room(mem@.len(), size)
                    &&& block == old(self).spec_block()
                    &&& block % 4 == 0
                    &&& *final(self) == old(self).spec_after(size)
                },
                Err(f) => {
                    &&& !old(self).has_room(mem@.len(), size)
                    &&& f == Fault::HeapExhausted { heap: old(self).addr }
                    &&& *final(self) == *old(self)
                },
            },
    {
        let used: u64 = self.addr as u64 + self.next as u64;
        let block: u64 = (used + 3) / 4 * 4;
        let end: u64 = block + size as u64;
        if end > self.addr as u64 + self.size as u64 || end > mem.len() as u64 || end
            > u32::MAX as u64 {
            return Err(Fault::HeapExhausted { heap: self.addr });
        }
        self.next = (end - self.addr as u64) as u32;
        Ok(block as u32)
    }

    /// Gives a block back. The heap keeps no record of it: the call does
    /// nothing.
    pub fn free(&mut self, block: u32)
        ensures
            *final(self) == *old(self),
    {
    }
}

impl State {
    pub fn new() -> (state: State)
        ensures
            state@ == Map::<u32, Heap>::empty(),
    {
        State { heaps: HashMap::new() }
    }

    /// Whether a heap of `size` bytes can be made: its reservation must end
    /// within the 32-bit address space.
    pub open spec fn can_reserve(mem_len: nat, size: u32) -> bool {
        spec_break(mem_len) + size <= u32::MAX
    }

    /// Makes a heap of `size` bytes and returns its handle. The reservation
    /// is new guest memory past the end of what there was; the bytes that
    /// were there stay.
    pub fn new_heap(&mut self, mem: &mut Vec<u8>, size: u32) -> (r: StepResult<u32>)
        ensures
            match r {
                Ok(heap) => {
                    &&& Self::can_reserve(old(mem)@.len(), size)
                    &&& heap == spec_break(old(mem)@.len())
                    &&& heap != 0
                    &&& final(mem)@ == grown(old(mem)@, heap + size)
                    &&& final(self)@ == old(self)@.insert(
                        heap,
                        Heap { addr: heap, size, next: 0 },
                    )
                },
                Err(f) => {
                    &&& !Self::can_reserve(old(mem)@.len(), size)
                    &&& f == Fault::HeapExhausted { heap: 0 }
                    &&& final(mem)@ == old(mem)@
                    &&& final(self)@ == old(self)@
                },
            },
    {
        let len = mem.len();
        if len as u64 > u32::MAX as u64 {
            return Err(Fault::HeapExhausted { heap: 0 });
        }
        let addr: u64 = if len < 0x1000 {
            0x1000
        } else {
            (len as u64 + 3) / 4 * 4
        };
        let end: u64 = addr + size as u64;
        if end > u32::MAX as u64 {
            return Err(Fault::HeapExhausted { heap: 0 });
        }
        let ghost before = mem@;
        mem.resize(end as usize, 0u8);
        proof {
            assert forall|i: int| before.len() <= i < end implies mem@[i] == 0u8 by {
                assert(vstd::pervasive::cloned::<u8>(0u8, mem@[i]));
            }
            assert forall|i: int| 0 <= i < before.len() implies mem@[i] == before[i] by {
                assert(mem@.subrange(0, before.len() as int)[i] == before[i]);
            }
            assert(mem@ =~= grown(before, end as int));
        }
        self.heaps.insert(addr as u32, Heap { addr: addr as u32, size, next: 0 });
        Ok(addr as u32)
    }

    /// The heap with the given handle.
    pub fn heap(&self, handle: u32) -> (r: Option<Heap>)
        ensures
            match r {
                Some(heap) => self@.contains_key(handle) && self@[handle] == heap,
                None => !self@.contains_key(handle),
            },
    {
        match self.heaps.get(&handle) {
            Some(heap) => Some(*heap),
            None => None,
        }
    }

    /// What [`State::allocate`] returns.
    pub open spec fn spec_allocate(heaps: Map<u32, Heap>, mem_len: nat, handle: u32, size: u32)
        -> Result<u32, Fault> {
        if heaps.contains_key(handle) && heaps[handle].has_room(mem_len, size) {
            Ok(heaps[handle].spec_block() as u32)
        } else {
            Err(Fault::HeapExhausted { heap: handle })
        }
    }

    /// The heaps after [`State::allocate`].
    pub open spec fn spec_after_allocate(
        heaps: Map<u32, Heap>,
        mem_len: nat,
        handle: u32,
        size: u32,
    ) -> Map<u32, Heap> {
        if heaps.contains_key(handle) && heaps[handle].has_room(mem_len, size) {
            heaps.insert(handle, heaps[handle].spec_after(size))
        } else {
            heaps
        }
    }

    /// Hands out a block of `size` bytes from the heap with the given
    /// handle. A handle that names no heap is a heap without room.
    pub fn allocate(&mut self, mem: &[u8], handle: u32, size: u32) -> (r: StepResult<u32>)
        ensures
            r == Self::spec_allocate(old(self)@, mem@.len(), handle, size),
            final(self)@ == Self::spec_after_allocate(old(self)@, mem@.len(), handle, size),
            r matches Ok(block) ==> block % 4 == 0 && block + size <= mem@.len(),
    {
        let mut heap = match self.heap(handle) {
            Some(heap) => heap,
            None => {
                return Err(Fault::HeapExhausted { heap: handle });
            },
        };
        match heap.allocate(mem, size) {
            Ok(block) => {
                self.heaps.insert(handle, heap);
                Ok(block)
            },
            Err(_) => Err(Fault::HeapExhausted { heap: handle }),
        }
    }
}

} // verus!
