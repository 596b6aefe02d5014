//! The machine: registers, flags and guest memory.
use crate::fault::{Fault, StepResult};
use crate::flags::Flags;
use crate::host::{Host, HostCall};
use crate::mem::Mem;
use crate::pod::Pod;
use crate::registers::Registers;
use crate::shims::{Shim, Shims};
use crate::winapi::ddraw::Model;
use crate::winapi::gdi32::DC;
use crate::winapi::kernel32::Heap;
use crate::winapi::State;
use vstd::prelude::*;

verus! {

/// The state that instructions act on, as a value: the registers, the flags
/// and the bytes of guest memory.
#[verifier::ext_equal]
pub struct Cpu {
    pub regs: Registers,
    pub flags: Flags,
    pub mem: Seq<u8>,
}

/// The whole machine as a value.
#[verifier::ext_equal]
pub struct Machine {
    pub cpu: Cpu,
    /// The heaps, by handle.
    pub heaps: Map<u32, Heap>,
    pub ddraw: Model,
    /// The device contexts.
    pub dcs: Seq<DC>,
    /// The requests that wait for the host.
    pub host: Seq<HostCall>,
    /// The answer that the host has left for the next call that only it can
    /// serve.
    pub answer: Option<u32>,
    /// The host functions that have a trampoline.
    pub shims: Seq<Shim>,
}

/// The machine: the processor, guest memory, and what the host keeps for
/// the guest process.
pub struct X86 {
    pub mem: Vec<u8>,
    pub regs: Registers,
    pub flags: Flags,
    pub state: State,
    pub host: Host,
    pub shims: Shims,
}

impl View for X86 {
    type V = Machine;

    open spec fn view(&self) -> Machine {
        Machine {
            cpu: self.cpu(),
            heaps: self.state.kernel32@,
            ddraw: self.state.ddraw@,
            dcs: self.state.gdi32@,
            host: self.host@,
            answer: self.host.answer,
            shims: self.shims@,
        }
    }
}

/// The byte `i` places after `eip`, or zero where memory ends before it.
pub open spec fn byte_after(mem: Seq<u8>, eip: u32, i: int) -> u8 {
    if eip + i < mem.len() {
        mem[eip + i]
    } else {
        0
    }
}

/// The fifteen bytes of guest memory from `eip` on, zero where memory ends
/// before that.
pub open spec fn spec_fetch(mem: Seq<u8>, eip: u32) -> [u8; 15] {
    [
        byte_after(mem, eip, 0),
        byte_after(mem, eip, 1),
        byte_after(mem, eip, 2),
        byte_after(mem, eip, 3),
        byte_after(mem, eip, 4),
        byte_after(mem, eip, 5),
        byte_after(mem, eip, 6),
        byte_after(mem, eip, 7),
        byte_after(mem, eip, 8),
        byte_after(mem, eip, 9),
        byte_after(mem, eip, 10),
        byte_after(mem, eip, 11),
        byte_after(mem, eip, 12),
        byte_after(mem, eip, 13),
        byte_after(mem, eip, 14),
    ]
}

/// The fault of an instruction that cannot be executed at the current
/// instruction pointer.
pub open spec fn undecodable(cpu: Cpu) -> Fault {
    Fault::DecodeError { eip: cpu.regs.eip, bytes: spec_fetch(cpu.mem, cpu.regs.eip) }
}

/// What a load of a `T` from guest address `addr` returns.
pub open spec fn spec_read<T: Pod>(mem: Seq<u8>, addr: u32) -> Result<T, Fault> {
    Mem::whole(mem.len()).spec_get::<T>(mem, addr)
}

/// Guest memory after a store of `val` to guest address `addr`.
pub open spec fn spec_write<T: Pod>(mem: Seq<u8>, addr: u32, val: T) -> Seq<u8> {
    Mem::whole(mem.len()).spec_put::<T>(mem, addr, val)
}

impl X86 {
    /// The state as a value.
    pub open spec fn cpu(self) -> Cpu {
        Cpu { regs: self.regs, flags: self.flags, mem: self.mem@ }
    }

    /// A machine over the given memory, with every register zero, no flag
    /// set, and nothing kept for the guest yet.
    pub fn new(mem: Vec<u8>) -> (x86: X86)
        ensures
            x86@ == (Machine {
                cpu: Cpu { regs: Registers::spec_new(), flags: Flags::spec_empty(), mem: mem@ },
                heaps: Map::empty(),
                ddraw: Model::empty(),
                dcs: Seq::empty(),
                host: Seq::empty(),
                answer: None,
                shims: Seq::empty(),
            }),
    {
        X86 {
            mem,
            regs: Registers::new(),
            flags: Flags::empty(),
            state: State::new(),
            host: Host::new(),
            shims: Shims::new(),
        }
    }

    fn byte_after(&self, i: u32) -> (b: u8)
        requires
            i < 15,
        ensures
            b == byte_after(self.mem@, self.regs.eip, i as int),
    {
        let at: u64 = self.regs.eip as u64 + i as u64;
        if at < self.mem.len() as u64 {
            self.mem[at as usize]
        } else {
            0
        }
    }

    /// The bytes at the instruction pointer.
    pub fn fetch(&self) -> (bytes: [u8; 15])
        ensures
            bytes == spec_fetch(self.mem@, self.regs.eip),
    {
        [
            self.byte_after(0),
            self.byte_after(1),
            self.byte_after(2),
            self.byte_after(3),
            self.byte_after(4),
            self.byte_after(5),
            self.byte_after(6),
            self.byte_after(7),
            self.byte_after(8),
            self.byte_after(9),
            self.byte_after(10),
            self.byte_after(11),
            self.byte_after(12),
            self.byte_after(13),
            self.byte_after(14),
        ]
    }

    /// The fault of an instruction that cannot be executed where the
    /// instruction pointer stands.
    pub fn undecodable(&self) -> (f: Fault)
        ensures
            f == undecodable(self.cpu()),
    {
        Fault::DecodeError { eip: self.regs.eip, bytes: self.fetch() }
    }

    /// Loads a value from guest memory.
    pub fn read<T: Pod>(&self, addr: u32) -> (r: StepResult<T>)
        ensures
            r == spec_read::<T>(self.mem@, addr),
    {
        Mem::from_slice(self.mem.as_slice()).get::<T>(self.mem.as_slice(), addr)
    }

    /// Stores a value to guest memory. On a fault nothing is stored.
    pub fn write<T: Pod>(&mut self, addr: u32, val: T) -> (r: StepResult<()>)
        ensures
            final(self)@ == (Machine {
                cpu: Cpu { mem: spec_write(old(self).mem@, addr, val), ..old(self).cpu() },
                ..old(self)@
            }),
            r is Ok <==> spec_read::<T>(old(self).mem@, addr) is Ok,
            r matches Err(f) ==> spec_read::<T>(old(self).mem@, addr) == Err::<T, Fault>(f),
    {
        let window = Mem::from_slice(self.mem.as_slice());
        window.put(&mut self.mem, addr, val)
    }

    pub fn read_u32(&self, addr: u32) -> (r: StepResult<u32>)
        ensures
            r == spec_read::<u32>(self.mem@, addr),
    {
        self.read::<u32>(addr)
    }

    pub fn write_u32(&mut self, addr: u32, val: u32) -> (r: StepResult<()>)
        ensures
            final(self)@ == (Machine {
                cpu: Cpu { mem: spec_write(old(self).mem@, addr, val), ..old(self).cpu() },
                ..old(self)@
            }),
            r is Ok <==> spec_read::<u32>(old(self).mem@, addr) is Ok,
            r matches Err(f) ==> spec_read::<u32>(old(self).mem@, addr) == Err::<u32, Fault>(f),
    {
        self.write::<u32>(addr, val)
    }
}

} // verus!
