//! Operand access.
//!
//! An operand that may be a register or memory is resolved to an [`Rm`]: the
//! name of a register, or a guest address. The handle holds no reference.
//! Loads and stores through it go to the machine each time, so a store is
//! seen by every later load of the same place.
use crate::fault::{Fault, StepResult};
use crate::instr::{Instr, OpKind};
use crate::pod::Pod;
use crate::registers::{Register, Registers};
use crate::width::Int;
use crate::x86::{spec_read, spec_write, undecodable, Cpu, Machine, X86};
use vstd::prelude::*;

verus! {

/// An integer width that instructions have operands of.
pub trait Operand: Int + Pod {
    /// The value of register `r`, when `r` is a register of this width.
    spec fn spec_reg(regs: Registers, r: Register) -> Option<Self>;

    /// The registers after `v` is written to `r`, a register of this width.
    spec fn spec_with_reg(regs: Registers, r: Register, v: Self) -> Registers;

    /// A register of this width holds what was last written to it, and a
    /// write to it leaves the instruction pointer and the segment bases
    /// alone.
    proof fn lemma_reg(regs: Registers, r: Register, v: Self)
        requires
            Self::spec_reg(regs, r) is Some,
        ensures
            Self::spec_reg(Self::spec_with_reg(regs, r, v), r) == Some(v),
            Self::spec_with_reg(regs, r, v).eip == regs.eip,
    ;

    fn reg(regs: &Registers, r: Register) -> (v: Option<Self>)
        ensures
            v == Self::spec_reg(*regs, r),
    ;

    /// Writes `v` to `r` and returns true, or returns false and writes
    /// nothing when `r` is no register of this width.
    fn set_reg(regs: &mut Registers, r: Register, v: Self) -> (ok: bool)
        ensures
            ok == Self::spec_reg(*old(regs), r).is_some(),
            ok ==> *final(regs) == Self::spec_with_reg(*old(regs), r, v),
            !ok ==> *final(regs) == *old(regs),
    ;
}

impl Operand for u8 {
    open spec fn spec_reg(regs: Registers, r: Register) -> Option<u8> {
        match r {
            Register::R8(r) => Some(regs.spec_get8(r)),
            _ => None,
        }
    }

    open spec fn spec_with_reg(regs: Registers, r: Register, v: u8) -> Registers {
        match r {
            Register::R8(r) => regs.spec_set8(r, v),
            _ => regs,
        }
    }

    proof fn lemma_reg(regs: Registers, r: Register, v: u8) {
        crate::registers::lemma_set8(regs, r->R8_0, v, r->R8_0.spec_full());
    }

    fn reg(regs: &Registers, r: Register) -> (v: Option<u8>) {
        match r {
            Register::R8(r) => Some(regs.get8(r)),
            _ => None,
        }
    }

    fn set_reg(regs: &mut Registers, r: Register, v: u8) -> (ok: bool) {
        match r {
            Register::R8(r) => {
                regs.set8(r, v);
                true
            },
            _ => false,
        }
    }
}

impl Operand for u16 {
    open spec fn spec_reg(regs: Registers, r: Register) -> Option<u16> {
        match r {
            Register::R16(r) => Some(regs.spec_get16(r)),
            _ => None,
        }
    }

    open spec fn spec_with_reg(regs: Registers, r: Register, v: u16) -> Registers {
        match r {
            Register::R16(r) => regs.spec_set16(r, v),
            _ => regs,
        }
    }

    proof fn lemma_reg(regs: Registers, r: Register, v: u16) {
        crate::registers::lemma_set16(regs, r->R16_0, v, r->R16_0.spec_full());
    }

    fn reg(regs: &Registers, r: Register) -> (v: Option<u16>) {
        match r {
            Register::R16(r) => Some(regs.get16(r)),
            _ => None,
        }
    }

    fn set_reg(regs: &mut Registers, r: Register, v: u16) -> (ok: bool) {
        match r {
            Register::R16(r) => {
                regs.set16(r, v);
                true
            },
            _ => false,
        }
    }
}

impl Operand for u32 {
    open spec fn spec_reg(regs: Registers, r: Register) -> Option<u32> {
        match r {
            Register::R32(r) => Some(regs.spec_get32(r)),
            _ => None,
        }
    }

    open spec fn spec_with_reg(regs: Registers, r: Register, v: u32) -> Registers {
        match r {
            Register::R32(r) => regs.spec_set32(r, v),
            _ => regs,
        }
    }

    proof fn lemma_reg(regs: Registers, r: Register, v: u32) {
    }

    fn reg(regs: &Registers, r: Register) -> (v: Option<u32>) {
        match r {
            Register::R32(r) => Some(regs.get32(r)),
            _ => None,
        }
    }

    fn set_reg(regs: &mut Registers, r: Register, v: u32) -> (ok: bool) {
        match r {
            Register::R32(r) => {
                regs.set32(r, v);
                true
            },
            _ => false,
        }
    }
}

/// Where an operand lives: in a register, or in guest memory at an address.
#[derive(Clone, Copy, Debug, PartialEq, Eq, Structural)]
pub enum Rm {
    Reg(Register),
    Mem(u32),
}

/// What a register contributes to an address: its value, or nothing when the
/// operand names none. Only 32-bit registers form addresses.
pub open spec fn spec_part(regs: Registers, r: Register) -> Option<u32> {
    match r {
        Register::Absent => Some(0),
        Register::R32(r) => Some(regs.spec_get32(r)),
        _ => None,
    }
}

/// The base of the segment that a prefix names, or zero without a prefix.
pub open spec fn spec_segment_base(regs: Registers, r: Register) -> Option<u32> {
    match r {
        Register::Absent => Some(0),
        Register::Seg(s) => Some(regs.spec_base(s)),
        _ => None,
    }
}

/// The address of the memory operand of `instr`: segment base, plus base
/// register, plus index register times scale, plus displacement, in 32
/// bits. `None` when a part of it is not of the kind it must be.
pub open spec fn spec_addr(regs: Registers, instr: Instr) -> Option<u32> {
    match (
        spec_segment_base(regs, instr.segment_prefix),
        spec_part(regs, instr.memory_base),
        spec_part(regs, instr.memory_index),
    ) {
        (Some(segment), Some(base), Some(index)) => Some(
            ((segment + base + index * instr.memory_index_scale + instr.memory_displacement)
                % 0x1_0000_0000) as u32,
        ),
        _ => None,
    }
}

/// The place of an operand of the given kind and register, for an
/// instruction with `I`-wide operands.
pub open spec fn spec_place<I: Operand>(
    cpu: Cpu,
    instr: Instr,
    kind: OpKind,
    register: Register,
) -> Result<Rm, Fault> {
    match kind {
        OpKind::Register => if I::spec_reg(cpu.regs, register) is Some {
            Ok(Rm::Reg(register))
        } else {
            Err(undecodable(cpu))
        },
        OpKind::Memory => match spec_addr(cpu.regs, instr) {
            Some(addr) => Ok(Rm::Mem(addr)),
            None => Err(undecodable(cpu)),
        },
        _ => Err(undecodable(cpu)),
    }
}

/// The place of the destination operand, operand 0.
pub open spec fn spec_rm<I: Operand>(cpu: Cpu, instr: Instr) -> Result<Rm, Fault> {
    spec_place::<I>(cpu, instr, instr.op0_kind, instr.op0_register)
}

/// The place of the source operand, operand 1.
pub open spec fn spec_rm1<I: Operand>(cpu: Cpu, instr: Instr) -> Result<Rm, Fault> {
    spec_place::<I>(cpu, instr, instr.op1_kind, instr.op1_register)
}

/// What a load through a handle returns.
pub open spec fn spec_load<I: Operand>(cpu: Cpu, place: Rm) -> Result<I, Fault> {
    match place {
        Rm::Reg(r) => match I::spec_reg(cpu.regs, r) {
            Some(v) => Ok(v),
            None => Err(undecodable(cpu)),
        },
        Rm::Mem(addr) => spec_read::<I>(cpu.mem, addr),
    }
}

/// The state after a store through a handle. A store that faults, as the
/// load from the same place would, changes nothing.
pub open spec fn spec_store<I: Operand>(cpu: Cpu, place: Rm, v: I) -> Cpu {
    match place {
        Rm::Reg(r) => match I::spec_reg(cpu.regs, r) {
            Some(_) => Cpu { regs: I::spec_with_reg(cpu.regs, r, v), ..cpu },
            None => cpu,
        },
        Rm::Mem(addr) => Cpu { mem: spec_write::<I>(cpu.mem, addr, v), ..cpu },
    }
}

/// The value of the destination operand.
pub open spec fn spec_op0_rm<I: Operand>(cpu: Cpu, instr: Instr) -> Result<I, Fault> {
    match spec_rm::<I>(cpu, instr) {
        Ok(place) => spec_load::<I>(cpu, place),
        Err(f) => Err(f),
    }
}

/// The value of the source operand.
pub open spec fn spec_op1_rm<I: Operand>(cpu: Cpu, instr: Instr) -> Result<I, Fault> {
    match spec_rm1::<I>(cpu, instr) {
        Ok(place) => spec_load::<I>(cpu, place),
        Err(f) => Err(f),
    }
}

fn part(regs: &Registers, r: Register) -> (v: Option<u32>)
    ensures
        v == spec_part(*regs, r),
{
    match r {
        Register::Absent => Some(0),
        Register::R32(r) => Some(regs.get32(r)),
        _ => None,
    }
}

fn segment_base(regs: &Registers, r: Register) -> (v: Option<u32>)
    ensures
        v == spec_segment_base(*regs, r),
{
    match r {
        Register::Absent => Some(0),
        Register::Seg(s) => Some(regs.base(s)),
        _ => None,
    }
}

/// Computes the address of the memory operand.
pub fn addr(regs: &Registers, instr: &Instr) -> (r: Option<u32>)
    ensures
        r == spec_addr(*regs, *instr),
{
    let segment = segment_base(regs, instr.segment_prefix)?;
    let base = part(regs, instr.memory_base)?;
    let index = part(regs, instr.memory_index)?;
    let scaled = index.wrapping_mul(instr.memory_index_scale);
    let sum = segment.wrapping_add(base).wrapping_add(scaled).wrapping_add(
        instr.memory_displacement,
    );
    proof {
        let product = index as nat * instr.memory_index_scale as nat;
        assert(index * instr.memory_index_scale == product) by (nonlinear_arith)
            requires
                product == index as nat * instr.memory_index_scale as nat,
        ;
        assert(scaled == product % 0x1_0000_0000);
        let total = segment + base + product + instr.memory_displacement;
        assert(sum == total % 0x1_0000_0000);
    }
    Some(sum)
}

fn place<I: Operand>(x86: &X86, instr: &Instr, kind: OpKind, register: Register) -> (r:
    StepResult<Rm>)
    ensures
        r == spec_place::<I>(x86.cpu(), *instr, kind, register),
{
    match kind {
        OpKind::Register => match I::reg(&x86.regs, register) {
            Some(_) => Ok(Rm::Reg(register)),
            None => Err(x86.undecodable()),
        },
        OpKind::Memory => match addr(&x86.regs, instr) {
            Some(addr) => Ok(Rm::Mem(addr)),
            None => Err(x86.undecodable()),
        },
        _ => Err(x86.undecodable()),
    }
}

/// Resolves the destination operand of an instruction with `I`-wide
/// operands.
pub fn rm<I: Operand>(x86: &X86, instr: &Instr) -> (r: StepResult<Rm>)
    ensures
        r == spec_rm::<I>(x86.cpu(), *instr),
{
    place::<I>(x86, instr, instr.op0_kind, instr.op0_register)
}

/// Loads the operand that a handle names.
pub fn load<I: Operand>(x86: &X86, place: Rm) -> (r: StepResult<I>)
    ensures
        r == spec_load::<I>(x86.cpu(), place),
{
    match place {
        Rm::Reg(r) => match I::reg(&x86.regs, r) {
            Some(v) => Ok(v),
            None => Err(x86.undecodable()),
        },
        Rm::Mem(addr) => x86.read::<I>(addr),
    }
}

/// Stores to the operand that a handle names. The store faults exactly when
/// a load from the same place would, with the same fault, and then changes
/// nothing.
pub fn store<I: Operand>(x86: &mut X86, place: Rm, v: I) -> (r: StepResult<()>)
    ensures
        final(x86)@ == (Machine { cpu: spec_store::<I>(old(x86).cpu(), place, v), ..old(x86)@ }),
        match r {
            Ok(_) => spec_load::<I>(old(x86).cpu(), place) is Ok,
            Err(f) => spec_load::<I>(old(x86).cpu(), place) == Err::<I, Fault>(f),
        },
{
    match place {
        Rm::Reg(r) => {
            if I::set_reg(&mut x86.regs, r, v) {
                Ok(())
            } else {
                Err(x86.undecodable())
            }
        },
        Rm::Mem(addr) => x86.write::<I>(addr, v),
    }
}

/// Resolves a 32-bit destination operand.
pub fn rm32(x86: &X86, instr: &Instr) -> (r: StepResult<Rm>)
    ensures
        r == spec_rm::<u32>(x86.cpu(), *instr),
{
    rm::<u32>(x86, instr)
}

/// Resolves a 16-bit destination operand.
pub fn rm16(x86: &X86, instr: &Instr) -> (r: StepResult<Rm>)
    ensures
        r == spec_rm::<u16>(x86.cpu(), *instr),
{
    rm::<u16>(x86, instr)
}

/// Resolves an 8-bit destination operand.
pub fn rm8(x86: &X86, instr: &Instr) -> (r: StepResult<Rm>)
    ensures
        r == spec_rm::<u8>(x86.cpu(), *instr),
{
    rm::<u8>(x86, instr)
}

/// The value of the destination operand.
pub fn op0_rm<I: Operand>(x86: &X86, instr: &Instr) -> (r: StepResult<I>)
    ensures
        r == spec_op0_rm::<I>(x86.cpu(), *instr),
{
    let place = place::<I>(x86, instr, instr.op0_kind, instr.op0_register)?;
    load::<I>(x86, place)
}

/// The value of the source operand.
pub fn op1_rm<I: Operand>(x86: &X86, instr: &Instr) -> (r: StepResult<I>)
    ensures
        r == spec_op1_rm::<I>(x86.cpu(), *instr),
{
    let place = place::<I>(x86, instr, instr.op1_kind, instr.op1_register)?;
    load::<I>(x86, place)
}

pub fn op0_rm32(x86: &X86, instr: &Instr) -> (r: StepResult<u32>)
    ensures
        r == spec_op0_rm::<u32>(x86.cpu(), *instr),
{
    op0_rm::<u32>(x86, instr)
}

pub fn op1_rm32(x86: &X86, instr: &Instr) -> (r: StepResult<u32>)
    ensures
        r == spec_op1_rm::<u32>(x86.cpu(), *instr),
{
    op1_rm::<u32>(x86, instr)
}

pub fn op1_rm16(x86: &X86, instr: &Instr) -> (r: StepResult<u16>)
    ensures
        r == spec_op1_rm::<u16>(x86.cpu(), *instr),
{
    op1_rm::<u16>(x86, instr)
}

pub fn op1_rm8(x86: &X86, instr: &Instr) -> (r: StepResult<u8>)
    ensures
        r == spec_op1_rm::<u8>(x86.cpu(), *instr),
{
    op1_rm::<u8>(x86, instr)
}

/// A value stored through a handle is what a load through the same handle
/// returns afterwards.
pub proof fn lemma_store_then_load<I: Operand>(cpu: Cpu, place: Rm, v: I)
    requires
        spec_load::<I>(cpu, place) is Ok,
    ensures
        spec_load::<I>(spec_store::<I>(cpu, place, v), place) == Ok::<I, Fault>(v),
{
    match place {
        Rm::Reg(r) => {
            I::lemma_reg(cpu.regs, r, v);
        },
        Rm::Mem(addr) => {
            let window = crate::mem::Mem::whole(cpu.mem.len());
            crate::mem::lemma_put_then_get::<I>(cpu.mem, window, addr, window, addr, v);
        },
    }
}

/// A value written to the destination operand of an instruction is what a
/// read of its source operand returns afterwards, when the two are the same
/// operand.
pub proof fn lemma_write_visible<I: Operand>(cpu: Cpu, instr: Instr, v: I)
    requires
        instr.op0_kind == instr.op1_kind,
        instr.op0_register == instr.op1_register,
        spec_op0_rm::<I>(cpu, instr) is Ok,
    ensures
        spec_op1_rm::<I>(spec_store::<I>(cpu, spec_rm::<I>(cpu, instr)->Ok_0, v), instr) == Ok::<
            I,
            Fault,
        >(v),
{
    let place = spec_rm::<I>(cpu, instr)->Ok_0;
    lemma_store_then_load::<I>(cpu, place, v);
    let after = spec_store::<I>(cpu, place, v);
    match place {
        Rm::Reg(r) => {
            I::lemma_reg(cpu.regs, r, v);
        },
        Rm::Mem(addr) => {
            assert(after.regs == cpu.regs);
        },
    }
}

} // verus!
