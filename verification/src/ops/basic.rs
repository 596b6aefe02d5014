//! Data movement.
use crate::fault::{Fault, StepResult};
use crate::instr::Instr;
use crate::ops::helpers::{
    load, op1_rm32, rm, spec_op0_rm, spec_op1_rm, spec_rm, spec_store, store, Operand,
};
use crate::ops::math::{reg1, spec_reg1, step_is};
use crate::x86::{Cpu, X86};
use vstd::prelude::*;

verus! {

/// What a move of `y` to the destination operand does: the operand holds
/// `y` afterwards and no flag changes. A destination that cannot be read
/// cannot be written: the move then raises the fault the read would.
pub open spec fn spec_mov<I: Operand>(cpu: Cpu, instr: Instr, y: Result<I, Fault>) -> Result<
    Cpu,
    Fault,
> {
    match y {
        Err(f) => Err(f),
        Ok(y) => match spec_op0_rm::<I>(cpu, instr) {
            Err(f) => Err(f),
            Ok(_) => Ok(spec_store::<I>(cpu, spec_rm::<I>(cpu, instr)->Ok_0, y)),
        },
    }
}

fn mov<I: Operand>(x86: &mut X86, instr: &Instr, y: I) -> (r: StepResult<()>)
    ensures
        step_is(*old(x86), *final(x86), r, spec_mov::<I>(old(x86).cpu(), *instr, Ok(y))),
{
    let place = rm::<I>(x86, instr)?;
    let _ = load::<I>(x86, place)?;
    store::<I>(x86, place, y)
}

/// `MOV` to a register from a register or memory operand.
pub fn mov_r32_rm32(x86: &mut X86, instr: &Instr) -> (r: StepResult<()>)
    ensures
        step_is(
            *old(x86),
            *final(x86),
            r,
            spec_mov::<u32>(old(x86).cpu(), *instr, spec_op1_rm::<u32>(old(x86).cpu(), *instr)),
        ),
{
    let y = op1_rm32(x86, instr)?;
    mov::<u32>(x86, instr, y)
}

/// `MOV` to a register or memory operand from a register.
pub fn mov_rm32_r32(x86: &mut X86, instr: &Instr) -> (r: StepResult<()>)
    ensures
        step_is(
            *old(x86),
            *final(x86),
            r,
            spec_mov::<u32>(old(x86).cpu(), *instr, spec_reg1::<u32>(old(x86).cpu(), *instr)),
        ),
{
    let y = reg1::<u32>(x86, instr)?;
    mov::<u32>(x86, instr, y)
}

/// `MOV` of a 32-bit immediate to a register.
pub fn mov_r32_imm32(x86: &mut X86, instr: &Instr) -> (r: StepResult<()>)
    ensures
        step_is(
            *old(x86),
            *final(x86),
            r,
            spec_mov::<u32>(old(x86).cpu(), *instr, Ok(instr.spec_immediate32())),
        ),
{
    let y = instr.immediate32();
    mov::<u32>(x86, instr, y)
}

/// `MOV` of a 32-bit immediate to a register or memory operand.
pub fn mov_rm32_imm32(x86: &mut X86, instr: &Instr) -> (r: StepResult<()>)
    ensures
        step_is(
            *old(x86),
            *final(x86),
            r,
            spec_mov::<u32>(old(x86).cpu(), *instr, Ok(instr.spec_immediate32())),
        ),
{
    let y = instr.immediate32();
    mov::<u32>(x86, instr, y)
}

} // verus!
