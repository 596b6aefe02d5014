//! The step loop: fetch, decode, execute, advance.
use crate::dispatch::{dispatch, dispatch_is, spec_dispatch};
use crate::fault::{Fault, StepResult};
use crate::shims::{Func, TRAMPOLINE_BASE};
use crate::instr::{decode, decoded, Code, Instr};
use crate::ops::basic::{mov_r32_imm32, mov_r32_rm32, mov_rm32_imm32, mov_rm32_r32, spec_mov};
use crate::ops::helpers::spec_op1_rm;
use crate::ops::math::{
    adc_rm8_imm8,
    adc_rm8_r8,
    add_r16_rm16,
    add_r32_rm32,
    add_r8_rm8,
    add_rm16_imm8,
    add_rm32_imm32,
    add_rm32_imm8,
    add_rm32_r32,
    add_rm8_imm8,
    add_rm8_r8,
    and_r32_rm32,
    and_rm16_imm16,
    and_rm32_imm32,
    and_rm32_imm8,
    and_rm32_r32,
    and_rm8_imm8,
    dec_rm32,
    dec_rm8,
    div_rm32,
    idiv_rm32,
    imul_r32_rm32,
    imul_r32_rm32_imm32,
    imul_r32_rm32_imm8,
    imul_rm32,
    inc_rm32,
    inc_rm8,
    neg_rm32,
    neg_rm8,
    not_rm32,
    or_rm16_imm16,
    or_rm32_imm32,
    or_rm32_imm8,
    or_rm32_rm32,
    or_rm8_imm8,
    ror_rm32_cl,
    ror_rm32_imm8,
    sar_rm32_cl,
    sar_rm32_imm8,
    sar_rm8_imm8,
    sbb_r32_rm32,
    sbb_r8_imm8,
    sbb_r8_rm8,
    sbb_rm32_imm8,
    sbb_rm32_r32,
    shl_rm32_cl,
    shl_rm32_imm8,
    shl_rm8_cl,
    shl_rm8_imm8,
    shr_rm32_1,
    shr_rm32_cl,
    shr_rm32_imm8,
    shr_rm8_imm8,
    sub_r32_rm32,
    sub_r8_rm8,
    sub_rm32_imm32,
    sub_rm32_imm8,
    sub_rm32_r32,
    sub_rm8_imm8,
    xor_r8_rm8,
    xor_rm32_imm32,
    xor_rm32_imm8,
    xor_rm32_rm32,
    xor_rm8_imm8,
    xor_rm8_r8,
    spec_binary, spec_div_rm32, spec_idiv_rm32, spec_imul_r32_rm32, spec_imul_r32_rm32_imm32,
    spec_imul_r32_rm32_imm8, spec_imul_rm32, spec_reg1, spec_shift, spec_unary, spec_unsigned16,
    spec_unsigned32, step_is, Binary, Shift, Unary,
};
use crate::registers::{Reg8, Registers};
use crate::x86::{undecodable, Cpu, X86};
use vstd::prelude::*;
use vstd::slice::slice_subrange;

verus! {

/// What the instruction does to the machine, the instruction pointer left
/// aside.
#[verifier::opaque]
pub open spec fn spec_execute(cpu: Cpu, instr: Instr) -> Result<Cpu, Fault> {
    match instr.code {
        Code::Add_rm8_r8 => spec_binary::<u8>(cpu, instr, Binary::Add, spec_reg1::<u8>(cpu, instr)),
        Code::Add_rm32_r32 => spec_binary::<u32>(cpu, instr, Binary::Add, spec_reg1::<u32>(cpu, instr)),
        Code::Add_r8_rm8 => spec_binary::<u8>(cpu, instr, Binary::Add, spec_op1_rm::<u8>(cpu, instr)),
        Code::Add_r16_rm16 => spec_binary::<u16>(cpu, instr, Binary::Add, spec_op1_rm::<u16>(cpu, instr)),
        Code::Add_r32_rm32 => spec_binary::<u32>(cpu, instr, Binary::Add, spec_op1_rm::<u32>(cpu, instr)),
        Code::Or_rm32_r32 => spec_binary::<u32>(cpu, instr, Binary::Or, spec_op1_rm::<u32>(cpu, instr)),
        Code::Or_r32_rm32 => spec_binary::<u32>(cpu, instr, Binary::Or, spec_op1_rm::<u32>(cpu, instr)),
        Code::Adc_rm8_r8 => spec_binary::<u8>(cpu, instr, Binary::Adc, spec_op1_rm::<u8>(cpu, instr)),
        Code::Adc_r8_rm8 => spec_binary::<u8>(cpu, instr, Binary::Adc, spec_op1_rm::<u8>(cpu, instr)),
        Code::Sbb_rm32_r32 => spec_binary::<u32>(cpu, instr, Binary::Sbb, spec_reg1::<u32>(cpu, instr)),
        Code::Sbb_r8_rm8 => spec_binary::<u8>(cpu, instr, Binary::Sbb, spec_op1_rm::<u8>(cpu, instr)),
        Code::Sbb_r32_rm32 => spec_binary::<u32>(cpu, instr, Binary::Sbb, spec_op1_rm::<u32>(cpu, instr)),
        Code::And_rm32_r32 => spec_binary::<u32>(cpu, instr, Binary::And, spec_reg1::<u32>(cpu, instr)),
        Code::And_r32_rm32 => spec_binary::<u32>(cpu, instr, Binary::And, spec_op1_rm::<u32>(cpu, instr)),
        Code::Sub_rm32_r32 => spec_binary::<u32>(cpu, instr, Binary::Sub, spec_reg1::<u32>(cpu, instr)),
        Code::Sub_r8_rm8 => spec_binary::<u8>(cpu, instr, Binary::Sub, spec_op1_rm::<u8>(cpu, instr)),
        Code::Sub_r32_rm32 => spec_binary::<u32>(cpu, instr, Binary::Sub, spec_op1_rm::<u32>(cpu, instr)),
        Code::Xor_rm8_r8 => spec_binary::<u8>(cpu, instr, Binary::Xor, spec_reg1::<u8>(cpu, instr)),
        Code::Xor_rm32_r32 => spec_binary::<u32>(cpu, instr, Binary::Xor, spec_op1_rm::<u32>(cpu, instr)),
        Code::Xor_r8_rm8 => spec_binary::<u8>(cpu, instr, Binary::Xor, spec_op1_rm::<u8>(cpu, instr)),
        Code::Xor_r32_rm32 => spec_binary::<u32>(cpu, instr, Binary::Xor, spec_op1_rm::<u32>(cpu, instr)),
        Code::Inc_r32 => spec_unary::<u32>(cpu, instr, Unary::Inc),
        Code::Dec_r32 => spec_unary::<u32>(cpu, instr, Unary::Dec),
        Code::Imul_r32_rm32_imm32 => spec_imul_r32_rm32_imm32(cpu, instr),
        Code::Imul_r32_rm32_imm8 => spec_imul_r32_rm32_imm8(cpu, instr),
        Code::Add_rm8_imm8 => spec_binary::<u8>(cpu, instr, Binary::Add, Ok(instr.spec_immediate8())),
        Code::Or_rm8_imm8 => spec_binary::<u8>(cpu, instr, Binary::Or, Ok(instr.spec_immediate8())),
        Code::Adc_rm8_imm8 => spec_binary::<u8>(cpu, instr, Binary::Adc, Ok(instr.spec_immediate8())),
        Code::Sbb_rm8_imm8 => spec_binary::<u8>(cpu, instr, Binary::Sbb, Ok(instr.spec_immediate8())),
        Code::And_rm8_imm8 => spec_binary::<u8>(cpu, instr, Binary::And, Ok(instr.spec_immediate8())),
        Code::Sub_rm8_imm8 => spec_binary::<u8>(cpu, instr, Binary::Sub, Ok(instr.spec_immediate8())),
        Code::Xor_rm8_imm8 => spec_binary::<u8>(cpu, instr, Binary::Xor, Ok(instr.spec_immediate8())),
        Code::Add_rm32_imm32 => spec_binary::<u32>(cpu, instr, Binary::Add, Ok(instr.spec_immediate32())),
        Code::Or_rm16_imm16 => spec_binary::<u16>(cpu, instr, Binary::Or, Ok(instr.spec_immediate16())),
        Code::Or_rm32_imm32 => spec_binary::<u32>(cpu, instr, Binary::Or, Ok(instr.spec_immediate32())),
        Code::And_rm16_imm16 => spec_binary::<u16>(cpu, instr, Binary::And, Ok(instr.spec_immediate16())),
        Code::And_rm32_imm32 => spec_binary::<u32>(cpu, instr, Binary::And, Ok(instr.spec_immediate32())),
        Code::Sub_rm32_imm32 => spec_binary::<u32>(cpu, instr, Binary::Sub, Ok(instr.spec_immediate32())),
        Code::Xor_rm32_imm32 => spec_binary::<u32>(cpu, instr, Binary::Xor, Ok(instr.spec_immediate32())),
        Code::Add_rm16_imm8 => spec_binary::<u16>(cpu, instr, Binary::Add, Ok(spec_unsigned16(instr.spec_immediate8to16() as int))),
        Code::Add_rm32_imm8 => spec_binary::<u32>(cpu, instr, Binary::Add, Ok(spec_unsigned32(instr.spec_immediate8to32() as int))),
        Code::Or_rm32_imm8 => spec_binary::<u32>(cpu, instr, Binary::Or, Ok(spec_unsigned32(instr.spec_immediate8to32() as int))),
        Code::Sbb_rm32_imm8 => spec_binary::<u32>(cpu, instr, Binary::Sbb, Ok(spec_unsigned32(instr.spec_immediate8to32() as int))),
        Code::And_rm32_imm8 => spec_binary::<u32>(cpu, instr, Binary::And, Ok(spec_unsigned32(instr.spec_immediate8to32() as int))),
        Code::Sub_rm32_imm8 => spec_binary::<u32>(cpu, instr, Binary::Sub, Ok(spec_unsigned32(instr.spec_immediate8to32() as int))),
        Code::Xor_rm32_imm8 => spec_binary::<u32>(cpu, instr, Binary::Xor, Ok(spec_unsigned32(instr.spec_immediate8to32() as int))),
        Code::Mov_rm32_r32 => spec_mov::<u32>(cpu, instr, spec_reg1::<u32>(cpu, instr)),
        Code::Mov_r32_rm32 => spec_mov::<u32>(cpu, instr, spec_op1_rm::<u32>(cpu, instr)),
        Code::Mov_r32_imm32 => spec_mov::<u32>(cpu, instr, Ok(instr.spec_immediate32())),
        Code::Shl_rm8_imm8 => spec_shift::<u8>(cpu, instr, Shift::Shl, instr.spec_immediate8()),
        Code::Shr_rm8_imm8 => spec_shift::<u8>(cpu, instr, Shift::Shr, instr.spec_immediate8()),
        Code::Sar_rm8_imm8 => spec_shift::<u8>(cpu, instr, Shift::Sar, instr.spec_immediate8()),
        Code::Ror_rm32_imm8 => spec_shift::<u32>(cpu, instr, Shift::Ror, instr.spec_immediate8()),
        Code::Shl_rm32_imm8 => spec_shift::<u32>(cpu, instr, Shift::Shl, instr.spec_immediate8()),
        Code::Shr_rm32_imm8 => spec_shift::<u32>(cpu, instr, Shift::Shr, instr.spec_immediate8()),
        Code::Sar_rm32_imm8 => spec_shift::<u32>(cpu, instr, Shift::Sar, instr.spec_immediate8()),
        Code::Mov_rm32_imm32 => spec_mov::<u32>(cpu, instr, Ok(instr.spec_immediate32())),
        Code::Shr_rm32_1 => spec_shift::<u32>(cpu, instr, Shift::Shr, 1),
        Code::Shl_rm8_CL => spec_shift::<u8>(cpu, instr, Shift::Shl, cpu.regs.spec_get8(Reg8::CL)),
        Code::Ror_rm32_CL => spec_shift::<u32>(cpu, instr, Shift::Ror, cpu.regs.spec_get8(Reg8::CL)),
        Code::Shl_rm32_CL => spec_shift::<u32>(cpu, instr, Shift::Shl, cpu.regs.spec_get8(Reg8::CL)),
        Code::Shr_rm32_CL => spec_shift::<u32>(cpu, instr, Shift::Shr, cpu.regs.spec_get8(Reg8::CL)),
        Code::Sar_rm32_CL => spec_shift::<u32>(cpu, instr, Shift::Sar, cpu.regs.spec_get8(Reg8::CL)),
        Code::Neg_rm8 => spec_unary::<u8>(cpu, instr, Unary::Neg),
        Code::Not_rm32 => spec_unary::<u32>(cpu, instr, Unary::Not),
        Code::Neg_rm32 => spec_unary::<u32>(cpu, instr, Unary::Neg),
        Code::Imul_rm32 => spec_imul_rm32(cpu, instr),
        Code::Div_rm32 => spec_div_rm32(cpu, instr),
        Code::Idiv_rm32 => spec_idiv_rm32(cpu, instr),
        Code::Inc_rm8 => spec_unary::<u8>(cpu, instr, Unary::Inc),
        Code::Dec_rm8 => spec_unary::<u8>(cpu, instr, Unary::Dec),
        Code::Inc_rm32 => spec_unary::<u32>(cpu, instr, Unary::Inc),
        Code::Dec_rm32 => spec_unary::<u32>(cpu, instr, Unary::Dec),
        Code::Imul_r32_rm32 => spec_imul_r32_rm32(cpu, instr),
    }
}

/// Executes a decoded instruction: hands it to the handler of its opcode.
#[verifier::rlimit(50)]
pub fn execute(x86: &mut X86, instr: &Instr) -> (r: StepResult<()>)
    ensures
        step_is(*old(x86), *final(x86), r, spec_execute(old(x86).cpu(), *instr)),
{
    reveal(spec_execute);
    match instr.code {
        Code::Add_rm8_r8 => add_rm8_r8(x86, instr),
        Code::Add_rm32_r32 => add_rm32_r32(x86, instr),
        Code::Add_r8_rm8 => add_r8_rm8(x86, instr),
        Code::Add_r16_rm16 => add_r16_rm16(x86, instr),
        Code::Add_r32_rm32 => add_r32_rm32(x86, instr),
        Code::Or_rm32_r32 => or_rm32_rm32(x86, instr),
        Code::Or_r32_rm32 => or_rm32_rm32(x86, instr),
        Code::Adc_rm8_r8 => adc_rm8_r8(x86, instr),
        Code::Adc_r8_rm8 => adc_rm8_r8(x86, instr),
        Code::Sbb_rm32_r32 => sbb_rm32_r32(x86, instr),
        Code::Sbb_r8_rm8 => sbb_r8_rm8(x86, instr),
        Code::Sbb_r32_rm32 => sbb_r32_rm32(x86, instr),
        Code::And_rm32_r32 => and_rm32_r32(x86, instr),
        Code::And_r32_rm32 => and_r32_rm32(x86, instr),
        Code::Sub_rm32_r32 => sub_rm32_r32(x86, instr),
        Code::Sub_r8_rm8 => sub_r8_rm8(x86, instr),
        Code::Sub_r32_rm32 => sub_r32_rm32(x86, instr),
        Code::Xor_rm8_r8 => xor_rm8_r8(x86, instr),
        Code::Xor_rm32_r32 => xor_rm32_rm32(x86, instr),
        Code::Xor_r8_rm8 => xor_r8_rm8(x86, instr),
        Code::Xor_r32_rm32 => xor_rm32_rm32(x86, instr),
        Code::Inc_r32 => inc_rm32(x86, instr),
        Code::Dec_r32 => dec_rm32(x86, instr),
        Code::Imul_r32_rm32_imm32 => imul_r32_rm32_imm32(x86, instr),
        Code::Imul_r32_rm32_imm8 => imul_r32_rm32_imm8(x86, instr),
        Code::Add_rm8_imm8 => add_rm8_imm8(x86, instr),
        Code::Or_rm8_imm8 => or_rm8_imm8(x86, instr),
        Code::Adc_rm8_imm8 => adc_rm8_imm8(x86, instr),
        Code::Sbb_rm8_imm8 => sbb_r8_imm8(x86, instr),
        Code::And_rm8_imm8 => and_rm8_imm8(x86, instr),
        Code::Sub_rm8_imm8 => sub_rm8_imm8(x86, instr),
        Code::Xor_rm8_imm8 => xor_rm8_imm8(x86, instr),
        Code::Add_rm32_imm32 => add_rm32_imm32(x86, instr),
        Code::Or_rm16_imm16 => or_rm16_imm16(x86, instr),
        Code::Or_rm32_imm32 => or_rm32_imm32(x86, instr),
        Code::And_rm16_imm16 => and_rm16_imm16(x86, instr),
        Code::And_rm32_imm32 => and_rm32_imm32(x86, instr),
        Code::Sub_rm32_imm32 => sub_rm32_imm32(x86, instr),
        Code::Xor_rm32_imm32 => xor_rm32_imm32(x86, instr),
        Code::Add_rm16_imm8 => add_rm16_imm8(x86, instr),
        Code::Add_rm32_imm8 => add_rm32_imm8(x86, instr),
        Code::Or_rm32_imm8 => or_rm32_imm8(x86, instr),
        Code::Sbb_rm32_imm8 => sbb_rm32_imm8(x86, instr),
        Code::And_rm32_imm8 => and_rm32_imm8(x86, instr),
        Code::Sub_rm32_imm8 => sub_rm32_imm8(x86, instr),
        Code::Xor_rm32_imm8 => xor_rm32_imm8(x86, instr),
        Code::Mov_rm32_r32 => mov_rm32_r32(x86, instr),
        Code::Mov_r32_rm32 => mov_r32_rm32(x86, instr),
        Code::Mov_r32_imm32 => mov_r32_imm32(x86, instr),
        Code::Shl_rm8_imm8 => shl_rm8_imm8(x86, instr),
        Code::Shr_rm8_imm8 => shr_rm8_imm8(x86, instr),
        Code::Sar_rm8_imm8 => sar_rm8_imm8(x86, instr),
        Code::Ror_rm32_imm8 => ror_rm32_imm8(x86, instr),
        Code::Shl_rm32_imm8 => shl_rm32_imm8(x86, instr),
        Code::Shr_rm32_imm8 => shr_rm32_imm8(x86, instr),
        Code::Sar_rm32_imm8 => sar_rm32_imm8(x86, instr),
        Code::Mov_rm32_imm32 => mov_rm32_imm32(x86, instr),
        Code::Shr_rm32_1 => shr_rm32_1(x86, instr),
        Code::Shl_rm8_CL => shl_rm8_cl(x86, instr),
        Code::Ror_rm32_CL => ror_rm32_cl(x86, instr),
        Code::Shl_rm32_CL => shl_rm32_cl(x86, instr),
        Code::Shr_rm32_CL => shr_rm32_cl(x86, instr),
        Code::Sar_rm32_CL => sar_rm32_cl(x86, instr),
        Code::Neg_rm8 => neg_rm8(x86, instr),
        Code::Not_rm32 => not_rm32(x86, instr),
        Code::Neg_rm32 => neg_rm32(x86, instr),
        Code::Imul_rm32 => imul_rm32(x86, instr),
        Code::Div_rm32 => div_rm32(x86, instr),
        Code::Idiv_rm32 => idiv_rm32(x86, instr),
        Code::Inc_rm8 => inc_rm8(x86, instr),
        Code::Dec_rm8 => dec_rm8(x86, instr),
        Code::Inc_rm32 => inc_rm32(x86, instr),
        Code::Dec_rm32 => dec_rm32(x86, instr),
        Code::Imul_r32_rm32 => imul_r32_rm32(x86, instr),
    }
}

/// The state after `instr`, found at the instruction pointer, has been
/// executed: what the instruction does, and then the instruction pointer
/// moved past it unless the instruction itself has set it.
pub open spec fn spec_step(cpu: Cpu, instr: Instr) -> Result<Cpu, Fault> {
    match spec_execute(cpu, instr) {
        Err(f) => Err(f),
        Ok(after) => Ok(
            if after.regs.eip == cpu.regs.eip {
                Cpu {
                    regs: Registers {
                        eip: ((cpu.regs.eip + instr.len) % 0x1_0000_0000) as u32,
                        ..after.regs
                    },
                    ..after
                }
            } else {
                after
            },
        ),
    }
}

/// Executes `instr`, the instruction at the instruction pointer, and
/// advances the instruction pointer.
pub fn step_with(x86: &mut X86, instr: &Instr) -> (r: StepResult<()>)
    ensures
        step_is(*old(x86), *final(x86), r, spec_step(old(x86).cpu(), *instr)),
{
    let eip = x86.regs.eip;
    let next_eip = eip.wrapping_add(instr.len);
    execute(x86, instr)?;
    if x86.regs.eip == eip {
        x86.regs.eip = next_eip;
    }
    Ok(())
}

/// The bytes that the decoder is handed: those from the instruction pointer
/// on, fifteen at most, as far as guest memory reaches.
pub open spec fn spec_window(mem: Seq<u8>, eip: u32) -> Seq<u8> {
    if eip >= mem.len() {
        Seq::empty()
    } else if eip + 15 <= mem.len() {
        mem.subrange(eip as int, eip + 15)
    } else {
        mem.subrange(eip as int, mem.len() as int)
    }
}

/// Whether a step did what the instruction at the instruction pointer
/// does. The instruction is what the decoder makes of the bytes there. A
/// step may also give `DecodeError` and change nothing: it does when the
/// decoder has nothing for the bytes.
pub open spec fn instruction_stepped(before: X86, after: X86, r: StepResult<()>) -> bool {
    match Instr::spec_from_raw(
        decoded(spec_window(before.mem@, before.regs.eip), before.regs.eip),
    ) {
        Some(instr) => step_is(before, after, r, spec_step(before.cpu(), instr)) || step_is(
            before,
            after,
            r,
            Err(undecodable(before.cpu())),
        ),
        None => step_is(before, after, r, Err(undecodable(before.cpu()))),
    }
}

/// Runs the instruction at the instruction pointer: decodes and executes
/// it. Bytes that decode to no instruction of the interpreter give
/// `DecodeError` and change nothing.
pub fn step_instruction(x86: &mut X86) -> (r: StepResult<()>)
    ensures
        instruction_stepped(*old(x86), *final(x86), r),
{
    let eip = x86.regs.eip;
    let size = x86.mem.len();
    let from: usize = if eip as u64 >= size as u64 {
        size
    } else {
        eip as usize
    };
    let to: usize = if size - from > 15 {
        from + 15
    } else {
        size
    };
    let window = slice_subrange(x86.mem.as_slice(), from, to);
    assert(window@ =~= spec_window(x86.mem@, eip));
    match decode(window, eip) {
        Some(instr) => step_with(x86, &instr),
        None => Err(x86.undecodable()),
    }
}

/// Runs one step. An instruction pointer in the trampoline range is a call
/// of the guest into the host, which is served; anywhere else stands an
/// instruction, which is executed. The result names the asynchronous host
/// function that the host must run before the guest can go on, if the step
/// has met one.
pub fn step(x86: &mut X86) -> (r: StepResult<Option<Func>>)
    ensures
        old(x86).regs.eip >= TRAMPOLINE_BASE ==> dispatch_is(
            old(x86)@,
            final(x86)@,
            r,
            spec_dispatch(old(x86)@),
        ),
        old(x86).regs.eip < TRAMPOLINE_BASE ==> match r {
            Ok(pending) => pending is None && instruction_stepped(*old(x86), *final(x86), Ok(())),
            Err(f) => instruction_stepped(*old(x86), *final(x86), Err(f)),
        },
{
    if x86.regs.eip >= TRAMPOLINE_BASE {
        dispatch(x86)
    } else {
        match step_instruction(x86) {
            Ok(()) => Ok(None),
            Err(f) => Err(f),
        }
    }
}

/// One turn of the step loop. The loop looks at its cancel flag between
/// two instructions: a turn that finds it raised ends the run with the
/// fault `Cancelled` and leaves the machine as it is; any other turn is a
/// step.
pub fn turn(x86: &mut X86, cancel: bool) -> (r: StepResult<Option<Func>>)
    ensures
        cancel ==> r == Err::<Option<Func>, Fault>(Fault::Cancelled) && final(x86)@ == old(x86)@,
        !cancel && old(x86).regs.eip >= TRAMPOLINE_BASE ==> dispatch_is(
            old(x86)@,
            final(x86)@,
            r,
            spec_dispatch(old(x86)@),
        ),
        !cancel && old(x86).regs.eip < TRAMPOLINE_BASE ==> match r {
            Ok(pending) => pending is None && instruction_stepped(*old(x86), *final(x86), Ok(())),
            Err(f) => instruction_stepped(*old(x86), *final(x86), Err(f)),
        },
{
    if cancel {
        return Err(Fault::Cancelled);
    }
    step(x86)
}

} // verus!
