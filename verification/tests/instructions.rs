use win32emu::fault::Fault;
use win32emu::flags::Flag;
use win32emu::instr::{decode, Code, Instr, OpKind, RawInstr};
use win32emu::ops::helpers::{addr, load, op1_rm32, rm32, store, Rm};
use win32emu::ops::math::{
    adc_rm8_imm8, add_rm32_imm8, div_rm32, idiv_rm32, imul_r32_rm32, imul_rm32, inc_rm32,
};
use win32emu::registers::{Reg32, Reg8, Register, Seg};
use win32emu::step::{execute, step, step_with, turn};
use win32emu::x86::X86;

const CODE: u32 = 0x100;

/// A machine with 8 KiB of memory, `code` at 0x100 and the instruction
/// pointer on it.
fn machine(code: &[u8]) -> X86 {
    let mut mem = vec![0u8; 0x2000];
    mem[CODE as usize..CODE as usize + code.len()].copy_from_slice(code);
    let mut x86 = X86::new(mem);
    x86.regs.eip = CODE;
    x86
}

#[test]
fn decode_names_the_parts() {
    // add dword ptr [ebx+esi*4+0x10], 0x12345678
    let instr = decode(&[0x81, 0x44, 0xB3, 0x10, 0x78, 0x56, 0x34, 0x12], 0).unwrap();
    assert_eq!(instr.code, Code::Add_rm32_imm32);
    assert_eq!(instr.len, 8);
    assert_eq!(instr.op0_kind, OpKind::Memory);
    assert_eq!(instr.op1_kind, OpKind::Immediate32);
    assert_eq!(instr.memory_base, Register::R32(Reg32::EBX));
    assert_eq!(instr.memory_index, Register::R32(Reg32::ESI));
    assert_eq!(instr.memory_index_scale, 4);
    assert_eq!(instr.memory_displacement, 0x10);
    assert_eq!(instr.segment_prefix, Register::Absent);
    assert_eq!(instr.immediate32(), 0x1234_5678);
}

#[test]
fn decode_registers_and_prefixes() {
    // xor al, ch
    let instr = decode(&[0x30, 0xE8], 0).unwrap();
    assert_eq!(instr.code, Code::Xor_rm8_r8);
    assert_eq!(instr.op0_kind, OpKind::Register);
    assert_eq!(instr.op0_register(), Register::R8(Reg8::AL));
    assert_eq!(instr.op1_register(), Register::R8(Reg8::CH));
    // mov eax, fs:[0x18]
    let instr = decode(&[0x64, 0x8B, 0x05, 0x18, 0x00, 0x00, 0x00], 0).unwrap();
    assert_eq!(instr.code, Code::Mov_r32_rm32);
    assert_eq!(instr.segment_prefix, Register::Seg(Seg::FS));
    assert_eq!(instr.memory_displacement, 0x18);
    assert_eq!(instr.len, 7);
}

#[test]
fn decode_refuses_what_is_no_instruction() {
    assert_eq!(decode(&[], 0), None);
    assert_eq!(decode(&[0x81], 0), None);
    // ud2 is an instruction, but none that the interpreter executes
    assert_eq!(decode(&[0x0F, 0x0B], 0), None);
    // lock add esi, ecx: the prefix is not allowed here
    assert_eq!(decode(&[0xF0, 0x01, 0xCE], 0), None);
}

#[test]
fn a_raw_record_becomes_an_instruction() {
    let raw = RawInstr {
        code: 248,
        len: 3,
        op0_kind: 0,
        op1_kind: 12,
        op0_register: 37,
        op1_register: 0,
        immediate: 0xFD,
        memory_base: 0,
        memory_index: 0,
        memory_index_scale: 1,
        memory_displacement: 0,
        segment_prefix: 0,
    };
    let instr = Instr::from_raw(raw).unwrap();
    assert_eq!(instr, decode(&[0x83, 0xC0, 0xFD], 0).unwrap());
    assert_eq!(instr.code, Code::Add_rm32_imm8);
    assert_eq!(instr.op1_kind, OpKind::Immediate8to32);
    assert_eq!(Instr::from_raw(RawInstr { code: 0, ..raw }), None);
    assert_eq!(Instr::from_raw(RawInstr { code: 4999, ..raw }), None);
    // RAX is no register of a 32-bit guest
    assert_eq!(Instr::from_raw(RawInstr { op0_register: 53, ..raw }), None);
    assert_eq!(Instr::from_raw(RawInstr { memory_base: 9, ..raw }), None);
    assert_eq!(
        Instr::from_raw(RawInstr { op0_kind: 200, ..raw }).unwrap().op0_kind,
        OpKind::Other
    );
}

#[test]
fn codes_keep_their_numbers() {
    assert_eq!(Code::Add_rm8_r8.number(), 5);
    assert_eq!(Code::from_number(5), Some(Code::Add_rm8_r8));
    assert_eq!(Code::from_number(2071), Some(Code::Imul_r32_rm32));
    assert_eq!(Code::Imul_r32_rm32.number(), 2071);
    assert_eq!(Code::from_number(6), None);
    assert_eq!(Code::from_number(0), None);
}

#[test]
fn immediates() {
    let mut instr = decode(&[0x83, 0xC0, 0xFD], 0).unwrap();
    assert_eq!(instr.immediate8(), 0xFD);
    assert_eq!(instr.immediate8to16(), -3);
    assert_eq!(instr.immediate8to32(), -3);
    instr.immediate = 0x1234_567F;
    assert_eq!(instr.immediate8(), 0x7F);
    assert_eq!(instr.immediate16(), 0x567F);
    assert_eq!(instr.immediate32(), 0x1234_567F);
    assert_eq!(instr.immediate8to16(), 0x7F);
    assert_eq!(instr.immediate8to32(), 0x7F);
    instr.immediate = 0x80;
    assert_eq!(instr.immediate8to16(), -128);
    assert_eq!(instr.immediate8to32(), -128);
}

#[test]
fn add_eax_5() {
    let mut x86 = machine(&[0x83, 0xC0, 0x05]);
    x86.regs.eax = 3;
    assert_eq!(step(&mut x86), Ok(None));
    assert_eq!(x86.regs.eax, 8);
    assert!(!x86.flags.zf && !x86.flags.sf && !x86.flags.cf && !x86.flags.of);
    assert_eq!(x86.regs.eip, CODE + 3);
}

#[test]
fn add_eax_minus_3() {
    let mut x86 = machine(&[0x83, 0xC0, 0xFD]);
    x86.regs.eax = 3;
    assert_eq!(step(&mut x86), Ok(None));
    assert_eq!(x86.regs.eax, 0);
    assert!(x86.flags.zf && x86.flags.cf && !x86.flags.of);
}

#[test]
fn adc_al_1_with_carry() {
    let mut x86 = machine(&[0x80, 0xD0, 0x01]);
    x86.regs.eax = 0xFF;
    x86.flags.set(Flag::CF, true);
    assert_eq!(step(&mut x86), Ok(None));
    assert_eq!(x86.regs.get8(Reg8::AL), 1);
    assert_eq!(x86.regs.eax, 1);
    assert!(x86.flags.cf);
}

#[test]
fn adc_al_fe_with_carry() {
    let mut x86 = machine(&[0x80, 0xD0, 0xFE]);
    x86.regs.eax = 0xFF;
    x86.flags.set(Flag::CF, true);
    assert_eq!(step(&mut x86), Ok(None));
    assert_eq!(x86.regs.get8(Reg8::AL), 0xFE);
    assert!(x86.flags.cf);
}

#[test]
fn sub_eax_1_from_most_negative() {
    let mut x86 = machine(&[0x83, 0xE8, 0x01]);
    x86.regs.eax = 0x8000_0000;
    assert_eq!(step(&mut x86), Ok(None));
    assert_eq!(x86.regs.eax, 0x7FFF_FFFF);
    assert!(!x86.flags.cf && x86.flags.of && !x86.flags.sf);
}

#[test]
fn mov_eax_from_memory() {
    let mut x86 = machine(&[0x8B, 0x05, 0x00, 0x10, 0x00, 0x00]);
    x86.mem[0x1000..0x1004].copy_from_slice(&[0xEF, 0xBE, 0xAD, 0xDE]);
    assert_eq!(step(&mut x86), Ok(None));
    assert_eq!(x86.regs.eax, 0xDEAD_BEEF);
    assert_eq!(x86.regs.eip, CODE + 6);
}

#[test]
fn mov_to_memory_and_between_registers() {
    // mov dword ptr [0x1000], 0x11223344 ; mov ecx, 0x55 ; mov edx, ecx
    let mut x86 = machine(&[
        0xC7, 0x05, 0x00, 0x10, 0x00, 0x00, 0x44, 0x33, 0x22, 0x11, 0xB9, 0x55, 0x00, 0x00, 0x00,
        0x89, 0xCA,
    ]);
    assert_eq!(step(&mut x86), Ok(None));
    assert_eq!(x86.read_u32(0x1000), Ok(0x1122_3344));
    assert_eq!(step(&mut x86), Ok(None));
    assert_eq!(x86.regs.ecx, 0x55);
    assert_eq!(step(&mut x86), Ok(None));
    assert_eq!(x86.regs.edx, 0x55);
    assert_eq!(x86.regs.eip, CODE + 17);
}

#[test]
fn memory_operand_address() {
    // add dword ptr [ebx+esi*4+0x10], 0x12345678
    let code = [0x81, 0x44, 0xB3, 0x10, 0x78, 0x56, 0x34, 0x12];
    let mut x86 = machine(&code);
    x86.regs.ebx = 0x1000;
    x86.regs.esi = 3;
    let instr = decode(&code, CODE).unwrap();
    assert_eq!(addr(&x86.regs, &instr), Some(0x101C));
    assert_eq!(rm32(&x86, &instr), Ok(Rm::Mem(0x101C)));
    x86.write_u32(0x101C, 1).unwrap();
    assert_eq!(step(&mut x86), Ok(None));
    assert_eq!(x86.read_u32(0x101C), Ok(0x1234_5679));
    // the address wraps at 32 bits
    x86.regs.ebx = 0xFFFF_FFFF;
    x86.regs.esi = 0x4000_0000;
    assert_eq!(addr(&x86.regs, &instr), Some(0x0000_000F));
}

#[test]
fn segment_base_is_added() {
    // mov eax, fs:[0x18]
    let mut x86 = machine(&[0x64, 0x8B, 0x05, 0x18, 0x00, 0x00, 0x00]);
    x86.regs.fs_base = 0x1800;
    x86.write_u32(0x1818, 0xCAFE_F00D).unwrap();
    assert_eq!(step(&mut x86), Ok(None));
    assert_eq!(x86.regs.eax, 0xCAFE_F00D);
}

#[test]
fn a_write_through_a_handle_is_seen_by_the_next_read() {
    // add dword ptr [0x1000], eax: operand 0 is memory
    let code = [0x01, 0x05, 0x00, 0x10, 0x00, 0x00];
    let mut x86 = machine(&code);
    let instr = decode(&code, CODE).unwrap();
    let place = rm32(&x86, &instr).unwrap();
    assert_eq!(place, Rm::Mem(0x1000));
    assert_eq!(store::<u32>(&mut x86, place, 0x0BAD_CAFE), Ok(()));
    assert_eq!(load::<u32>(&x86, place), Ok(0x0BAD_CAFE));
    // xor ecx, ecx: both operands are the same register
    let code = [0x31, 0xC9];
    let instr = decode(&code, CODE).unwrap();
    let place = rm32(&x86, &instr).unwrap();
    assert_eq!(place, Rm::Reg(Register::R32(Reg32::ECX)));
    assert_eq!(store::<u32>(&mut x86, place, 77), Ok(()));
    assert_eq!(op1_rm32(&x86, &instr), Ok(77));
    assert_eq!(x86.regs.ecx, 77);
}

#[test]
fn a_memory_fault_changes_nothing() {
    // add dword ptr [ebx], 1 with ebx at the last bytes of memory
    let mut x86 = machine(&[0x83, 0x03, 0x01]);
    x86.regs.ebx = 0x1FFD;
    x86.flags.set(Flag::CF, true);
    assert_eq!(step(&mut x86), Err(Fault::MemoryFault { addr: 0x1FFD, len: 4 }));
    assert_eq!(x86.regs.eip, CODE);
    assert!(x86.flags.cf);
    // mov eax, [0xFFFFFFF0]
    let mut x86 = machine(&[0x8B, 0x05, 0xF0, 0xFF, 0xFF, 0xFF]);
    assert_eq!(step(&mut x86), Err(Fault::MemoryFault { addr: 0xFFFF_FFF0, len: 4 }));
}

#[test]
fn undecodable_bytes_fault() {
    let mut x86 = machine(&[0x0F, 0x0B, 0x01, 0x02]);
    let mut bytes = [0u8; 15];
    bytes[..4].copy_from_slice(&[0x0F, 0x0B, 0x01, 0x02]);
    assert_eq!(step(&mut x86), Err(Fault::DecodeError { eip: CODE, bytes }));
    assert_eq!(x86.regs.eip, CODE);
    // past the end of memory there is nothing to decode
    x86.regs.eip = 0x2000;
    assert_eq!(step(&mut x86), Err(Fault::DecodeError { eip: 0x2000, bytes: [0u8; 15] }));
    // the last byte of memory: an instruction cut short
    x86.mem[0x1FFF] = 0x83;
    x86.regs.eip = 0x1FFF;
    let mut bytes = [0u8; 15];
    bytes[0] = 0x83;
    assert_eq!(step(&mut x86), Err(Fault::DecodeError { eip: 0x1FFF, bytes }));
}

#[test]
fn a_handler_refuses_operands_of_another_width() {
    // xor al, ch is an 8-bit instruction
    let code = [0x30, 0xE8];
    let mut x86 = machine(&code);
    let instr = decode(&code, CODE).unwrap();
    let mut bytes = [0u8; 15];
    bytes[..2].copy_from_slice(&code);
    assert_eq!(inc_rm32(&mut x86, &instr), Err(Fault::DecodeError { eip: CODE, bytes }));
    assert_eq!(add_rm32_imm8(&mut x86, &instr), Err(Fault::DecodeError { eip: CODE, bytes }));
    // and a 32-bit one is none for an 8-bit handler
    let instr = decode(&[0x83, 0xC0, 0x05], CODE).unwrap();
    assert_eq!(adc_rm8_imm8(&mut x86, &instr), Err(Fault::DecodeError { eip: CODE, bytes }));
}

#[test]
fn shifts_by_cl() {
    // shl eax, cl ; shr eax, cl ; sar eax, cl ; ror eax, cl
    let mut x86 = machine(&[0xD3, 0xE0, 0xD3, 0xE8, 0xD3, 0xF8, 0xD3, 0xC8]);
    x86.regs.eax = 0x8000_0001;
    x86.regs.ecx = 0xFFFF_FF04;
    assert_eq!(step(&mut x86), Ok(None));
    assert_eq!(x86.regs.eax, 0x0000_0010);
    assert!(!x86.flags.cf);
    x86.regs.eax = 0x8000_0018;
    assert_eq!(step(&mut x86), Ok(None));
    assert_eq!(x86.regs.eax, 0x0800_0001);
    assert!(x86.flags.cf && x86.flags.of);
    x86.regs.eax = 0x8000_0000;
    assert_eq!(step(&mut x86), Ok(None));
    assert_eq!(x86.regs.eax, 0xF800_0000);
    x86.regs.eax = 0x0000_00F1;
    assert_eq!(step(&mut x86), Ok(None));
    assert_eq!(x86.regs.eax, 0x1000_000F);
}

#[test]
fn sixteen_bit_operands() {
    // add cx, word ptr [0x1000] ; and word ptr [0x1000], 0x0FF0
    let mut x86 = machine(&[
        0x66, 0x03, 0x0D, 0x00, 0x10, 0x00, 0x00, 0x66, 0x81, 0x25, 0x00, 0x10, 0x00, 0x00, 0xF0,
        0x0F,
    ]);
    x86.regs.ecx = 0xAAAA_FFFF;
    x86.mem[0x1000] = 0x02;
    x86.mem[0x1001] = 0x80;
    assert_eq!(step(&mut x86), Ok(None));
    assert_eq!(x86.regs.ecx, 0xAAAA_8001);
    assert!(x86.flags.cf && x86.flags.sf);
    assert_eq!(step(&mut x86), Ok(None));
    assert_eq!(&x86.mem[0x1000..0x1002], &[0x00, 0x00]);
    assert!(x86.flags.zf && !x86.flags.cf);
    assert_eq!(x86.regs.eip, CODE + 16);
}

#[test]
fn inc_dec_neg_not() {
    // inc eax ; dec ebx ; neg ecx ; not edx ; inc byte ptr [0x1000]
    let mut x86 = machine(&[
        0x40, 0x4B, 0xF7, 0xD9, 0xF7, 0xD2, 0xFE, 0x05, 0x00, 0x10, 0x00, 0x00,
    ]);
    x86.regs.eax = 0xFFFF_FFFF;
    x86.flags.set(Flag::CF, true);
    assert_eq!(step(&mut x86), Ok(None));
    assert_eq!(x86.regs.eax, 0);
    assert!(x86.flags.zf && x86.flags.cf);
    assert_eq!(step(&mut x86), Ok(None));
    assert_eq!(x86.regs.ebx, 0xFFFF_FFFF);
    assert!(x86.flags.sf && x86.flags.cf);
    x86.regs.ecx = 5;
    assert_eq!(step(&mut x86), Ok(None));
    assert_eq!(x86.regs.ecx, 0xFFFF_FFFB);
    assert!(x86.flags.cf);
    x86.regs.edx = 0x0F0F_0F0F;
    let before = x86.flags;
    assert_eq!(step(&mut x86), Ok(None));
    assert_eq!(x86.regs.edx, 0xF0F0_F0F0);
    assert_eq!(x86.flags, before);
    x86.mem[0x1000] = 0x7F;
    assert_eq!(step(&mut x86), Ok(None));
    assert_eq!(x86.mem[0x1000], 0x80);
    assert!(x86.flags.of);
}

#[test]
fn multiplication() {
    // imul ecx
    let code = [0xF7, 0xE9];
    let mut x86 = machine(&code);
    let instr = decode(&code, CODE).unwrap();
    x86.regs.eax = 0xFFFF_FFFE;
    x86.regs.ecx = 3;
    assert_eq!(imul_rm32(&mut x86, &instr), Ok(()));
    assert_eq!((x86.regs.edx, x86.regs.eax), (0xFFFF_FFFF, 0xFFFF_FFFA));
    assert!(!x86.flags.cf && !x86.flags.of);
    x86.regs.eax = 0x4000_0000;
    x86.regs.ecx = 4;
    assert_eq!(imul_rm32(&mut x86, &instr), Ok(()));
    assert_eq!((x86.regs.edx, x86.regs.eax), (1, 0));
    assert!(x86.flags.cf && x86.flags.of);
    x86.regs.eax = 0x8000_0000;
    x86.regs.ecx = 0x8000_0000;
    assert_eq!(imul_rm32(&mut x86, &instr), Ok(()));
    assert_eq!((x86.regs.edx, x86.regs.eax), (0x4000_0000, 0));
    // imul ebx, dword ptr [0x1000]
    let code = [0x0F, 0xAF, 0x1D, 0x00, 0x10, 0x00, 0x00];
    let instr = decode(&code, CODE).unwrap();
    x86.regs.ebx = 0xFFFF_FFF9;
    x86.write_u32(0x1000, 6).unwrap();
    assert_eq!(imul_r32_rm32(&mut x86, &instr), Ok(()));
    assert_eq!(x86.regs.ebx, 0xFFFF_FFD6);
    assert!(!x86.flags.cf);
    // imul eax, ecx, 0x10000 ; imul edx, ecx, -2
    let mut x86 = machine(&[0x69, 0xC1, 0x00, 0x00, 0x01, 0x00, 0x6B, 0xD1, 0xFE]);
    x86.regs.ecx = 0x0001_0001;
    assert_eq!(step(&mut x86), Ok(None));
    assert_eq!(x86.regs.eax, 0x0001_0000);
    assert!(x86.flags.cf && x86.flags.of);
    assert_eq!(step(&mut x86), Ok(None));
    assert_eq!(x86.regs.edx, 0xFFFD_FFFE);
    assert!(!x86.flags.cf && !x86.flags.of);
}

#[test]
fn division() {
    // div ecx
    let code = [0xF7, 0xF1];
    let mut x86 = machine(&code);
    let instr = decode(&code, CODE).unwrap();
    x86.regs.edx = 1;
    x86.regs.eax = 5;
    x86.regs.ecx = 0x10;
    assert_eq!(div_rm32(&mut x86, &instr), Ok(()));
    assert_eq!((x86.regs.eax, x86.regs.edx), (0x1000_0000, 5));
    x86.regs.ecx = 0;
    assert_eq!(div_rm32(&mut x86, &instr), Err(Fault::DivideError));
    assert_eq!((x86.regs.eax, x86.regs.edx), (0x1000_0000, 5));
    x86.regs.edx = 2;
    x86.regs.ecx = 2;
    assert_eq!(div_rm32(&mut x86, &instr), Err(Fault::DivideError));
    x86.regs.edx = 1;
    x86.regs.eax = 0xFFFF_FFFF;
    assert_eq!(div_rm32(&mut x86, &instr), Ok(()));
    assert_eq!((x86.regs.eax, x86.regs.edx), (0xFFFF_FFFF, 1));
}

#[test]
fn signed_division() {
    // idiv ecx
    let code = [0xF7, 0xF9];
    let mut x86 = machine(&code);
    let instr = decode(&code, CODE).unwrap();
    let mut idiv = |edx: u32, eax: u32, ecx: u32| {
        x86.regs.edx = edx;
        x86.regs.eax = eax;
        x86.regs.ecx = ecx;
        idiv_rm32(&mut x86, &instr).map(|()| (x86.regs.eax, x86.regs.edx))
    };
    assert_eq!(idiv(0, 7, 2), Ok((3, 1)));
    // -7 / 2 = -3 remainder -1
    assert_eq!(idiv(0xFFFF_FFFF, 0xFFFF_FFF9, 2), Ok((0xFFFF_FFFD, 0xFFFF_FFFF)));
    // 7 / -2 = -3 remainder 1
    assert_eq!(idiv(0, 7, 0xFFFF_FFFE), Ok((0xFFFF_FFFD, 1)));
    // -7 / -2 = 3 remainder -1
    assert_eq!(idiv(0xFFFF_FFFF, 0xFFFF_FFF9, 0xFFFF_FFFE), Ok((3, 0xFFFF_FFFF)));
    assert_eq!(idiv(0, 7, 0), Err(Fault::DivideError));
    // 2^31 / 1 does not fit, -2^31 / 1 does
    assert_eq!(idiv(0, 0x8000_0000, 1), Err(Fault::DivideError));
    assert_eq!(idiv(0xFFFF_FFFF, 0x8000_0000, 1), Ok((0x8000_0000, 0)));
    // -2^31 / -1 does not fit
    assert_eq!(idiv(0xFFFF_FFFF, 0x8000_0000, 0xFFFF_FFFF), Err(Fault::DivideError));
    // the most negative dividend
    assert_eq!(idiv(0x8000_0000, 0, 0x8000_0000), Err(Fault::DivideError));
    assert_eq!(idiv(0xC000_0000, 0, 0x8000_0000), Err(Fault::DivideError));
    assert_eq!(idiv(0xC000_0000, 0x8000_0000, 0x8000_0000), Ok((0x7FFF_FFFF, 0)));
}

#[test]
fn execute_leaves_the_instruction_pointer() {
    let code = [0x83, 0xC0, 0x05];
    let mut x86 = machine(&code);
    let instr = decode(&code, CODE).unwrap();
    assert_eq!(execute(&mut x86, &instr), Ok(()));
    assert_eq!(x86.regs.eax, 5);
    assert_eq!(x86.regs.eip, CODE);
    assert_eq!(step_with(&mut x86, &instr), Ok(()));
    assert_eq!(x86.regs.eax, 10);
    assert_eq!(x86.regs.eip, CODE + 3);
    x86.regs.eip = 0xFFFF_FFFE;
    assert_eq!(step_with(&mut x86, &instr), Ok(()));
    assert_eq!(x86.regs.eip, 1);
}

#[test]
fn a_raised_cancel_flag_ends_the_run() {
    let mut x86 = machine(&[0x83, 0xC0, 0x05]);
    assert_eq!(turn(&mut x86, true), Err(Fault::Cancelled));
    assert_eq!(x86.regs.eax, 0);
    assert_eq!(x86.regs.eip, CODE);
    assert_eq!(turn(&mut x86, false), Ok(None));
    assert_eq!(x86.regs.eax, 5);
}
