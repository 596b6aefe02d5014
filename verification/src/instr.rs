//! Decoded instructions.
//!
//! The decoder is the `iced-x86` crate. What it makes of the bytes at the
//! instruction pointer is copied into a record of plain numbers, and that
//! record into an [`Instr`], which names the opcode, the operands and the
//! parts of a memory operand's address with the interpreter's own types.
use crate::registers::{Reg16, Reg32, Reg8, Register, Seg};
use iced_x86::{Decoder, DecoderOptions};
use vstd::prelude::*;

verus! {

/// The opcodes that the interpreter executes, named by mnemonic and operand
/// forms.
#[allow(non_camel_case_types)]
#[derive(Clone, Copy, Debug, PartialEq, Eq, Structural)]
pub enum Code {
    Add_rm8_r8,
    Add_rm32_r32,
    Add_r8_rm8,
    Add_r16_rm16,
    Add_r32_rm32,
    Or_rm32_r32,
    Or_r32_rm32,
    Adc_rm8_r8,
    Adc_r8_rm8,
    Sbb_rm32_r32,
    Sbb_r8_rm8,
    Sbb_r32_rm32,
    And_rm32_r32,
    And_r32_rm32,
    Sub_rm32_r32,
    Sub_r8_rm8,
    Sub_r32_rm32,
    Xor_rm8_r8,
    Xor_rm32_r32,
    Xor_r8_rm8,
    Xor_r32_rm32,
    Inc_r32,
    Dec_r32,
    Imul_r32_rm32_imm32,
    Imul_r32_rm32_imm8,
    Add_rm8_imm8,
    Or_rm8_imm8,
    Adc_rm8_imm8,
    Sbb_rm8_imm8,
    And_rm8_imm8,
    Sub_rm8_imm8,
    Xor_rm8_imm8,
    Add_rm32_imm32,
    Or_rm16_imm16,
    Or_rm32_imm32,
    And_rm16_imm16,
    And_rm32_imm32,
    Sub_rm32_imm32,
    Xor_rm32_imm32,
    Add_rm16_imm8,
    Add_rm32_imm8,
    Or_rm32_imm8,
    Sbb_rm32_imm8,
    And_rm32_imm8,
    Sub_rm32_imm8,
    Xor_rm32_imm8,
    Mov_rm32_r32,
    Mov_r32_rm32,
    Mov_r32_imm32,
    Shl_rm8_imm8,
    Shr_rm8_imm8,
    Sar_rm8_imm8,
    Ror_rm32_imm8,
    Shl_rm32_imm8,
    Shr_rm32_imm8,
    Sar_rm32_imm8,
    Mov_rm32_imm32,
    Shr_rm32_1,
    Shl_rm8_CL,
    Ror_rm32_CL,
    Shl_rm32_CL,
    Shr_rm32_CL,
    Sar_rm32_CL,
    Neg_rm8,
    Not_rm32,
    Neg_rm32,
    Imul_rm32,
    Div_rm32,
    Idiv_rm32,
    Inc_rm8,
    Dec_rm8,
    Inc_rm32,
    Dec_rm32,
    Imul_r32_rm32,
}

impl Code {
    /// The number by which the decoder knows the opcode.
    pub open spec fn spec_number(self) -> u16 {
        match self {
            Code::Add_rm8_r8 => 5,
            Code::Add_rm32_r32 => 7,
            Code::Add_r8_rm8 => 9,
            Code::Add_r16_rm16 => 10,
            Code::Add_r32_rm32 => 11,
            Code::Or_rm32_r32 => 23,
            Code::Or_r32_rm32 => 27,
            Code::Adc_rm8_r8 => 36,
            Code::Adc_r8_rm8 => 40,
            Code::Sbb_rm32_r32 => 54,
            Code::Sbb_r8_rm8 => 56,
            Code::Sbb_r32_rm32 => 58,
            Code::And_rm32_r32 => 70,
            Code::And_r32_rm32 => 74,
            Code::Sub_rm32_r32 => 83,
            Code::Sub_r8_rm8 => 85,
            Code::Sub_r32_rm32 => 87,
            Code::Xor_rm8_r8 => 94,
            Code::Xor_rm32_r32 => 96,
            Code::Xor_r8_rm8 => 98,
            Code::Xor_r32_rm32 => 100,
            Code::Inc_r32 => 121,
            Code::Dec_r32 => 123,
            Code::Imul_r32_rm32_imm32 => 145,
            Code::Imul_r32_rm32_imm8 => 151,
            Code::Add_rm8_imm8 => 207,
            Code::Or_rm8_imm8 => 208,
            Code::Adc_rm8_imm8 => 209,
            Code::Sbb_rm8_imm8 => 210,
            Code::And_rm8_imm8 => 211,
            Code::Sub_rm8_imm8 => 212,
            Code::Xor_rm8_imm8 => 213,
            Code::Add_rm32_imm32 => 216,
            Code::Or_rm16_imm16 => 218,
            Code::Or_rm32_imm32 => 219,
            Code::And_rm16_imm16 => 227,
            Code::And_rm32_imm32 => 228,
            Code::Sub_rm32_imm32 => 231,
            Code::Xor_rm32_imm32 => 234,
            Code::Add_rm16_imm8 => 247,
            Code::Add_rm32_imm8 => 248,
            Code::Or_rm32_imm8 => 251,
            Code::Sbb_rm32_imm8 => 257,
            Code::And_rm32_imm8 => 260,
            Code::Sub_rm32_imm8 => 263,
            Code::Xor_rm32_imm8 => 266,
            Code::Mov_rm32_r32 => 281,
            Code::Mov_r32_rm32 => 285,
            Code::Mov_r32_imm32 => 357,
            Code::Shl_rm8_imm8 => 363,
            Code::Shr_rm8_imm8 => 364,
            Code::Sar_rm8_imm8 => 366,
            Code::Ror_rm32_imm8 => 371,
            Code::Shl_rm32_imm8 => 380,
            Code::Shr_rm32_imm8 => 383,
            Code::Sar_rm32_imm8 => 389,
            Code::Mov_rm32_imm32 => 404,
            Code::Shr_rm32_1 => 450,
            Code::Shl_rm8_CL => 462,
            Code::Ror_rm32_CL => 470,
            Code::Shl_rm32_CL => 479,
            Code::Shr_rm32_CL => 482,
            Code::Sar_rm32_CL => 488,
            Code::Neg_rm8 => 714,
            Code::Not_rm32 => 726,
            Code::Neg_rm32 => 729,
            Code::Imul_rm32 => 735,
            Code::Div_rm32 => 738,
            Code::Idiv_rm32 => 741,
            Code::Inc_rm8 => 749,
            Code::Dec_rm8 => 750,
            Code::Inc_rm32 => 752,
            Code::Dec_rm32 => 755,
            Code::Imul_r32_rm32 => 2071,
        }
    }

    pub fn number(self) -> (n: u16)
        ensures
            n == self.spec_number(),
    {
        match self {
            Code::Add_rm8_r8 => 5,
            Code::Add_rm32_r32 => 7,
            Code::Add_r8_rm8 => 9,
            Code::Add_r16_rm16 => 10,
            Code::Add_r32_rm32 => 11,
            Code::Or_rm32_r32 => 23,
            Code::Or_r32_rm32 => 27,
            Code::Adc_rm8_r8 => 36,
            Code::Adc_r8_rm8 => 40,
            Code::Sbb_rm32_r32 => 54,
            Code::Sbb_r8_rm8 => 56,
            Code::Sbb_r32_rm32 => 58,
            Code::And_rm32_r32 => 70,
            Code::And_r32_rm32 => 74,
            Code::Sub_rm32_r32 => 83,
            Code::Sub_r8_rm8 => 85,
            Code::Sub_r32_rm32 => 87,
            Code::Xor_rm8_r8 => 94,
            Code::Xor_rm32_r32 => 96,
            Code::Xor_r8_rm8 => 98,
            Code::Xor_r32_rm32 => 100,
            Code::Inc_r32 => 121,
            Code::Dec_r32 => 123,
            Code::Imul_r32_rm32_imm32 => 145,
            Code::Imul_r32_rm32_imm8 => 151,
            Code::Add_rm8_imm8 => 207,
            Code::Or_rm8_imm8 => 208,
            Code::Adc_rm8_imm8 => 209,
            Code::Sbb_rm8_imm8 => 210,
            Code::And_rm8_imm8 => 211,
            Code::Sub_rm8_imm8 => 212,
            Code::Xor_rm8_imm8 => 213,
            Code::Add_rm32_imm32 => 216,
            Code::Or_rm16_imm16 => 218,
            Code::Or_rm32_imm32 => 219,
            Code::And_rm16_imm16 => 227,
            Code::And_rm32_imm32 => 228,
            Code::Sub_rm32_imm32 => 231,
            Code::Xor_rm32_imm32 => 234,
            Code::Add_rm16_imm8 => 247,
            Code::Add_rm32_imm8 => 248,
            Code::Or_rm32_imm8 => 251,
            Code::Sbb_rm32_imm8 => 257,
            Code::And_rm32_imm8 => 260,
            Code::Sub_rm32_imm8 => 263,
            Code::Xor_rm32_imm8 => 266,
            Code::Mov_rm32_r32 => 281,
            Code::Mov_r32_rm32 => 285,
            Code::Mov_r32_imm32 => 357,
            Code::Shl_rm8_imm8 => 363,
            Code::Shr_rm8_imm8 => 364,
            Code::Sar_rm8_imm8 => 366,
            Code::Ror_rm32_imm8 => 371,
            Code::Shl_rm32_imm8 => 380,
            Code::Shr_rm32_imm8 => 383,
            Code::Sar_rm32_imm8 => 389,
            Code::Mov_rm32_imm32 => 404,
            Code::Shr_rm32_1 => 450,
            Code::Shl_rm8_CL => 462,
            Code::Ror_rm32_CL => 470,
            Code::Shl_rm32_CL => 479,
            Code::Shr_rm32_CL => 482,
            Code::Sar_rm32_CL => 488,
            Code::Neg_rm8 => 714,
            Code::Not_rm32 => 726,
            Code::Neg_rm32 => 729,
            Code::Imul_rm32 => 735,
            Code::Div_rm32 => 738,
            Code::Idiv_rm32 => 741,
            Code::Inc_rm8 => 749,
            Code::Dec_rm8 => 750,
            Code::Inc_rm32 => 752,
            Code::Dec_rm32 => 755,
            Code::Imul_r32_rm32 => 2071,
        }
    }

    /// The opcode with the given number, if the interpreter executes it.
    pub fn from_number(n: u16) -> (r: Option<Code>)
        ensures
            match r {
                Some(c) => c.spec_number() == n,
                None => forall|c: Code| c.spec_number() != n,
            },
    {
        match n {
            5 => Some(Code::Add_rm8_r8),
            7 => Some(Code::Add_rm32_r32),
            9 => Some(Code::Add_r8_rm8),
            10 => Some(Code::Add_r16_rm16),
            11 => Some(Code::Add_r32_rm32),
            23 => Some(Code::Or_rm32_r32),
            27 => Some(Code::Or_r32_rm32),
            36 => Some(Code::Adc_rm8_r8),
            40 => Some(Code::Adc_r8_rm8),
            54 => Some(Code::Sbb_rm32_r32),
            56 => Some(Code::Sbb_r8_rm8),
            58 => Some(Code::Sbb_r32_rm32),
            70 => Some(Code::And_rm32_r32),
            74 => Some(Code::And_r32_rm32),
            83 => Some(Code::Sub_rm32_r32),
            85 => Some(Code::Sub_r8_rm8),
            87 => Some(Code::Sub_r32_rm32),
            94 => Some(Code::Xor_rm8_r8),
            96 => Some(Code::Xor_rm32_r32),
            98 => Some(Code::Xor_r8_rm8),
            100 => Some(Code::Xor_r32_rm32),
            121 => Some(Code::Inc_r32),
            123 => Some(Code::Dec_r32),
            145 => Some(Code::Imul_r32_rm32_imm32),
            151 => Some(Code::Imul_r32_rm32_imm8),
            207 => Some(Code::Add_rm8_imm8),
            208 => Some(Code::Or_rm8_imm8),
            209 => Some(Code::Adc_rm8_imm8),
            210 => Some(Code::Sbb_rm8_imm8),
            211 => Some(Code::And_rm8_imm8),
            212 => Some(Code::Sub_rm8_imm8),
            213 => Some(Code::Xor_rm8_imm8),
            216 => Some(Code::Add_rm32_imm32),
            218 => Some(Code::Or_rm16_imm16),
            219 => Some(Code::Or_rm32_imm32),
            227 => Some(Code::And_rm16_imm16),
            228 => Some(Code::And_rm32_imm32),
            231 => Some(Code::Sub_rm32_imm32),
            234 => Some(Code::Xor_rm32_imm32),
            247 => Some(Code::Add_rm16_imm8),
            248 => Some(Code::Add_rm32_imm8),
            251 => Some(Code::Or_rm32_imm8),
            257 => Some(Code::Sbb_rm32_imm8),
            260 => Some(Code::And_rm32_imm8),
            263 => Some(Code::Sub_rm32_imm8),
            266 => Some(Code::Xor_rm32_imm8),
            281 => Some(Code::Mov_rm32_r32),
            285 => Some(Code::Mov_r32_rm32),
            357 => Some(Code::Mov_r32_imm32),
            363 => Some(Code::Shl_rm8_imm8),
            364 => Some(Code::Shr_rm8_imm8),
            366 => Some(Code::Sar_rm8_imm8),
            371 => Some(Code::Ror_rm32_imm8),
            380 => Some(Code::Shl_rm32_imm8),
            383 => Some(Code::Shr_rm32_imm8),
            389 => Some(Code::Sar_rm32_imm8),
            404 => Some(Code::Mov_rm32_imm32),
            450 => Some(Code::Shr_rm32_1),
            462 => Some(Code::Shl_rm8_CL),
            470 => Some(Code::Ror_rm32_CL),
            479 => Some(Code::Shl_rm32_CL),
            482 => Some(Code::Shr_rm32_CL),
            488 => Some(Code::Sar_rm32_CL),
            714 => Some(Code::Neg_rm8),
            726 => Some(Code::Not_rm32),
            729 => Some(Code::Neg_rm32),
            735 => Some(Code::Imul_rm32),
            738 => Some(Code::Div_rm32),
            741 => Some(Code::Idiv_rm32),
            749 => Some(Code::Inc_rm8),
            750 => Some(Code::Dec_rm8),
            752 => Some(Code::Inc_rm32),
            755 => Some(Code::Dec_rm32),
            2071 => Some(Code::Imul_r32_rm32),
            _ => None,
        }
    }
}

/// What kind of thing an operand is.
#[derive(Clone, Copy, Debug, PartialEq, Eq, Structural)]
pub enum OpKind {
    Register,
    Memory,
    Immediate8,
    Immediate16,
    Immediate32,
    /// An 8-bit immediate, sign-extended to 16 bits.
    Immediate8to16,
    /// An 8-bit immediate, sign-extended to 32 bits.
    Immediate8to32,
    /// A kind the interpreter has no operand access for.
    Other,
}

/// A decoded instruction as the decoder numbers its parts.
#[derive(Clone, Copy, Debug, PartialEq, Eq, Structural)]
pub struct RawInstr {
    pub code: u16,
    pub len: u8,
    pub op0_kind: u8,
    pub op1_kind: u8,
    pub op0_register: u8,
    pub op1_register: u8,
    pub immediate: u32,
    pub memory_base: u8,
    pub memory_index: u8,
    pub memory_index_scale: u32,
    pub memory_displacement: u32,
    pub segment_prefix: u8,
}

/// A decoded instruction.
#[derive(Clone, Copy, Debug, PartialEq, Eq, Structural)]
pub struct Instr {
    pub code: Code,
    /// The length in bytes.
    pub len: u32,
    pub op0_kind: OpKind,
    pub op1_kind: OpKind,
    /// The register of operand 0, when its kind is `Register`.
    pub op0_register: Register,
    /// The register of operand 1, when its kind is `Register`.
    pub op1_register: Register,
    /// The immediate operand, as the low bits of 32.
    pub immediate: u32,
    /// The parts of the address of the memory operand, if there is one.
    pub memory_base: Register,
    pub memory_index: Register,
    pub memory_index_scale: u32,
    pub memory_displacement: u32,
    /// The segment that a prefix names, or no register.
    pub segment_prefix: Register,
}

/// The value of `v` read as an 8-bit two's-complement integer.
pub open spec fn sign_extend8(v: u8) -> int {
    if v >= 0x80 {
        v - 0x100
    } else {
        v as int
    }
}

impl OpKind {
    /// The kind with the decoder's number `n`.
    pub open spec fn spec_from_number(n: u8) -> OpKind {
        if n == 0 {
            OpKind::Register
        } else if n == 24 {
            OpKind::Memory
        } else if n == 6 {
            OpKind::Immediate8
        } else if n == 8 {
            OpKind::Immediate16
        } else if n == 9 {
            OpKind::Immediate32
        } else if n == 11 {
            OpKind::Immediate8to16
        } else if n == 12 {
            OpKind::Immediate8to32
        } else {
            OpKind::Other
        }
    }

    pub fn from_number(n: u8) -> (k: OpKind)
        ensures
            k == Self::spec_from_number(n),
    {
        if n == 0 {
            OpKind::Register
        } else if n == 24 {
            OpKind::Memory
        } else if n == 6 {
            OpKind::Immediate8
        } else if n == 8 {
            OpKind::Immediate16
        } else if n == 9 {
            OpKind::Immediate32
        } else if n == 11 {
            OpKind::Immediate8to16
        } else if n == 12 {
            OpKind::Immediate8to32
        } else {
            OpKind::Other
        }
    }
}

impl Register {
    /// The register with the decoder's number `n`, among those of a 32-bit
    /// guest. Zero stands for no register.
    pub open spec fn spec_from_number(n: u8) -> Option<Register> {
        if n == 0 {
            Some(Register::Absent)
        } else if 1 <= n <= 8 {
            Some(
                Register::R8(
                    if n == 1 {
                        Reg8::AL
                    } else if n == 2 {
                        Reg8::CL
                    } else if n == 3 {
                        Reg8::DL
                    } else if n == 4 {
                        Reg8::BL
                    } else if n == 5 {
                        Reg8::AH
                    } else if n == 6 {
                        Reg8::CH
                    } else if n == 7 {
                        Reg8::DH
                    } else {
                        Reg8::BH
                    },
                ),
            )
        } else if 21 <= n <= 28 {
            Some(
                Register::R16(
                    if n == 21 {
                        Reg16::AX
                    } else if n == 22 {
                        Reg16::CX
                    } else if n == 23 {
                        Reg16::DX
                    } else if n == 24 {
                        Reg16::BX
                    } else if n == 25 {
                        Reg16::SP
                    } else if n == 26 {
                        Reg16::BP
                    } else if n == 27 {
                        Reg16::SI
                    } else {
                        Reg16::DI
                    },
                ),
            )
        } else if 37 <= n <= 44 {
            Some(
                Register::R32(
                    if n == 37 {
                        Reg32::EAX
                    } else if n == 38 {
                        Reg32::ECX
                    } else if n == 39 {
                        Reg32::EDX
                    } else if n == 40 {
                        Reg32::EBX
                    } else if n == 41 {
                        Reg32::ESP
                    } else if n == 42 {
                        Reg32::EBP
                    } else if n == 43 {
                        Reg32::ESI
                    } else {
                        Reg32::EDI
                    },
                ),
            )
        } else if 71 <= n <= 76 {
            Some(
                Register::Seg(
                    if n == 71 {
                        Seg::ES
                    } else if n == 72 {
                        Seg::CS
                    } else if n == 73 {
                        Seg::SS
                    } else if n == 74 {
                        Seg::DS
                    } else if n == 75 {
                        Seg::FS
                    } else {
                        Seg::GS
                    },
                ),
            )
        } else {
            None
        }
    }

    pub fn from_number(n: u8) -> (r: Option<Register>)
        ensures
            r == Self::spec_from_number(n),
    {
        match n {
            0 => Some(Register::Absent),
            1 => Some(Register::R8(Reg8::AL)),
            2 => Some(Register::R8(Reg8::CL)),
            3 => Some(Register::R8(Reg8::DL)),
            4 => Some(Register::R8(Reg8::BL)),
            5 => Some(Register::R8(Reg8::AH)),
            6 => Some(Register::R8(Reg8::CH)),
            7 => Some(Register::R8(Reg8::DH)),
            8 => Some(Register::R8(Reg8::BH)),
            21 => Some(Register::R16(Reg16::AX)),
            22 => Some(Register::R16(Reg16::CX)),
            23 => Some(Register::R16(Reg16::DX)),
            24 => Some(Register::R16(Reg16::BX)),
            25 => Some(Register::R16(Reg16::SP)),
            26 => Some(Register::R16(Reg16::BP)),
            27 => Some(Register::R16(Reg16::SI)),
            28 => Some(Register::R16(Reg16::DI)),
            37 => Some(Register::R32(Reg32::EAX)),
            38 => Some(Register::R32(Reg32::ECX)),
            39 => Some(Register::R32(Reg32::EDX)),
            40 => Some(Register::R32(Reg32::EBX)),
            41 => Some(Register::R32(Reg32::ESP)),
            42 => Some(Register::R32(Reg32::EBP)),
            43 => Some(Register::R32(Reg32::ESI)),
            44 => Some(Register::R32(Reg32::EDI)),
            71 => Some(Register::Seg(Seg::ES)),
            72 => Some(Register::Seg(Seg::CS)),
            73 => Some(Register::Seg(Seg::SS)),
            74 => Some(Register::Seg(Seg::DS)),
            75 => Some(Register::Seg(Seg::FS)),
            76 => Some(Register::Seg(Seg::GS)),
            _ => None,
        }
    }
}

impl Instr {
    /// The instruction that a raw record describes: `None` when the opcode
    /// is not one the interpreter executes or a register is not one of a
    /// 32-bit guest.
    pub open spec fn spec_from_raw(raw: RawInstr) -> Option<Instr> {
        if exists|c: Code| c.spec_number() == raw.code {
            let code = choose|c: Code| c.spec_number() == raw.code;
            match (
                Register::spec_from_number(raw.op0_register),
                Register::spec_from_number(raw.op1_register),
                Register::spec_from_number(raw.memory_base),
                Register::spec_from_number(raw.memory_index),
                Register::spec_from_number(raw.segment_prefix),
            ) {
                (Some(op0), Some(op1), Some(base), Some(index), Some(segment)) => Some(
                    Instr {
                        code,
                        len: raw.len as u32,
                        op0_kind: OpKind::spec_from_number(raw.op0_kind),
                        op1_kind: OpKind::spec_from_number(raw.op1_kind),
                        op0_register: op0,
                        op1_register: op1,
                        immediate: raw.immediate,
                        memory_base: base,
                        memory_index: index,
                        memory_index_scale: raw.memory_index_scale,
                        memory_displacement: raw.memory_displacement,
                        segment_prefix: segment,
                    },
                ),
                _ => None,
            }
        } else {
            None
        }
    }

    pub fn from_raw(raw: RawInstr) -> (r: Option<Instr>)
        ensures
            r == Self::spec_from_raw(raw),
    {
        let code = match Code::from_number(raw.code) {
            Some(code) => code,
            None => {
                return None;
            },
        };
        proof {
            lemma_numbers_differ(code, choose|c: Code| c.spec_number() == raw.code);
        }
        let op0 = Register::from_number(raw.op0_register);
        let op1 = Register::from_number(raw.op1_register);
        let base = Register::from_number(raw.memory_base);
        let index = Register::from_number(raw.memory_index);
        let segment = Register::from_number(raw.segment_prefix);
        match (op0, op1, base, index, segment) {
            (Some(op0), Some(op1), Some(base), Some(index), Some(segment)) => Some(
                Instr {
                    code,
                    len: raw.len as u32,
                    op0_kind: OpKind::from_number(raw.op0_kind),
                    op1_kind: OpKind::from_number(raw.op1_kind),
                    op0_register: op0,
                    op1_register: op1,
                    immediate: raw.immediate,
                    memory_base: base,
                    memory_index: index,
                    memory_index_scale: raw.memory_index_scale,
                    memory_displacement: raw.memory_displacement,
                    segment_prefix: segment,
                },
            ),
            _ => None,
        }
    }

    /// The immediate of an operand of kind `Immediate8`.
    pub open spec fn spec_immediate8(self) -> u8 {
        (self.immediate % 0x100) as u8
    }

    /// The immediate of an operand of kind `Immediate16`.
    pub open spec fn spec_immediate16(self) -> u16 {
        (self.immediate % 0x1_0000) as u16
    }

    /// The immediate of an operand of kind `Immediate32`.
    pub open spec fn spec_immediate32(self) -> u32 {
        self.immediate
    }

    /// The immediate of an operand of kind `Immediate8to16`: the low byte,
    /// sign-extended.
    pub open spec fn spec_immediate8to16(self) -> i16 {
        sign_extend8(self.spec_immediate8()) as i16
    }

    /// The immediate of an operand of kind `Immediate8to32`: the low byte,
    /// sign-extended.
    pub open spec fn spec_immediate8to32(self) -> i32 {
        sign_extend8(self.spec_immediate8()) as i32
    }

    pub fn immediate8(&self) -> (v: u8)
        ensures
            v == self.spec_immediate8(),
    {
        (self.immediate % 0x100) as u8
    }

    pub fn immediate16(&self) -> (v: u16)
        ensures
            v == self.spec_immediate16(),
    {
        (self.immediate % 0x1_0000) as u16
    }

    pub fn immediate32(&self) -> (v: u32)
        ensures
            v == self.spec_immediate32(),
    {
        self.immediate
    }

    pub fn immediate8to16(&self) -> (v: i16)
        ensures
            v == self.spec_immediate8to16(),
    {
        let low = self.immediate8();
        if low >= 0x80 {
            (low as i16) - 0x100
        } else {
            low as i16
        }
    }

    pub fn immediate8to32(&self) -> (v: i32)
        ensures
            v == self.spec_immediate8to32(),
    {
        let low = self.immediate8();
        if low >= 0x80 {
            (low as i32) - 0x100
        } else {
            low as i32
        }
    }

    pub fn op0_register(&self) -> (r: Register)
        ensures
            r == self.op0_register,
    {
        self.op0_register
    }

    pub fn op1_register(&self) -> (r: Register)
        ensures
            r == self.op1_register,
    {
        self.op1_register
    }
}

/// No two opcodes share a number.
pub proof fn lemma_numbers_differ(a: Code, b: Code)
    ensures
        a.spec_number() == b.spec_number() ==> a == b,
{
}

/// What the decoder of `iced-x86`, set to 32-bit code and default options,
/// makes of the first instruction in `bytes` when they stand at address
/// `ip`, with each enum of that crate given as its number.
pub uninterp spec fn decoded(bytes: Seq<u8>, ip: u32) -> RawInstr;

/// `iced_x86::Decoder::decode` on a decoder over `bytes` at `ip`. The record
/// holds the instruction's code, length, first two operand kinds and
/// registers, immediate, and memory operand parts, as that crate's accessors
/// return them. Bytes that are no instruction give the crate's code for an
/// invalid one. `None` only when the crate refuses the slice itself.
#[verifier::external_body]
fn decode_raw(bytes: &[u8], ip: u32) -> (r: Option<RawInstr>)
    ensures
        r matches Some(raw) ==> raw == decoded(bytes@, ip),
{
    let i = Decoder::try_with_ip(32, bytes, ip as u64, DecoderOptions::NONE).ok()?.decode();
    Some(RawInstr {
        code: i.code() as u16,
        len: i.len() as u8,
        op0_kind: i.op0_kind() as u8,
        op1_kind: i.op1_kind() as u8,
        op0_register: i.op0_register() as u8,
        op1_register: i.op1_register() as u8,
        immediate: i.immediate32(),
        memory_base: i.memory_base() as u8,
        memory_index: i.memory_index() as u8,
        memory_index_scale: i.memory_index_scale(),
        memory_displacement: i.memory_displacement32(),
        segment_prefix: i.segment_prefix() as u8,
    })
}

/// Decodes the instruction that `bytes` begin with, taken to stand at
/// address `ip`. `None` when the bytes are no instruction that the
/// interpreter executes.
pub fn decode(bytes: &[u8], ip: u32) -> (r: Option<Instr>)
    ensures
        r matches Some(instr) ==> Instr::spec_from_raw(decoded(bytes@, ip)) == Some(instr),
{
    match decode_raw(bytes, ip) {
        Some(raw) => Instr::from_raw(raw),
        None => None,
    }
}

} // verus!
