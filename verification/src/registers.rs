//! The register file.
use vstd::prelude::*;

verus! {

/// The 32-bit general registers.
#[derive(Clone, Copy, Debug, PartialEq, Eq, Structural)]
pub enum Reg32 {
    EAX,
    ECX,
    EDX,
    EBX,
    ESP,
    EBP,
    ESI,
    EDI,
}

/// The 16-bit general registers: the low halves of the 32-bit ones.
#[derive(Clone, Copy, Debug, PartialEq, Eq, Structural)]
pub enum Reg16 {
    AX,
    CX,
    DX,
    BX,
    SP,
    BP,
    SI,
    DI,
}

/// The 8-bit general registers: the two low bytes of each of the first four
/// 32-bit ones.
#[derive(Clone, Copy, Debug, PartialEq, Eq, Structural)]
pub enum Reg8 {
    AL,
    CL,
    DL,
    BL,
    AH,
    CH,
    DH,
    BH,
}

/// The segment registers.
#[derive(Clone, Copy, Debug, PartialEq, Eq, Structural)]
pub enum Seg {
    ES,
    CS,
    SS,
    DS,
    FS,
    GS,
}

/// A register as an instruction names it.
#[derive(Clone, Copy, Debug, PartialEq, Eq, Structural)]
pub enum Register {
    /// No register: the operand has none.
    Absent,
    R8(Reg8),
    R16(Reg16),
    R32(Reg32),
    Seg(Seg),
}

/// The registers of the guest. Each segment register has a selector and a
/// base; the base is added to the address of every memory operand that goes
/// through the segment.
#[derive(Clone, Copy, Debug, PartialEq, Eq, Structural)]
pub struct Registers {
    pub eax: u32,
    pub ecx: u32,
    pub edx: u32,
    pub ebx: u32,
    pub esp: u32,
    pub ebp: u32,
    pub esi: u32,
    pub edi: u32,
    pub eip: u32,
    pub es: u16,
    pub cs: u16,
    pub ss: u16,
    pub ds: u16,
    pub fs: u16,
    pub gs: u16,
    pub es_base: u32,
    pub cs_base: u32,
    pub ss_base: u32,
    pub ds_base: u32,
    pub fs_base: u32,
    pub gs_base: u32,
}

impl Reg16 {
    /// The 32-bit register whose low half this is.
    pub open spec fn spec_full(self) -> Reg32 {
        match self {
            Reg16::AX => Reg32::EAX,
            Reg16::CX => Reg32::ECX,
            Reg16::DX => Reg32::EDX,
            Reg16::BX => Reg32::EBX,
            Reg16::SP => Reg32::ESP,
            Reg16::BP => Reg32::EBP,
            Reg16::SI => Reg32::ESI,
            Reg16::DI => Reg32::EDI,
        }
    }

    pub fn full(self) -> (r: Reg32)
        ensures
            r == self.spec_full(),
    {
        match self {
            Reg16::AX => Reg32::EAX,
            Reg16::CX => Reg32::ECX,
            Reg16::DX => Reg32::EDX,
            Reg16::BX => Reg32::EBX,
            Reg16::SP => Reg32::ESP,
            Reg16::BP => Reg32::EBP,
            Reg16::SI => Reg32::ESI,
            Reg16::DI => Reg32::EDI,
        }
    }
}

impl Reg8 {
    /// The 32-bit register that holds this byte.
    pub open spec fn spec_full(self) -> Reg32 {
        match self {
            Reg8::AL | Reg8::AH => Reg32::EAX,
            Reg8::CL | Reg8::CH => Reg32::ECX,
            Reg8::DL | Reg8::DH => Reg32::EDX,
            Reg8::BL | Reg8::BH => Reg32::EBX,
        }
    }

    /// Whether this is the second byte of its register rather than the
    /// lowest.
    pub open spec fn spec_is_high(self) -> bool {
        match self {
            Reg8::AH | Reg8::CH | Reg8::DH | Reg8::BH => true,
            _ => false,
        }
    }

    pub fn full(self) -> (r: Reg32)
        ensures
            r == self.spec_full(),
    {
        match self {
            Reg8::AL | Reg8::AH => Reg32::EAX,
            Reg8::CL | Reg8::CH => Reg32::ECX,
            Reg8::DL | Reg8::DH => Reg32::EDX,
            Reg8::BL | Reg8::BH => Reg32::EBX,
        }
    }

    pub fn is_high(self) -> (b: bool)
        ensures
            b == self.spec_is_high(),
    {
        match self {
            Reg8::AH | Reg8::CH | Reg8::DH | Reg8::BH => true,
            _ => false,
        }
    }
}

impl Registers {
    pub open spec fn spec_get32(self, r: Reg32) -> u32 {
        match r {
            Reg32::EAX => self.eax,
            Reg32::ECX => self.ecx,
            Reg32::EDX => self.edx,
            Reg32::EBX => self.ebx,
            Reg32::ESP => self.esp,
            Reg32::EBP => self.ebp,
            Reg32::ESI => self.esi,
            Reg32::EDI => self.edi,
        }
    }

    pub open spec fn spec_set32(self, r: Reg32, v: u32) -> Registers {
        match r {
            Reg32::EAX => Registers { eax: v, ..self },
            Reg32::ECX => Registers { ecx: v, ..self },
            Reg32::EDX => Registers { edx: v, ..self },
            Reg32::EBX => Registers { ebx: v, ..self },
            Reg32::ESP => Registers { esp: v, ..self },
            Reg32::EBP => Registers { ebp: v, ..self },
            Reg32::ESI => Registers { esi: v, ..self },
            Reg32::EDI => Registers { edi: v, ..self },
        }
    }

    /// The low half of the register that holds `r`.
    pub open spec fn spec_get16(self, r: Reg16) -> u16 {
        (self.spec_get32(r.spec_full()) % 0x1_0000) as u16
    }

    /// The registers with `r` replaced and the high half of its register
    /// kept.
    pub open spec fn spec_set16(self, r: Reg16, v: u16) -> Registers {
        let full = self.spec_get32(r.spec_full());
        self.spec_set32(r.spec_full(), (full / 0x1_0000 * 0x1_0000 + v) as u32)
    }

    /// The byte `r` of the register that holds it.
    pub open spec fn spec_get8(self, r: Reg8) -> u8 {
        let full = self.spec_get32(r.spec_full());
        if r.spec_is_high() {
            (full / 0x100 % 0x100) as u8
        } else {
            (full % 0x100) as u8
        }
    }

    /// The registers with the byte `r` replaced and the other three bytes of
    /// its register kept.
    pub open spec fn spec_set8(self, r: Reg8, v: u8) -> Registers {
        let full = self.spec_get32(r.spec_full());
        if r.spec_is_high() {
            self.spec_set32(
                r.spec_full(),
                (full / 0x1_0000 * 0x1_0000 + v * 0x100 + full % 0x100) as u32,
            )
        } else {
            self.spec_set32(r.spec_full(), (full / 0x100 * 0x100 + v) as u32)
        }
    }

    /// The base of a segment.
    pub open spec fn spec_base(self, s: Seg) -> u32 {
        match s {
            Seg::ES => self.es_base,
            Seg::CS => self.cs_base,
            Seg::SS => self.ss_base,
            Seg::DS => self.ds_base,
            Seg::FS => self.fs_base,
            Seg::GS => self.gs_base,
        }
    }

    /// All registers zero.
    pub open spec fn spec_new() -> Registers {
        Registers {
            eax: 0,
            ecx: 0,
            edx: 0,
            ebx: 0,
            esp: 0,
            ebp: 0,
            esi: 0,
            edi: 0,
            eip: 0,
            es: 0,
            cs: 0,
            ss: 0,
            ds: 0,
            fs: 0,
            gs: 0,
            es_base: 0,
            cs_base: 0,
            ss_base: 0,
            ds_base: 0,
            fs_base: 0,
            gs_base: 0,
        }
    }

    /// All registers zero.
    pub fn new() -> (regs: Registers)
        ensures
            regs == Self::spec_new(),
    {
        Registers {
            eax: 0,
            ecx: 0,
            edx: 0,
            ebx: 0,
            esp: 0,
            ebp: 0,
            esi: 0,
            edi: 0,
            eip: 0,
            es: 0,
            cs: 0,
            ss: 0,
            ds: 0,
            fs: 0,
            gs: 0,
            es_base: 0,
            cs_base: 0,
            ss_base: 0,
            ds_base: 0,
            fs_base: 0,
            gs_base: 0,
        }
    }

    pub fn get32(&self, r: Reg32) -> (v: u32)
        ensures
            v == self.spec_get32(r),
    {
        match r {
            Reg32::EAX => self.eax,
            Reg32::ECX => self.ecx,
            Reg32::EDX => self.edx,
            Reg32::EBX => self.ebx,
            Reg32::ESP => self.esp,
            Reg32::EBP => self.ebp,
            Reg32::ESI => self.esi,
            Reg32::EDI => self.edi,
        }
    }

    pub fn set32(&mut self, r: Reg32, v: u32)
        ensures
            *final(self) == old(self).spec_set32(r, v),
    {
        match r {
            Reg32::EAX => {
                self.eax = v;
            },
            Reg32::ECX => {
                self.ecx = v;
            },
            Reg32::EDX => {
                self.edx = v;
            },
            Reg32::EBX => {
                self.ebx = v;
            },
            Reg32::ESP => {
                self.esp = v;
            },
            Reg32::EBP => {
                self.ebp = v;
            },
            Reg32::ESI => {
                self.esi = v;
            },
            Reg32::EDI => {
                self.edi = v;
            },
        }
    }

    pub fn get16(&self, r: Reg16) -> (v: u16)
        ensures
            v == self.spec_get16(r),
    {
        (self.get32(r.full()) % 0x1_0000) as u16
    }

    /// Writes a 16-bit register; the high half of the 32-bit register stays.
    pub fn set16(&mut self, r: Reg16, v: u16)
        ensures
            *final(self) == old(self).spec_set16(r, v),
    {
        let full = self.get32(r.full());
        self.set32(r.full(), full / 0x1_0000 * 0x1_0000 + v as u32);
    }

    pub fn get8(&self, r: Reg8) -> (v: u8)
        ensures
            v == self.spec_get8(r),
    {
        let full = self.get32(r.full());
        if r.is_high() {
            (full / 0x100 % 0x100) as u8
        } else {
            (full % 0x100) as u8
        }
    }

    /// Writes an 8-bit register; the other three bytes of the 32-bit
    /// register stay.
    pub fn set8(&mut self, r: Reg8, v: u8)
        ensures
            *final(self) == old(self).spec_set8(r, v),
    {
        let full = self.get32(r.full());
        if r.is_high() {
            self.set32(r.full(), full / 0x1_0000 * 0x1_0000 + (v as u32) * 0x100 + full % 0x100);
        } else {
            self.set32(r.full(), full / 0x100 * 0x100 + v as u32);
        }
    }

    /// The base that is added to addresses that go through segment `s`.
    pub fn base(&self, s: Seg) -> (v: u32)
        ensures
            v == self.spec_base(s),
    {
        match s {
            Seg::ES => self.es_base,
            Seg::CS => self.cs_base,
            Seg::SS => self.ss_base,
            Seg::DS => self.ds_base,
            Seg::FS => self.fs_base,
            Seg::GS => self.gs_base,
        }
    }
}

/// A register holds what was last written to it, and a write to one 32-bit
/// register leaves the others alone.
pub proof fn lemma_set32(regs: Registers, r: Reg32, v: u32, other: Reg32)
    ensures
        regs.spec_set32(r, v).spec_get32(r) == v,
        other != r ==> regs.spec_set32(r, v).spec_get32(other) == regs.spec_get32(other),
{
}

/// A 16-bit write is read back unchanged and keeps the high half of the
/// 32-bit register; no other 32-bit register changes.
pub proof fn lemma_set16(regs: Registers, r: Reg16, v: u16, other: Reg32)
    ensures
        regs.spec_set16(r, v).spec_get16(r) == v,
        regs.spec_set16(r, v).spec_get32(r.spec_full()) / 0x1_0000 == regs.spec_get32(
            r.spec_full(),
        ) / 0x1_0000,
        other != r.spec_full() ==> regs.spec_set16(r, v).spec_get32(other) == regs.spec_get32(
            other,
        ),
{
}

proof fn lemma_replace_byte(full: u32, v: u8)
    ensures
        ({
            let low = full / 0x100 * 0x100 + v;
            let high = full / 0x1_0000 * 0x1_0000 + v * 0x100 + full % 0x100;
            &&& low <= u32::MAX
            &&& low % 0x100 == v
            &&& low / 0x100 == full / 0x100
            &&& high <= u32::MAX
            &&& high / 0x100 % 0x100 == v
            &&& high / 0x1_0000 == full / 0x1_0000
            &&& high % 0x100 == full % 0x100
        }),
{
    let top = full / 0x1_0000;
    let mid = full / 0x100 % 0x100;
    let bottom = full % 0x100;
    assert(full == top * 0x1_0000 + mid * 0x100 + bottom);
    assert(full / 0x100 == top * 0x100 + mid);
}

/// An 8-bit write is read back unchanged and keeps the other three bytes of
/// the 32-bit register; no other 32-bit register changes.
pub proof fn lemma_set8(regs: Registers, r: Reg8, v: u8, other: Reg32)
    ensures
        regs.spec_set8(r, v).spec_get8(r) == v,
        regs.spec_set8(r, v).spec_get32(r.spec_full()) / 0x1_0000 == regs.spec_get32(
            r.spec_full(),
        ) / 0x1_0000,
        r.spec_is_high() ==> regs.spec_set8(r, v).spec_get32(r.spec_full()) % 0x100
            == regs.spec_get32(r.spec_full()) % 0x100,
        !r.spec_is_high() ==> regs.spec_set8(r, v).spec_get32(r.spec_full()) / 0x100 % 0x100
            == regs.spec_get32(r.spec_full()) / 0x100 % 0x100,
        other != r.spec_full() ==> regs.spec_set8(r, v).spec_get32(other) == regs.spec_get32(
            other,
        ),
{
    let full = regs.spec_get32(r.spec_full());
    lemma_replace_byte(full, v);
    lemma_set32(regs, r.spec_full(), (full / 0x100 * 0x100 + v) as u32, other);
    lemma_set32(
        regs,
        r.spec_full(),
        (full / 0x1_0000 * 0x1_0000 + v * 0x100 + full % 0x100) as u32,
        other,
    );
}

} // verus!
