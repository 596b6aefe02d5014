use win32emu::flags::{Flag, Flags};
use win32emu::registers::{Reg16, Reg32, Reg8, Registers, Seg};

#[test]
fn a_sixteen_bit_write_keeps_the_high_half() {
    let mut regs = Registers::new();
    regs.set32(Reg32::EAX, 0x1234_5678);
    regs.set16(Reg16::AX, 0xABCD);
    assert_eq!(regs.get32(Reg32::EAX), 0x1234_ABCD);
    assert_eq!(regs.get16(Reg16::AX), 0xABCD);
    regs.set32(Reg32::EDI, 0xFFFF_FFFF);
    regs.set16(Reg16::DI, 0);
    assert_eq!(regs.edi, 0xFFFF_0000);
}

#[test]
fn an_eight_bit_write_keeps_the_other_bytes() {
    let mut regs = Registers::new();
    regs.set32(Reg32::EAX, 0x1234_5678);
    regs.set8(Reg8::AH, 0xAB);
    assert_eq!(regs.eax, 0x1234_AB78);
    regs.set8(Reg8::AL, 0xCD);
    assert_eq!(regs.eax, 0x1234_ABCD);
    assert_eq!(regs.get8(Reg8::AH), 0xAB);
    assert_eq!(regs.get8(Reg8::AL), 0xCD);
    regs.set32(Reg32::EBX, 0xFFFF_FFFF);
    regs.set8(Reg8::BH, 0);
    assert_eq!(regs.ebx, 0xFFFF_00FF);
    regs.set8(Reg8::BL, 0);
    assert_eq!(regs.ebx, 0xFFFF_0000);
}

#[test]
fn registers_do_not_alias_each_other() {
    let mut regs = Registers::new();
    let all = [
        Reg32::EAX,
        Reg32::ECX,
        Reg32::EDX,
        Reg32::EBX,
        Reg32::ESP,
        Reg32::EBP,
        Reg32::ESI,
        Reg32::EDI,
    ];
    for (i, r) in all.iter().enumerate() {
        regs.set32(*r, 0x1000 + i as u32);
    }
    for (i, r) in all.iter().enumerate() {
        assert_eq!(regs.get32(*r), 0x1000 + i as u32);
    }
    regs.set8(Reg8::CL, 0xFF);
    regs.set8(Reg8::DH, 0xEE);
    assert_eq!(regs.eax, 0x1000);
    assert_eq!(regs.ecx, 0x10FF);
    assert_eq!(regs.edx, 0xEE02);
    assert_eq!(regs.ebx, 0x1003);
}

#[test]
fn segment_bases() {
    let mut regs = Registers::new();
    regs.fs_base = 0x7FFD_E000;
    assert_eq!(regs.base(Seg::FS), 0x7FFD_E000);
    assert_eq!(regs.base(Seg::DS), 0);
}

#[test]
fn flag_bits() {
    let mut flags = Flags::empty();
    assert_eq!(flags.bits(), 0);
    flags.set(Flag::CF, true);
    assert_eq!(flags.bits(), 0x001);
    flags.insert(Flag::ZF);
    assert_eq!(flags.bits(), 0x041);
    flags.insert(Flag::SF);
    flags.insert(Flag::DF);
    flags.insert(Flag::OF);
    assert_eq!(flags.bits(), 0xCC1);
    flags.insert(Flag::PF);
    flags.insert(Flag::AF);
    assert_eq!(flags.bits(), 0xCD5);
    flags.remove(Flag::CF);
    assert!(!flags.contains(Flag::CF));
    assert!(flags.contains(Flag::OF));
    assert_eq!(flags.bits(), 0xCD4);
}

#[test]
fn flags_from_the_flags_word() {
    let flags = Flags::from_bits_truncate(0xFFFF_FFFF);
    assert_eq!(flags.bits(), 0xCD5);
    let flags = Flags::from_bits_truncate(0x0000_0881);
    assert!(flags.cf && flags.sf && flags.of);
    assert!(!flags.zf && !flags.pf && !flags.af && !flags.df);
    for word in [0u32, 1, 0x40, 0x80, 0x400, 0x800, 0xCD5, 0x845] {
        assert_eq!(Flags::from_bits_truncate(word).bits(), word);
    }
}
