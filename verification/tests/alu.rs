use win32emu::flags::{Flag, Flags};
use win32emu::ops::math::{
    add, addc, and, binary, dec, imul_trunc, inc, neg, not, or, ror, sar, sbb, shift, shl, shr, sub,
    unary, xor, Binary, Shift, Unary,
};

/// Carry, zero, sign and overflow.
fn arithmetic(flags: Flags) -> (bool, bool, bool, bool) {
    (flags.cf, flags.zf, flags.sf, flags.of)
}

fn flags_with_carry() -> Flags {
    let mut flags = Flags::empty();
    flags.set(Flag::CF, true);
    flags
}

#[test]
fn add_small_numbers() {
    let mut flags = Flags::empty();
    let r = add::<u32>(3, 5, &mut flags);
    assert_eq!(r, 8);
    assert!(!flags.zf && !flags.sf && !flags.cf && !flags.of);
}

#[test]
fn add_to_zero_carries() {
    let mut flags = Flags::empty();
    let r = add::<u32>(3, 0xFFFF_FFFD, &mut flags);
    assert_eq!(r, 0);
    assert!(flags.zf && flags.cf && !flags.of);
}

#[test]
fn add_negative_result() {
    let mut flags = Flags::empty();
    let r = add::<u32>(3, 0xFFFF_FFFB, &mut flags);
    assert_eq!(r, 0xFFFF_FFFE);
    assert!(!flags.zf && flags.sf && !flags.cf && !flags.of);
}

#[test]
fn adc_byte_with_carry_in() {
    let mut flags = Flags::empty();
    let r = addc::<u8>(0xFF, 0, 1, &mut flags);
    assert_eq!(r, 0);
    assert!(flags.cf && flags.zf);
    let r = addc::<u8>(0xFF, 1, 1, &mut flags);
    assert_eq!(r, 1);
    assert!(flags.cf);
    let r = addc::<u8>(0xFF, 0xFE, 1, &mut flags);
    assert_eq!(r, 0xFE);
    assert!(flags.cf);
    let r = addc::<u8>(0xFF, 0xFF, 1, &mut flags);
    assert_eq!(r, 0xFF);
    assert!(flags.cf && flags.sf);
}

#[test]
fn adc_carry_wraps_second_operand() {
    let mut flags = Flags::empty();
    let r = addc::<u32>(0, 0xFFFF_FFFF, 1, &mut flags);
    assert_eq!(r, 0);
    assert!(flags.cf && flags.zf && !flags.of);
}

#[test]
fn adc_overflow_counts_the_carry() {
    let mut flags = Flags::empty();
    let r = addc::<u8>(0, 0x7F, 1, &mut flags);
    assert_eq!(r, 0x80);
    assert!(flags.of && flags.sf && !flags.cf);
}

#[test]
fn add_signed_overflow_at_each_width() {
    let mut flags = Flags::empty();
    assert_eq!(add::<u8>(0x7F, 1, &mut flags), 0x80);
    assert!(flags.of && flags.sf && !flags.cf);
    assert_eq!(add::<u16>(0x7FFF, 1, &mut flags), 0x8000);
    assert!(flags.of && flags.sf && !flags.cf);
    assert_eq!(add::<u32>(0x7FFF_FFFF, 1, &mut flags), 0x8000_0000);
    assert!(flags.of && flags.sf && !flags.cf);
    assert_eq!(add::<u8>(0x80, 0x80, &mut flags), 0);
    assert!(flags.of && !flags.sf && flags.cf && flags.zf);
}

#[test]
fn add_at_eight_bits_is_add_at_thirty_two_bits_moved_up() {
    for x in [0u8, 1, 0x7F, 0x80, 0xFF, 0x5A] {
        for y in [0u8, 1, 0x7F, 0x80, 0xFF, 0xA6] {
            let mut narrow = Flags::empty();
            let mut wide = Flags::empty();
            let r8 = add::<u8>(x, y, &mut narrow);
            let r32 = add::<u32>((x as u32) << 24, (y as u32) << 24, &mut wide);
            assert_eq!((r8 as u32) << 24, r32);
            assert_eq!(arithmetic(narrow), arithmetic(wide));
            let r8 = sub::<u8>(x, y, &mut narrow);
            let r32 = sub::<u32>((x as u32) << 24, (y as u32) << 24, &mut wide);
            assert_eq!((r8 as u32) << 24, r32);
            assert_eq!(arithmetic(narrow), arithmetic(wide));
        }
    }
}

#[test]
fn sub_from_most_negative_overflows() {
    let mut flags = Flags::empty();
    let r = sub::<u32>(0x8000_0000, 1, &mut flags);
    assert_eq!(r, 0x7FFF_FFFF);
    assert!(!flags.cf && flags.of && !flags.sf);
}

#[test]
fn sub_borrows() {
    let mut flags = Flags::empty();
    let r = sub::<u8>(3, 5, &mut flags);
    assert_eq!(r, 0xFE);
    assert!(flags.cf && flags.sf && !flags.of && !flags.zf);
    let r = sub::<u16>(5, 5, &mut flags);
    assert_eq!(r, 0);
    assert!(!flags.cf && flags.zf);
}

#[test]
fn sbb_takes_the_borrow() {
    let mut flags = Flags::empty();
    let r = sbb::<u8>(5, 3, true, &mut flags);
    assert_eq!(r, 1);
    assert!(!flags.cf);
    let r = sbb::<u8>(0, 0xFF, true, &mut flags);
    assert_eq!(r, 0);
    assert!(flags.cf && flags.zf);
    let r = sbb::<u32>(0, 0, true, &mut flags);
    assert_eq!(r, 0xFFFF_FFFF);
    assert!(flags.cf && flags.sf);
    let r = sbb::<u8>(0x80, 0x7F, true, &mut flags);
    assert_eq!(r, 0);
    assert!(flags.of && flags.zf && !flags.cf);
}

#[test]
fn logic_clears_carry_and_overflow() {
    let mut flags = Flags::empty();
    flags.set(Flag::CF, true);
    flags.set(Flag::OF, true);
    assert_eq!(and::<u8>(0xF0, 0x8F, &mut flags), 0x80);
    assert!(!flags.cf && !flags.of && flags.sf && !flags.zf);
    flags.set(Flag::CF, true);
    flags.set(Flag::OF, true);
    assert_eq!(or::<u16>(0x00F0, 0x0F00, &mut flags), 0x0FF0);
    assert!(!flags.cf && !flags.of && !flags.sf && !flags.zf);
    flags.set(Flag::CF, true);
    flags.set(Flag::OF, true);
    assert_eq!(xor::<u32>(0xDEAD_BEEF, 0xDEAD_BEEF, &mut flags), 0);
    assert!(!flags.cf && !flags.of && !flags.sf && flags.zf);
}

#[test]
fn logic_keeps_direction_and_auxiliary_carry() {
    let mut flags = Flags::empty();
    flags.set(Flag::DF, true);
    flags.set(Flag::PF, true);
    flags.set(Flag::AF, true);
    and::<u32>(1, 1, &mut flags);
    assert!(flags.df && flags.af);
    assert!(!flags.pf);
    flags.set(Flag::AF, false);
    or::<u8>(1, 2, &mut flags);
    assert!(flags.df && !flags.af && flags.pf);
}

#[test]
fn parity_looks_at_the_low_byte() {
    let mut flags = Flags::empty();
    for (value, even) in [
        (0x00u32, true),
        (0x01, false),
        (0x03, true),
        (0x07, false),
        (0x80, false),
        (0x81, true),
        (0xFF, true),
        (0xFE, false),
        (0x1_00, true),
        (0xFFFF_FF01, false),
        (0x8000_0003, true),
    ] {
        xor::<u32>(value, 0, &mut flags);
        assert_eq!(flags.pf, even, "{value:x}");
        add::<u32>(value, 0, &mut flags);
        assert_eq!(flags.pf, even, "{value:x}");
        sub::<u32>(value, 0, &mut flags);
        assert_eq!(flags.pf, even, "{value:x}");
    }
    shl::<u8>(0x03, 1, &mut flags);
    assert!(flags.pf);
    shr::<u8>(0x03, 1, &mut flags);
    assert!(!flags.pf);
    sar::<u8>(0x86, 1, &mut flags);
    assert!(flags.pf);
    sar::<u8>(0x82, 1, &mut flags);
    assert!(!flags.pf);
}

#[test]
fn auxiliary_carry_is_the_carry_out_of_the_low_nibble() {
    let mut flags = Flags::empty();
    add::<u32>(3, 5, &mut flags);
    assert!(!flags.af && !flags.pf);
    add::<u32>(0x0F, 1, &mut flags);
    assert!(flags.af);
    add::<u8>(0xF8, 0x08, &mut flags);
    assert!(flags.af && flags.cf);
    add::<u8>(0xF0, 0x10, &mut flags);
    assert!(!flags.af && flags.cf);
    addc::<u8>(0x07, 0x08, 1, &mut flags);
    assert!(flags.af);
    addc::<u8>(0x07, 0x08, 0, &mut flags);
    assert!(!flags.af);
    sub::<u32>(0x10, 1, &mut flags);
    assert!(flags.af && flags.pf);
    sub::<u32>(0x1F, 0x0F, &mut flags);
    assert!(!flags.af);
    sbb::<u8>(0x15, 0x05, true, &mut flags);
    assert!(flags.af);
    inc::<u8>(0x0F, &mut flags);
    assert!(flags.af);
    dec::<u8>(0x10, &mut flags);
    assert!(flags.af);
    neg::<u8>(0x10, &mut flags);
    assert!(!flags.af);
    neg::<u8>(0x01, &mut flags);
    assert!(flags.af);
    // shifts and rotations leave it alone
    shl::<u8>(0x08, 1, &mut flags);
    assert!(flags.af);
    ror::<u8>(0x08, 1, &mut flags);
    assert!(flags.af);
}

#[test]
fn not_changes_no_flag() {
    assert_eq!(not::<u8>(0x0F), 0xF0);
    assert_eq!(not::<u16>(0), 0xFFFF);
    assert_eq!(not::<u32>(0xFFFF_0000), 0x0000_FFFF);
}

#[test]
fn shl_by_zero_changes_nothing() {
    let mut flags = flags_with_carry();
    assert_eq!(shl::<u32>(0x8000_0001, 0, &mut flags), 0x8000_0001);
    assert_eq!(flags, flags_with_carry());
}

#[test]
fn shl_carry_is_the_last_bit_out() {
    let mut flags = Flags::empty();
    assert_eq!(shl::<u8>(0x81, 1, &mut flags), 0x02);
    assert!(flags.cf && flags.of && !flags.sf && !flags.zf);
    assert_eq!(shl::<u8>(0x40, 1, &mut flags), 0x80);
    assert!(!flags.cf && flags.of && flags.sf);
    assert_eq!(shl::<u32>(0x0000_0001, 31, &mut flags), 0x8000_0000);
    assert!(!flags.cf && !flags.of && flags.sf);
    assert_eq!(shl::<u32>(0x0000_0003, 31, &mut flags), 0x8000_0000);
    assert!(flags.cf);
    assert_eq!(shl::<u16>(0xC000, 2, &mut flags), 0);
    assert!(flags.cf && !flags.of && flags.zf);
}

#[test]
fn shl_by_the_width_and_more() {
    let mut flags = Flags::empty();
    assert_eq!(shl::<u8>(0x01, 8, &mut flags), 0);
    assert!(flags.cf && flags.zf);
    assert_eq!(shl::<u8>(0xFF, 9, &mut flags), 0);
    assert!(!flags.cf && flags.zf);
    assert_eq!(shl::<u32>(0xFFFF_FFFF, 32, &mut flags), 0);
    assert!(flags.cf);
    assert_eq!(shl::<u32>(0xFFFF_FFFF, 200, &mut flags), 0);
    assert!(!flags.cf);
}

#[test]
fn shr_carry_and_overflow() {
    let mut flags = flags_with_carry();
    assert_eq!(shr::<u32>(0x8000_0001, 0, &mut flags), 0x8000_0001);
    assert_eq!(flags, flags_with_carry());
    assert_eq!(shr::<u32>(0x8000_0001, 1, &mut flags), 0x4000_0000);
    assert!(flags.cf && flags.of && !flags.sf && !flags.zf);
    assert_eq!(shr::<u8>(0x04, 3, &mut flags), 0);
    assert!(flags.cf && !flags.of && flags.zf && !flags.sf);
    assert_eq!(shr::<u8>(0x80, 8, &mut flags), 0);
    assert!(flags.cf && flags.of);
    assert_eq!(shr::<u32>(0xFFFF_FFFF, 32, &mut flags), 0);
    assert!(flags.cf);
    assert_eq!(shr::<u32>(0xFFFF_FFFF, 33, &mut flags), 0);
    assert!(!flags.cf);
}

#[test]
fn sar_keeps_the_sign() {
    let mut flags = flags_with_carry();
    assert_eq!(sar::<u8>(0x80, 0, &mut flags), 0x80);
    assert_eq!(flags, flags_with_carry());
    flags.set(Flag::OF, true);
    assert_eq!(sar::<u8>(0x80, 1, &mut flags), 0xC0);
    assert!(!flags.cf && !flags.of && flags.sf);
    assert_eq!(sar::<u8>(0x81, 1, &mut flags), 0xC0);
    assert!(flags.cf);
    assert_eq!(sar::<u32>(0x8000_0000, 31, &mut flags), 0xFFFF_FFFF);
    assert!(!flags.cf && flags.sf);
    assert_eq!(sar::<u32>(0x7FFF_FFFF, 31, &mut flags), 0);
    assert!(flags.cf && flags.zf);
    assert_eq!(sar::<u16>(0x8000, 16, &mut flags), 0xFFFF);
    assert!(flags.cf);
    assert_eq!(sar::<u16>(0x4000, 17, &mut flags), 0);
    assert!(!flags.cf);
    assert_eq!(sar::<u32>(0x8000_0000, 40, &mut flags), 0xFFFF_FFFF);
    assert!(flags.cf);
}

#[test]
fn ror_carry_is_the_new_top_bit() {
    let mut flags = Flags::empty();
    assert_eq!(ror::<u32>(0x0000_0001, 1, &mut flags), 0x8000_0000);
    assert!(flags.cf && flags.of);
    assert_eq!(ror::<u32>(0x0000_0003, 1, &mut flags), 0x8000_0001);
    assert!(flags.cf && flags.of);
    assert_eq!(ror::<u32>(0x0000_0006, 1, &mut flags), 0x0000_0003);
    assert!(!flags.cf && !flags.of);
    assert_eq!(ror::<u32>(0x8000_0000, 1, &mut flags), 0x4000_0000);
    assert!(!flags.cf && flags.of);
    assert_eq!(ror::<u32>(0x1234_5678, 32, &mut flags), 0x1234_5678);
    assert_eq!(ror::<u32>(0x1234_5678, 36, &mut flags), 0x8123_4567);
    assert!(flags.cf);
    assert_eq!(ror::<u8>(0x81, 4, &mut flags), 0x18);
    assert_eq!(ror::<u16>(0x0001, 17, &mut flags), 0x8000);
}

#[test]
fn inc_and_dec_keep_the_carry() {
    let mut flags = flags_with_carry();
    assert_eq!(inc::<u8>(0xFF, &mut flags), 0);
    assert!(flags.cf && flags.zf && !flags.of);
    assert_eq!(inc::<u8>(0x7F, &mut flags), 0x80);
    assert!(flags.cf && flags.of && flags.sf);
    let mut flags = Flags::empty();
    assert_eq!(dec::<u32>(0, &mut flags), 0xFFFF_FFFF);
    assert!(!flags.cf && flags.sf && !flags.of);
    assert_eq!(dec::<u32>(0x8000_0000, &mut flags), 0x7FFF_FFFF);
    assert!(!flags.cf && flags.of);
    assert_eq!(inc::<u32>(0x7FFF_FFFF, &mut flags), 0x8000_0000);
    assert!(flags.of);
    assert_eq!(inc::<u32>(0xFFFF_FFFF, &mut flags), 0);
    assert!(!flags.of && flags.zf && !flags.cf);
}

#[test]
fn neg_sets_carry_unless_zero() {
    let mut flags = Flags::empty();
    assert_eq!(neg::<u32>(1, &mut flags), 0xFFFF_FFFF);
    assert!(flags.cf && flags.sf && !flags.zf);
    assert_eq!(neg::<u32>(0, &mut flags), 0);
    assert!(!flags.cf && flags.zf);
    assert_eq!(neg::<u8>(0x80, &mut flags), 0x80);
    assert!(flags.cf && flags.of);
}

#[test]
fn imul_trunc_reports_lost_bits() {
    let mut flags = Flags::empty();
    assert_eq!(imul_trunc(7, -3, &mut flags), -21);
    assert!(!flags.cf && !flags.of);
    assert_eq!(imul_trunc(0x10000, 0x10000, &mut flags), 0);
    assert!(flags.cf && flags.of);
    assert_eq!(imul_trunc(i32::MIN, -1, &mut flags), i32::MIN);
    assert!(flags.cf && flags.of);
}

#[test]
fn same_inputs_same_outputs() {
    let ops = [
        Binary::Add,
        Binary::Adc,
        Binary::Sub,
        Binary::Sbb,
        Binary::And,
        Binary::Or,
        Binary::Xor,
    ];
    for op in ops {
        for carry in [false, true] {
            let mut first = Flags::empty();
            first.set(Flag::CF, carry);
            let mut second = first;
            second.set(Flag::ZF, true);
            second.set(Flag::OF, true);
            second.set(Flag::SF, true);
            let a = binary::<u16>(op, 0x8001, 0x7FFF, &mut first);
            let b = binary::<u16>(op, 0x8001, 0x7FFF, &mut second);
            assert_eq!(a, b);
            assert_eq!(first, second);
        }
    }
    for op in [Shift::Shl, Shift::Shr, Shift::Sar, Shift::Ror] {
        let mut first = Flags::empty();
        let mut second = Flags::empty();
        assert_eq!(shift::<u8>(op, 0x96, 3, &mut first), shift::<u8>(op, 0x96, 3, &mut second));
        assert_eq!(first, second);
    }
    for op in [Unary::Inc, Unary::Dec, Unary::Neg, Unary::Not] {
        let mut first = Flags::empty();
        let mut second = Flags::empty();
        assert_eq!(unary::<u32>(op, 0x96, &mut first), unary::<u32>(op, 0x96, &mut second));
        assert_eq!(first, second);
    }
}

#[test]
fn binary_takes_the_carry_from_the_flags() {
    let mut flags = flags_with_carry();
    assert_eq!(binary::<u8>(Binary::Adc, 1, 1, &mut flags), 3);
    let mut flags = flags_with_carry();
    assert_eq!(binary::<u8>(Binary::Sbb, 1, 1, &mut flags), 0xFF);
    assert!(flags.cf);
    let mut flags = flags_with_carry();
    assert_eq!(binary::<u8>(Binary::Add, 1, 1, &mut flags), 2);
    assert!(!flags.cf);
}

#[test]
fn overflow_is_the_top_bit_of_the_formula() {
    for x in [0u32, 1, 0x7FFF_FFFF, 0x8000_0000, 0xFFFF_FFFF, 0x1234_5678] {
        for y in [0u32, 1, 0x7FFF_FFFF, 0x8000_0000, 0xFFFF_FFFF, 0x9ABC_DEF0] {
            let mut flags = Flags::empty();
            let r = add::<u32>(x, y, &mut flags);
            assert_eq!(flags.of, ((x ^ !y) & (x ^ r)) >> 31 == 1);
            assert_eq!(flags.cf, r < x);
            let r = sub::<u32>(x, y, &mut flags);
            assert_eq!(flags.of, ((x ^ y) & (x ^ r)) >> 31 == 1);
            assert_eq!(flags.cf, x < y);
        }
    }
}
