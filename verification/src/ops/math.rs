//! Arithmetic and logic.
//!
//! Each mnemonic has one kernel, written once for all operand widths. A
//! kernel takes its operands, returns the result and updates the flags it
//! defines; the flags it does not define keep their values.
use crate::fault::{Fault, StepResult};
use crate::flags::Flags;
use crate::instr::Instr;
use crate::ops::helpers::{
    load, op0_rm32, op1_rm16, op1_rm32, op1_rm8, rm, spec_load, spec_op0_rm, spec_op1_rm, spec_rm,
    spec_store, store, Operand,
};
use crate::registers::{Reg8, Register, Registers};
use crate::width::{bit, lemma_wrap, lemma_wrap_period, mask, signed, top_bit, wrap, Int};
use crate::x86::{undecodable, Cpu, Machine, X86};
use vstd::prelude::*;

verus! {

/// How many of the low `n` bits of `v` are set.
pub open spec fn ones(v: nat, n: nat) -> nat
    decreases n,
{
    if n == 0 {
        0
    } else {
        v % 2 + ones(v / 2, (n - 1) as nat)
    }
}

/// The parity of a result: whether its low byte has an even number of bits
/// set.
pub open spec fn parity(r: u32) -> bool {
    ones(r as nat, 8) % 2 == 0
}

/// The flags after a bitwise AND, OR or XOR with result `r`: zero, sign and
/// parity follow the result, carry and overflow are cleared. The auxiliary
/// carry is left as it is.
pub open spec fn logic_flags(f: Flags, bits: nat, r: u32) -> Flags {
    Flags { cf: false, of: false, zf: r == 0, sf: top_bit(bits, r), pf: parity(r), ..f }
}

/// The sum `x + y + c`, cut to the width.
pub open spec fn add_result(bits: nat, x: u32, y: u32, c: u32) -> u32 {
    wrap(bits, x + y + c)
}

/// The flags after adding `y` and the carry `c` to `x`. Carry is the carry
/// out of the top bit, the auxiliary carry that out of the low four bits.
/// Overflow is set when both operands have the same sign and the result has
/// the other. Zero, sign and parity follow the result.
pub open spec fn add_flags(f: Flags, bits: nat, x: u32, y: u32, c: u32) -> Flags {
    let r = add_result(bits, x, y, c);
    Flags {
        cf: x + y + c > mask(bits),
        af: x % 16 + y % 16 + c > 15,
        zf: r == 0,
        sf: top_bit(bits, r),
        pf: parity(r),
        of: top_bit(bits, x) == top_bit(bits, y) && top_bit(bits, r) != top_bit(bits, x),
        ..f
    }
}

/// The difference `x - y - b`, cut to the width.
pub open spec fn sub_result(bits: nat, x: u32, y: u32, b: bool) -> u32 {
    wrap(bits, x - y - (if b { 1int } else { 0 }))
}

/// The flags after subtracting `y` and the borrow `b` from `x`. Carry is the
/// borrow into the top bit, the auxiliary carry that into the low four bits.
/// Overflow is set when the operands have different signs and the result has
/// not the sign of `x`. Zero, sign and parity follow the result.
pub open spec fn sub_flags(f: Flags, bits: nat, x: u32, y: u32, b: bool) -> Flags {
    let r = sub_result(bits, x, y, b);
    Flags {
        cf: x < y + (if b { 1int } else { 0 }),
        af: x % 16 < y % 16 + (if b { 1int } else { 0 }),
        zf: r == 0,
        sf: top_bit(bits, r),
        pf: parity(r),
        of: top_bit(bits, x) != top_bit(bits, y) && top_bit(bits, r) != top_bit(bits, x),
        ..f
    }
}

/// The flags after an increment: those of adding one, with carry kept.
pub open spec fn inc_flags(f: Flags, bits: nat, x: u32) -> Flags {
    Flags { cf: f.cf, ..add_flags(f, bits, x, 1, 0) }
}

/// The flags after a decrement: those of subtracting one, with carry kept.
pub open spec fn dec_flags(f: Flags, bits: nat, x: u32) -> Flags {
    Flags { cf: f.cf, ..sub_flags(f, bits, x, 1, false) }
}

/// `x` shifted left by `n`, cut to the width.
pub open spec fn shl_result(bits: nat, x: u32, n: u8) -> u32 {
    if n >= bits {
        0
    } else {
        (x << (n as u32)) & mask(bits)
    }
}

/// The flags after a left shift by `n`. A shift by zero changes none. Else
/// carry is the last bit shifted out, bit `bits - n` of `x`, overflow tells
/// whether the top two bits of `x` differ, and zero, sign and parity follow
/// the result. The auxiliary carry is left as it is.
pub open spec fn shl_flags(f: Flags, bits: nat, x: u32, n: u8) -> Flags {
    if n == 0 {
        f
    } else {
        let r = shl_result(bits, x, n);
        Flags {
            cf: n <= bits && bit(x, bits - n),
            zf: r == 0,
            sf: top_bit(bits, r),
            pf: parity(r),
            of: top_bit(bits, x) != bit(x, bits - 2),
            ..f
        }
    }
}

/// `x` shifted right by `n`, zeros coming in at the top.
pub open spec fn shr_result(x: u32, n: u8) -> u32 {
    if n >= 32 {
        0
    } else {
        x >> (n as u32)
    }
}

/// The flags after a logical right shift by `n`. A shift by zero changes
/// none. Else carry is the last bit shifted out, bit `n - 1` of `x`,
/// overflow is the top bit that `x` had, and zero, sign and parity follow
/// the result. The auxiliary carry is left as it is.
pub open spec fn shr_flags(f: Flags, bits: nat, x: u32, n: u8) -> Flags {
    if n == 0 {
        f
    } else {
        let r = shr_result(x, n);
        Flags {
            cf: bit(x, n - 1),
            zf: r == 0,
            sf: top_bit(bits, r),
            pf: parity(r),
            of: top_bit(bits, x),
            ..f
        }
    }
}

/// The bits that an arithmetic right shift by `n` brings in at the top: `n`
/// copies of the sign.
pub open spec fn sign_fill(bits: nat, x: u32, n: u32) -> u32 {
    if !top_bit(bits, x) {
        0
    } else if n >= bits {
        mask(bits)
    } else {
        mask(bits) & !(mask(bits) >> n)
    }
}

/// `x` shifted right by `n`, copies of the sign coming in at the top.
pub open spec fn sar_result(bits: nat, x: u32, n: u32) -> u32 {
    if n >= bits {
        sign_fill(bits, x, n)
    } else {
        (x >> n) | sign_fill(bits, x, n)
    }
}

/// The flags after an arithmetic right shift by `n`. A shift by zero changes
/// none. Else carry is the last bit shifted out, which is the sign once the
/// whole width is gone, overflow is cleared, and zero, sign and parity
/// follow the result. The auxiliary carry is left as it is.
pub open spec fn sar_flags(f: Flags, bits: nat, x: u32, n: u32) -> Flags {
    if n == 0 {
        f
    } else {
        let r = sar_result(bits, x, n);
        Flags {
            cf: if n <= bits {
                bit(x, n - 1)
            } else {
                top_bit(bits, x)
            },
            zf: r == 0,
            sf: top_bit(bits, r),
            pf: parity(r),
            of: false,
            ..f
        }
    }
}

/// `x` rotated right by `n` within the width.
pub open spec fn ror_result(bits: nat, x: u32, n: u8) -> u32 {
    let k = (n as nat % bits) as u32;
    if k == 0 {
        x
    } else {
        ((x >> k) | (x << ((bits - k) as u32))) & mask(bits)
    }
}

/// The flags after a rotation to the right: carry is the top bit of the
/// result, overflow tells whether its top two bits differ. No other flag
/// changes.
pub open spec fn ror_flags(f: Flags, bits: nat, x: u32, n: u8) -> Flags {
    let r = ror_result(bits, x, n);
    Flags { cf: top_bit(bits, r), of: top_bit(bits, r) != bit(r, bits - 2), ..f }
}

/// The flags after a signed multiplication whose product is cut to 32 bits:
/// carry and overflow tell whether the cut lost anything. No other flag
/// changes.
pub open spec fn imul_flags(f: Flags, x: i32, y: i32) -> Flags {
    let lost = vstd::wrapping::i32_specs::wrapping_mul(x, y) != x * y;
    Flags { cf: lost, of: lost, ..f }
}

fn sign_of<I: Int>(v: u32) -> (s: bool)
    ensures
        s == top_bit(I::spec_bits(), v),
{
    let n = I::bits();
    if n == 8 {
        v >= 0x80
    } else if n == 16 {
        v >= 0x8000
    } else {
        v >= 0x8000_0000
    }
}

fn parity_of(r: u32) -> (p: bool)
    ensures
        p == parity(r),
{
    let mut rest = r;
    let mut count: u32 = 0;
    let mut i: u32 = 0;
    while i < 8
        invariant
            i <= 8,
            count <= i,
            count + ones(rest as nat, (8 - i) as nat) == ones(r as nat, 8),
        decreases 8 - i,
    {
        count = count + rest % 2;
        rest = rest / 2;
        i = i + 1;
    }
    count % 2 == 0
}

fn mask_of<I: Int>() -> (m: u32)
    ensures
        m == mask(I::spec_bits()),
{
    let n = I::bits();
    if n == 8 {
        0xFF
    } else if n == 16 {
        0xFFFF
    } else {
        0xFFFF_FFFF
    }
}

/// Cutting a value that fits the width changes nothing.
proof fn lemma_fits(bits: nat, v: u32)
    requires
        bits == 8 || bits == 16 || bits == 32,
        v <= mask(bits),
    ensures
        wrap(bits, v as int) == v,
{
}

/// What the steps of an addition with carry compute.
proof fn lemma_addc(bits: nat, x: u32, y: u32, c: u32, y2: u32, r: u32)
    requires
        bits == 8 || bits == 16 || bits == 32,
        x <= mask(bits),
        y <= mask(bits),
        c <= 1,
        y2 == wrap(bits, vstd::wrapping::u32_specs::wrapping_add(y, c) as int),
        r == wrap(bits, vstd::wrapping::u32_specs::wrapping_add(x, y2) as int),
    ensures
        r == add_result(bits, x, y, c),
        (r < x || (y2 == 0 && c != 0)) == (x + y + c > mask(bits)),
{
    lemma_wrap_period(bits, y + c - 0x1_0000_0000);
    lemma_wrap(bits, y + c);
    assert(y2 == wrap(bits, y + c));
    lemma_wrap_period(bits, x + y2 - 0x1_0000_0000);
    lemma_wrap(bits, x + y2);
    assert(r == wrap(bits, x + y2));
    lemma_wrap(bits, x + y + c);
}

/// What the steps of a subtraction with borrow compute.
proof fn lemma_sbb(bits: nat, x: u32, y: u32, b: bool, y2: u32, r: u32)
    requires
        bits == 8 || bits == 16 || bits == 32,
        x <= mask(bits),
        y <= mask(bits),
        y2 == if b {
            wrap(bits, vstd::wrapping::u32_specs::wrapping_add(y, 1) as int)
        } else {
            y
        },
        r == wrap(bits, vstd::wrapping::u32_specs::wrapping_sub(x, y2) as int),
    ensures
        r == sub_result(bits, x, y, b),
        (x < y2 || (b && y2 == 0)) == (x < y + (if b { 1int } else { 0 })),
{
    let c = if b { 1int } else { 0 };
    lemma_wrap_period(bits, y + c - 0x1_0000_0000);
    lemma_wrap(bits, y + c);
    assert(y2 == wrap(bits, y + c));
    lemma_wrap_period(bits, x - y2);
    lemma_wrap(bits, x - y2);
    assert(r == wrap(bits, x - y2));
    lemma_wrap(bits, x - y - c);
}

proof fn lemma_and_le(a: u32, b: u32)
    ensures
        a & b <= a,
        a & b <= b,
{
    assert(a & b <= a) by (bit_vector);
    assert(a & b <= b) by (bit_vector);
}

proof fn lemma_or_xor_fit(bits: nat, a: u32, b: u32)
    requires
        bits == 8 || bits == 16 || bits == 32,
        a <= mask(bits),
        b <= mask(bits),
    ensures
        (a | b) <= mask(bits),
        (a ^ b) <= mask(bits),
{
    if bits == 8 {
        assert(a <= 0xFF && b <= 0xFF ==> (a | b) <= 0xFF && (a ^ b) <= 0xFF) by (bit_vector);
    } else if bits == 16 {
        assert(a <= 0xFFFF && b <= 0xFFFF ==> (a | b) <= 0xFFFF && (a ^ b) <= 0xFFFF)
            by (bit_vector);
    }
}

fn set_logic_flags<I: Int>(r: u32, flags: &mut Flags)
    ensures
        *final(flags) == logic_flags(*old(flags), I::spec_bits(), r),
{
    flags.cf = false;
    flags.of = false;
    flags.zf = r == 0;
    flags.sf = sign_of::<I>(r);
    flags.pf = parity_of(r);
}

/// Bitwise AND.
pub fn and<I: Int>(x: I, y: I, flags: &mut Flags) -> (result: I)
    ensures
        result.val() == x.val() & y.val(),
        *final(flags) == logic_flags(*old(flags), I::spec_bits(), x.val() & y.val()),
{
    let r = x.to_u32() & y.to_u32();
    proof {
        I::lemma_int(x, y);
        lemma_and_le(x.val(), y.val());
        lemma_fits(I::spec_bits(), r);
    }
    set_logic_flags::<I>(r, flags);
    I::truncate(r)
}

/// Bitwise OR.
pub fn or<I: Int>(x: I, y: I, flags: &mut Flags) -> (result: I)
    ensures
        result.val() == x.val() | y.val(),
        *final(flags) == logic_flags(*old(flags), I::spec_bits(), x.val() | y.val()),
{
    let r = x.to_u32() | y.to_u32();
    proof {
        I::lemma_int(x, y);
        I::lemma_int(y, x);
        lemma_or_xor_fit(I::spec_bits(), x.val(), y.val());
    }
    set_logic_flags::<I>(r, flags);
    I::truncate(r)
}

/// Bitwise exclusive OR.
pub fn xor<I: Int>(x: I, y: I, flags: &mut Flags) -> (result: I)
    ensures
        result.val() == x.val() ^ y.val(),
        *final(flags) == logic_flags(*old(flags), I::spec_bits(), x.val() ^ y.val()),
{
    let r = x.to_u32() ^ y.to_u32();
    proof {
        I::lemma_int(x, y);
        I::lemma_int(y, x);
        lemma_or_xor_fit(I::spec_bits(), x.val(), y.val());
    }
    set_logic_flags::<I>(r, flags);
    I::truncate(r)
}

/// Bitwise complement. No flag changes.
pub fn not<I: Int>(x: I) -> (result: I)
    ensures
        result.val() == mask(I::spec_bits()) - x.val(),
{
    proof {
        I::lemma_int(x, x);
    }
    I::truncate(mask_of::<I>() - x.to_u32())
}

/// Addition.
pub fn add<I: Int>(x: I, y: I, flags: &mut Flags) -> (result: I)
    ensures
        result.val() == add_result(I::spec_bits(), x.val(), y.val(), 0),
        *final(flags) == add_flags(*old(flags), I::spec_bits(), x.val(), y.val(), 0),
{
    proof {
        I::lemma_int(x, y);
        lemma_fits(I::spec_bits(), 0);
    }
    addc(x, y, I::truncate(0), flags)
}

/// Addition with a carry in. `z` is the carry: zero or one.
pub fn addc<I: Int>(x: I, y: I, z: I, flags: &mut Flags) -> (result: I)
    requires
        z.val() <= 1,
    ensures
        result.val() == add_result(I::spec_bits(), x.val(), y.val(), z.val()),
        *final(flags) == add_flags(*old(flags), I::spec_bits(), x.val(), y.val(), z.val()),
{
    proof {
        I::lemma_int(x, y);
        I::lemma_int(y, z);
    }
    let xw = x.to_u32();
    let yw = y.to_u32();
    let zw = z.to_u32();
    // The carry goes into `y` first; the sum of the two is then added to `x`.
    let y = I::truncate(yw.wrapping_add(zw)).to_u32();
    let result = I::truncate(xw.wrapping_add(y));
    let rw = result.to_u32();
    proof {
        lemma_addc(I::spec_bits(), xw, yw, zw, y, rw);
    }
    flags.cf = rw < xw || (y == 0 && zw != 0);
    flags.af = xw % 16 + yw % 16 + zw > 15;
    flags.zf = rw == 0;
    flags.sf = sign_of::<I>(rw);
    flags.pf = parity_of(rw);
    let sx = sign_of::<I>(xw);
    flags.of = sx == sign_of::<I>(yw) && sign_of::<I>(rw) != sx;
    result
}

/// Subtraction with a borrow in.
pub fn sbb<I: Int>(x: I, y: I, b: bool, flags: &mut Flags) -> (result: I)
    ensures
        result.val() == sub_result(I::spec_bits(), x.val(), y.val(), b),
        *final(flags) == sub_flags(*old(flags), I::spec_bits(), x.val(), y.val(), b),
{
    proof {
        I::lemma_int(x, y);
        I::lemma_int(y, x);
    }
    let xw = x.to_u32();
    let yw = y.to_u32();
    let mut y = yw;
    if b {
        y = I::truncate(yw.wrapping_add(1)).to_u32();
    }
    let result = I::truncate(xw.wrapping_sub(y));
    let carry = xw < y;
    let rw = result.to_u32();
    proof {
        lemma_sbb(I::spec_bits(), xw, yw, b, y, rw);
    }
    flags.cf = carry || (b && y == 0);
    flags.af = xw % 16 < yw % 16 + (if b {
        1
    } else {
        0
    });
    flags.zf = rw == 0;
    flags.sf = sign_of::<I>(rw);
    flags.pf = parity_of(rw);
    let sx = sign_of::<I>(xw);
    flags.of = sx != sign_of::<I>(yw) && sign_of::<I>(rw) != sx;
    result
}

/// Subtraction.
pub fn sub<I: Int>(x: I, y: I, flags: &mut Flags) -> (result: I)
    ensures
        result.val() == sub_result(I::spec_bits(), x.val(), y.val(), false),
        *final(flags) == sub_flags(*old(flags), I::spec_bits(), x.val(), y.val(), false),
{
    sbb(x, y, false, flags)
}

/// Increment. Unlike an addition of one, it leaves the carry flag alone.
pub fn inc<I: Int>(x: I, flags: &mut Flags) -> (result: I)
    ensures
        result.val() == add_result(I::spec_bits(), x.val(), 1, 0),
        *final(flags) == inc_flags(*old(flags), I::spec_bits(), x.val()),
{
    let carry = flags.cf;
    proof {
        I::lemma_int(x, x);
        lemma_fits(I::spec_bits(), 1);
    }
    let result = self::add(x, I::truncate(1), flags);
    flags.cf = carry;
    result
}

/// Decrement. Unlike a subtraction of one, it leaves the carry flag alone.
pub fn dec<I: Int>(x: I, flags: &mut Flags) -> (result: I)
    ensures
        result.val() == sub_result(I::spec_bits(), x.val(), 1, false),
        *final(flags) == dec_flags(*old(flags), I::spec_bits(), x.val()),
{
    let carry = flags.cf;
    proof {
        I::lemma_int(x, x);
        lemma_fits(I::spec_bits(), 1);
    }
    let result = self::sub(x, I::truncate(1), flags);
    flags.cf = carry;
    result
}

/// Two's-complement negation: the subtraction of `x` from zero. Carry is set
/// unless `x` is zero.
pub fn neg<I: Int>(x: I, flags: &mut Flags) -> (result: I)
    ensures
        result.val() == sub_result(I::spec_bits(), 0, x.val(), false),
        *final(flags) == sub_flags(*old(flags), I::spec_bits(), 0, x.val(), false),
        final(flags).cf == (x.val() != 0),
{
    proof {
        I::lemma_int(x, x);
        lemma_fits(I::spec_bits(), 0);
    }
    self::sub(I::truncate(0), x, flags)
}

fn bits_of<I: Int>() -> (n: u32)
    ensures
        n == I::spec_bits(),
        n == 8 || n == 16 || n == 32,
{
    let n = I::bits();
    if n == 8 {
        8
    } else if n == 16 {
        16
    } else {
        proof {
            I::lemma_width();
        }
        32
    }
}

proof fn lemma_shr_le(x: u32, n: u32)
    requires
        n < 32,
    ensures
        x >> n <= x,
{
    assert(n < 32 ==> x >> n <= x) by (bit_vector);
}

proof fn lemma_sar_fits(bits: nat, x: u32, n: u32)
    requires
        bits == 8 || bits == 16 || bits == 32,
        x <= mask(bits),
    ensures
        sar_result(bits, x, n) <= mask(bits),
{
    let m = mask(bits);
    if n < bits {
        if bits == 8 {
            assert(x <= 0xFF && n < 8 ==> ((x >> n) | (0xFFu32 & !(0xFFu32 >> n))) <= 0xFF && (x >> n)
                | 0 <= 0xFF) by (bit_vector);
        } else if bits == 16 {
            assert(x <= 0xFFFF && n < 16 ==> ((x >> n) | (0xFFFFu32 & !(0xFFFFu32 >> n))) <= 0xFFFF
                && (x >> n) | 0 <= 0xFFFF) by (bit_vector);
        }
    }
}

/// Shift left by `y`.
pub fn shl<I: Int>(x: I, y: u8, flags: &mut Flags) -> (result: I)
    ensures
        result.val() == if y == 0 {
            x.val()
        } else {
            shl_result(I::spec_bits(), x.val(), y)
        },
        *final(flags) == shl_flags(*old(flags), I::spec_bits(), x.val(), y),
{
    if y == 0 {
        return x;
    }
    let xw = x.to_u32();
    let bits = bits_of::<I>();
    let n = y as u32;
    // Carry is the highest bit that will be shifted out.
    let cf = n <= bits && ((xw >> (bits - n)) & 1) == 1;
    let val = if n >= bits {
        0
    } else {
        (xw << n) & mask_of::<I>()
    };
    proof {
        lemma_and_le(xw << n, mask(I::spec_bits()));
        lemma_fits(I::spec_bits(), val);
    }
    flags.cf = cf;
    flags.sf = sign_of::<I>(val);
    flags.of = sign_of::<I>(xw) != (((xw >> (bits - 2)) & 1) == 1);
    flags.zf = val == 0;
    flags.pf = parity_of(val);
    I::truncate(val)
}

/// Logical shift right by `y`.
pub fn shr<I: Int>(x: I, y: u8, flags: &mut Flags) -> (result: I)
    ensures
        result.val() == if y == 0 {
            x.val()
        } else {
            shr_result(x.val(), y)
        },
        *final(flags) == shr_flags(*old(flags), I::spec_bits(), x.val(), y),
{
    if y == 0 {
        return x;
    }
    let xw = x.to_u32();
    let n = y as u32;
    let cf = n - 1 < 32 && ((xw >> (n - 1)) & 1) == 1;
    let val = if n >= 32 {
        0
    } else {
        xw >> n
    };
    proof {
        I::lemma_int(x, x);
        if n < 32 {
            lemma_shr_le(xw, n);
        }
        lemma_fits(I::spec_bits(), val);
    }
    flags.cf = cf;
    flags.sf = sign_of::<I>(val);
    flags.zf = val == 0;
    flags.pf = parity_of(val);
    flags.of = sign_of::<I>(xw);
    I::truncate(val)
}

/// Arithmetic shift right by `y`.
pub fn sar<I: Int>(x: I, y: I, flags: &mut Flags) -> (result: I)
    ensures
        result.val() == if y.val() == 0 {
            x.val()
        } else {
            sar_result(I::spec_bits(), x.val(), y.val())
        },
        *final(flags) == sar_flags(*old(flags), I::spec_bits(), x.val(), y.val()),
{
    let n = y.to_u32();
    if n == 0 {
        return x;
    }
    let xw = x.to_u32();
    let bits = bits_of::<I>();
    let m = mask_of::<I>();
    let negative = sign_of::<I>(xw);
    let cf = if n <= bits {
        ((xw >> (n - 1)) & 1) == 1
    } else {
        negative
    };
    let fill = if !negative {
        0
    } else if n >= bits {
        m
    } else {
        m & !(m >> n)
    };
    let val = if n >= bits {
        fill
    } else {
        (xw >> n) | fill
    };
    proof {
        I::lemma_int(x, x);
        lemma_sar_fits(I::spec_bits(), xw, n);
        lemma_fits(I::spec_bits(), val);
    }
    flags.cf = cf;
    flags.of = false;
    flags.sf = sign_of::<I>(val);
    flags.zf = val == 0;
    flags.pf = parity_of(val);
    I::truncate(val)
}

/// Rotate right by `y`.
pub fn ror<I: Int>(x: I, y: u8, flags: &mut Flags) -> (result: I)
    ensures
        result.val() == ror_result(I::spec_bits(), x.val(), y),
        *final(flags) == ror_flags(*old(flags), I::spec_bits(), x.val(), y),
{
    let xw = x.to_u32();
    let bits = bits_of::<I>();
    let k = (y as u32) % bits;
    let val = if k == 0 {
        xw
    } else {
        ((xw >> k) | (xw << (bits - k))) & mask_of::<I>()
    };
    proof {
        I::lemma_int(x, x);
        if k != 0 {
            lemma_and_le((xw >> k) | (xw << ((bits - k) as u32)), mask(I::spec_bits()));
        }
        lemma_fits(I::spec_bits(), val);
    }
    let msb = sign_of::<I>(val);
    flags.cf = msb;
    flags.of = msb != (((val >> (bits - 2)) & 1) == 1);
    I::truncate(val)
}

/// Signed multiplication, the product cut to 32 bits.
pub fn imul_trunc(x: i32, y: i32, flags: &mut Flags) -> (result: i32)
    ensures
        result == vstd::wrapping::i32_specs::wrapping_mul(x, y),
        *final(flags) == imul_flags(*old(flags), x, y),
{
    let result = x.wrapping_mul(y);
    assert(-0x8000_0000 * 0x8000_0000 <= x * y <= 0x8000_0000 * 0x8000_0000) by (nonlinear_arith)
        requires
            -0x8000_0000 <= x < 0x8000_0000,
            -0x8000_0000 <= y < 0x8000_0000,
    ;
    let full: i64 = (x as i64) * (y as i64);
    let lost = result as i64 != full;
    flags.cf = lost;
    flags.of = lost;
    result
}

/// The operations that combine the destination with a second operand.
#[derive(Clone, Copy, Debug, PartialEq, Eq, Structural)]
pub enum Binary {
    Add,
    Adc,
    Sub,
    Sbb,
    And,
    Or,
    Xor,
}

/// The shifts and rotations of the destination by a count.
#[derive(Clone, Copy, Debug, PartialEq, Eq, Structural)]
pub enum Shift {
    Shl,
    Shr,
    Sar,
    Ror,
}

/// The operations on the destination alone.
#[derive(Clone, Copy, Debug, PartialEq, Eq, Structural)]
pub enum Unary {
    Inc,
    Dec,
    Neg,
    Not,
}

/// The result of a binary operation. `carry` is the carry flag before it,
/// which `Adc` and `Sbb` take in.
pub open spec fn binary_result(op: Binary, bits: nat, x: u32, y: u32, carry: bool) -> u32 {
    match op {
        Binary::Add => add_result(bits, x, y, 0),
        Binary::Adc => add_result(bits, x, y, if carry { 1 } else { 0 }),
        Binary::Sub => sub_result(bits, x, y, false),
        Binary::Sbb => sub_result(bits, x, y, carry),
        Binary::And => x & y,
        Binary::Or => x | y,
        Binary::Xor => x ^ y,
    }
}

/// The flags after a binary operation.
pub open spec fn binary_flags(op: Binary, f: Flags, bits: nat, x: u32, y: u32) -> Flags {
    match op {
        Binary::Add => add_flags(f, bits, x, y, 0),
        Binary::Adc => add_flags(f, bits, x, y, if f.cf { 1 } else { 0 }),
        Binary::Sub => sub_flags(f, bits, x, y, false),
        Binary::Sbb => sub_flags(f, bits, x, y, f.cf),
        Binary::And => logic_flags(f, bits, x & y),
        Binary::Or => logic_flags(f, bits, x | y),
        Binary::Xor => logic_flags(f, bits, x ^ y),
    }
}

/// The result of a shift or rotation by `n`.
pub open spec fn shift_result(op: Shift, bits: nat, x: u32, n: u8) -> u32 {
    match op {
        Shift::Shl => if n == 0 {
            x
        } else {
            shl_result(bits, x, n)
        },
        Shift::Shr => if n == 0 {
            x
        } else {
            shr_result(x, n)
        },
        Shift::Sar => if n == 0 {
            x
        } else {
            sar_result(bits, x, n as u32)
        },
        Shift::Ror => ror_result(bits, x, n),
    }
}

/// The flags after a shift or rotation by `n`.
pub open spec fn shift_flags(op: Shift, f: Flags, bits: nat, x: u32, n: u8) -> Flags {
    match op {
        Shift::Shl => shl_flags(f, bits, x, n),
        Shift::Shr => shr_flags(f, bits, x, n),
        Shift::Sar => sar_flags(f, bits, x, n as u32),
        Shift::Ror => ror_flags(f, bits, x, n),
    }
}

/// The result of a unary operation.
pub open spec fn unary_result(op: Unary, bits: nat, x: u32) -> u32 {
    match op {
        Unary::Inc => add_result(bits, x, 1, 0),
        Unary::Dec => sub_result(bits, x, 1, false),
        Unary::Neg => sub_result(bits, 0, x, false),
        Unary::Not => (mask(bits) - x) as u32,
    }
}

/// The flags after a unary operation.
pub open spec fn unary_flags(op: Unary, f: Flags, bits: nat, x: u32) -> Flags {
    match op {
        Unary::Inc => inc_flags(f, bits, x),
        Unary::Dec => dec_flags(f, bits, x),
        Unary::Neg => sub_flags(f, bits, 0, x, false),
        Unary::Not => f,
    }
}

/// Computes a binary operation. The result and the flags depend on nothing
/// but the operation, the operands and the flags before.
pub fn binary<I: Int>(op: Binary, x: I, y: I, flags: &mut Flags) -> (result: I)
    ensures
        result.val() == binary_result(op, I::spec_bits(), x.val(), y.val(), old(flags).cf),
        *final(flags) == binary_flags(op, *old(flags), I::spec_bits(), x.val(), y.val()),
{
    match op {
        Binary::Add => self::add(x, y, flags),
        Binary::Adc => {
            let carry: u32 = if flags.cf {
                1
            } else {
                0
            };
            proof {
                I::lemma_width();
                lemma_fits(I::spec_bits(), carry);
            }
            addc(x, y, I::truncate(carry), flags)
        },
        Binary::Sub => self::sub(x, y, flags),
        Binary::Sbb => {
            let borrow = flags.cf;
            sbb(x, y, borrow, flags)
        },
        Binary::And => and(x, y, flags),
        Binary::Or => or(x, y, flags),
        Binary::Xor => xor(x, y, flags),
    }
}

/// Computes a shift or rotation by `n`.
pub fn shift<I: Int>(op: Shift, x: I, n: u8, flags: &mut Flags) -> (result: I)
    ensures
        result.val() == shift_result(op, I::spec_bits(), x.val(), n),
        *final(flags) == shift_flags(op, *old(flags), I::spec_bits(), x.val(), n),
{
    match op {
        Shift::Shl => shl(x, n, flags),
        Shift::Shr => shr(x, n, flags),
        Shift::Sar => {
            proof {
                I::lemma_width();
                lemma_fits(I::spec_bits(), n as u32);
            }
            sar(x, I::truncate(n as u32), flags)
        },
        Shift::Ror => ror(x, n, flags),
    }
}

/// Computes a unary operation.
pub fn unary<I: Int>(op: Unary, x: I, flags: &mut Flags) -> (result: I)
    ensures
        result.val() == unary_result(op, I::spec_bits(), x.val()),
        *final(flags) == unary_flags(op, *old(flags), I::spec_bits(), x.val()),
{
    match op {
        Unary::Inc => inc(x, flags),
        Unary::Dec => dec(x, flags),
        Unary::Neg => neg(x, flags),
        Unary::Not => not(x),
    }
}

/// Whether a handler did what `expected` says: on success the registers,
/// flags and memory are as expected; on a fault it returns that fault and
/// has changed nothing. Either way nothing else of the machine has changed.
pub open spec fn step_is(before: X86, after: X86, r: StepResult<()>, expected: Result<Cpu, Fault>)
    -> bool {
    match expected {
        Ok(cpu) => r is Ok && after@ == (Machine { cpu, ..before@ }),
        Err(f) => r == Err::<(), Fault>(f) && after@ == before@,
    }
}

/// The state after the destination operand `x` at `place` is replaced by
/// `value` and the flags by `flags`.
pub open spec fn spec_update<I: Operand>(cpu: Cpu, instr: Instr, flags: Flags, value: u32) -> Cpu {
    spec_store::<I>(
        Cpu { flags, ..cpu },
        spec_rm::<I>(cpu, instr)->Ok_0,
        I::spec_truncate(value),
    )
}

/// What a binary operation on the destination operand of `instr` does,
/// given the second operand or the fault that reading it raised.
pub open spec fn spec_binary<I: Operand>(cpu: Cpu, instr: Instr, op: Binary, y: Result<I, Fault>)
    -> Result<Cpu, Fault> {
    match y {
        Err(f) => Err(f),
        Ok(y) => match spec_op0_rm::<I>(cpu, instr) {
            Err(f) => Err(f),
            Ok(x) => Ok(
                spec_update::<I>(
                    cpu,
                    instr,
                    binary_flags(op, cpu.flags, I::spec_bits(), x.val(), y.val()),
                    binary_result(op, I::spec_bits(), x.val(), y.val(), cpu.flags.cf),
                ),
            ),
        },
    }
}

/// What a shift or rotation of the destination operand of `instr` by `n`
/// does.
pub open spec fn spec_shift<I: Operand>(cpu: Cpu, instr: Instr, op: Shift, n: u8) -> Result<
    Cpu,
    Fault,
> {
    match spec_op0_rm::<I>(cpu, instr) {
        Err(f) => Err(f),
        Ok(x) => Ok(
            spec_update::<I>(
                cpu,
                instr,
                shift_flags(op, cpu.flags, I::spec_bits(), x.val(), n),
                shift_result(op, I::spec_bits(), x.val(), n),
            ),
        ),
    }
}

/// What a unary operation on the destination operand of `instr` does.
pub open spec fn spec_unary<I: Operand>(cpu: Cpu, instr: Instr, op: Unary) -> Result<Cpu, Fault> {
    match spec_op0_rm::<I>(cpu, instr) {
        Err(f) => Err(f),
        Ok(x) => Ok(
            spec_update::<I>(
                cpu,
                instr,
                unary_flags(op, cpu.flags, I::spec_bits(), x.val()),
                unary_result(op, I::spec_bits(), x.val()),
            ),
        ),
    }
}

/// The value of the register that is operand 1.
pub open spec fn spec_reg1<I: Operand>(cpu: Cpu, instr: Instr) -> Result<I, Fault> {
    match I::spec_reg(cpu.regs, instr.op1_register) {
        Some(v) => Ok(v),
        None => Err(undecodable(cpu)),
    }
}

/// The 32-bit pattern of a signed integer.
pub open spec fn spec_unsigned32(v: int) -> u32 {
    (v % 0x1_0000_0000) as u32
}

/// The 16-bit pattern of a signed integer.
pub open spec fn spec_unsigned16(v: int) -> u16 {
    (v % 0x1_0000) as u16
}

fn unsigned32(v: i32) -> (r: u32)
    ensures
        r == spec_unsigned32(v as int),
{
    if v < 0 {
        (v as i64 + 0x1_0000_0000) as u32
    } else {
        v as u32
    }
}

fn unsigned16(v: i16) -> (r: u16)
    ensures
        r == spec_unsigned16(v as int),
{
    if v < 0 {
        (v as i32 + 0x1_0000) as u16
    } else {
        v as u16
    }
}

fn signed32(v: u32) -> (r: i32)
    ensures
        r == signed(32, v),
{
    if v >= 0x8000_0000 {
        (v as i64 - 0x1_0000_0000) as i32
    } else {
        v as i32
    }
}

pub fn reg1<I: Operand>(x86: &X86, instr: &Instr) -> (r: StepResult<I>)
    ensures
        r == spec_reg1::<I>(x86.cpu(), *instr),
{
    match I::reg(&x86.regs, instr.op1_register) {
        Some(v) => Ok(v),
        None => Err(x86.undecodable()),
    }
}

/// Writes the outcome of an operation on the destination operand: the new
/// flags and the new value.
fn finish<I: Operand>(
    x86: &mut X86,
    instr: &Instr,
    place: crate::ops::helpers::Rm,
    flags: Flags,
    result: I,
    Ghost(value): Ghost<u32>,
) -> (r: StepResult<()>)
    requires
        spec_rm::<I>(old(x86).cpu(), *instr) == Ok::<crate::ops::helpers::Rm, Fault>(place),
        spec_load::<I>(old(x86).cpu(), place) is Ok,
        result.val() == value,
    ensures
        r is Ok,
        final(x86)@ == (Machine {
            cpu: spec_update::<I>(old(x86).cpu(), *instr, flags, value),
            ..old(x86)@
        }),
{
    proof {
        I::lemma_int(result, I::spec_truncate(value));
        I::lemma_truncate(value);
        lemma_fits(I::spec_bits(), value);
    }
    x86.flags = flags;
    store::<I>(x86, place, result)
}

fn apply_binary<I: Operand>(x86: &mut X86, instr: &Instr, op: Binary, y: I) -> (r: StepResult<()>)
    ensures
        step_is(
            *old(x86),
            *final(x86),
            r,
            spec_binary::<I>(old(x86).cpu(), *instr, op, Ok(y)),
        ),
{
    let place = rm::<I>(x86, instr)?;
    let x = load::<I>(x86, place)?;
    let mut flags = x86.flags;
    let result = binary(op, x, y, &mut flags);
    finish::<I>(x86, instr, place, flags, result, Ghost(result.val()))
}

fn apply_shift<I: Operand>(x86: &mut X86, instr: &Instr, op: Shift, n: u8) -> (r: StepResult<()>)
    ensures
        step_is(*old(x86), *final(x86), r, spec_shift::<I>(old(x86).cpu(), *instr, op, n)),
{
    let place = rm::<I>(x86, instr)?;
    let x = load::<I>(x86, place)?;
    let mut flags = x86.flags;
    let result = shift(op, x, n, &mut flags);
    finish::<I>(x86, instr, place, flags, result, Ghost(result.val()))
}

fn apply_unary<I: Operand>(x86: &mut X86, instr: &Instr, op: Unary) -> (r: StepResult<()>)
    ensures
        step_is(*old(x86), *final(x86), r, spec_unary::<I>(old(x86).cpu(), *instr, op)),
{
    let place = rm::<I>(x86, instr)?;
    let x = load::<I>(x86, place)?;
    let mut flags = x86.flags;
    let result = unary(op, x, &mut flags);
    finish::<I>(x86, instr, place, flags, result, Ghost(result.val()))
}

/// `AND` of a 32-bit register or memory operand with a 32-bit immediate.
pub fn and_rm32_imm32(x86: &mut X86, instr: &Instr) -> (r: StepResult<()>)
    ensures
        step_is(
            *old(x86),
            *final(x86),
            r,
            spec_binary::<u32>(old(x86).cpu(), *instr, Binary::And, Ok(instr.spec_immediate32())),
        ),
{
    let y = instr.immediate32();
    apply_binary::<u32>(x86, instr, Binary::And, y)
}

/// `AND` of a 32-bit register or memory operand with a sign-extended 8-bit immediate.
pub fn and_rm32_imm8(x86: &mut X86, instr: &Instr) -> (r: StepResult<()>)
    ensures
        step_is(
            *old(x86),
            *final(x86),
            r,
            spec_binary::<u32>(old(x86).cpu(), *instr, Binary::And, Ok(spec_unsigned32(instr.spec_immediate8to32() as int))),
        ),
{
    let y = unsigned32(instr.immediate8to32());
    apply_binary::<u32>(x86, instr, Binary::And, y)
}

/// `AND` of a 32-bit register or memory operand with a register.
pub fn and_rm32_r32(x86: &mut X86, instr: &Instr) -> (r: StepResult<()>)
    ensures
        step_is(
            *old(x86),
            *final(x86),
            r,
            spec_binary::<u32>(old(x86).cpu(), *instr, Binary::And, spec_reg1::<u32>(old(x86).cpu(), *instr)),
        ),
{
    let y = reg1::<u32>(x86, instr)?;
    apply_binary::<u32>(x86, instr, Binary::And, y)
}

/// `AND` of a 32-bit register or memory operand with a register or memory operand.
pub fn and_r32_rm32(x86: &mut X86, instr: &Instr) -> (r: StepResult<()>)
    ensures
        step_is(
            *old(x86),
            *final(x86),
            r,
            spec_binary::<u32>(old(x86).cpu(), *instr, Binary::And, spec_op1_rm::<u32>(old(x86).cpu(), *instr)),
        ),
{
    let y = op1_rm32(x86, instr)?;
    apply_binary::<u32>(x86, instr, Binary::And, y)
}

/// `AND` of a 16-bit register or memory operand with a 16-bit immediate.
pub fn and_rm16_imm16(x86: &mut X86, instr: &Instr) -> (r: StepResult<()>)
    ensures
        step_is(
            *old(x86),
            *final(x86),
            r,
            spec_binary::<u16>(old(x86).cpu(), *instr, Binary::And, Ok(instr.spec_immediate16())),
        ),
{
    let y = instr.immediate16();
    apply_binary::<u16>(x86, instr, Binary::And, y)
}

/// `AND` of a 8-bit register or memory operand with an 8-bit immediate.
pub fn and_rm8_imm8(x86: &mut X86, instr: &Instr) -> (r: StepResult<()>)
    ensures
        step_is(
            *old(x86),
            *final(x86),
            r,
            spec_binary::<u8>(old(x86).cpu(), *instr, Binary::And, Ok(instr.spec_immediate8())),
        ),
{
    let y = instr.immediate8();
    apply_binary::<u8>(x86, instr, Binary::And, y)
}

/// `OR` of a 32-bit register or memory operand with a register or memory operand.
pub fn or_rm32_rm32(x86: &mut X86, instr: &Instr) -> (r: StepResult<()>)
    ensures
        step_is(
            *old(x86),
            *final(x86),
            r,
            spec_binary::<u32>(old(x86).cpu(), *instr, Binary::Or, spec_op1_rm::<u32>(old(x86).cpu(), *instr)),
        ),
{
    let y = op1_rm32(x86, instr)?;
    apply_binary::<u32>(x86, instr, Binary::Or, y)
}

/// `OR` of a 32-bit register or memory operand with a 32-bit immediate.
pub fn or_rm32_imm32(x86: &mut X86, instr: &Instr) -> (r: StepResult<()>)
    ensures
        step_is(
            *old(x86),
            *final(x86),
            r,
            spec_binary::<u32>(old(x86).cpu(), *instr, Binary::Or, Ok(instr.spec_immediate32())),
        ),
{
    let y = instr.immediate32();
    apply_binary::<u32>(x86, instr, Binary::Or, y)
}

/// `OR` of a 32-bit register or memory operand with a sign-extended 8-bit immediate.
pub fn or_rm32_imm8(x86: &mut X86, instr: &Instr) -> (r: StepResult<()>)
    ensures
        step_is(
            *old(x86),
            *final(x86),
            r,
            spec_binary::<u32>(old(x86).cpu(), *instr, Binary::Or, Ok(spec_unsigned32(instr.spec_immediate8to32() as int))),
        ),
{
    let y = unsigned32(instr.immediate8to32());
    apply_binary::<u32>(x86, instr, Binary::Or, y)
}

/// `OR` of a 16-bit register or memory operand with a 16-bit immediate.
pub fn or_rm16_imm16(x86: &mut X86, instr: &Instr) -> (r: StepResult<()>)
    ensures
        step_is(
            *old(x86),
            *final(x86),
            r,
            spec_binary::<u16>(old(x86).cpu(), *instr, Binary::Or, Ok(instr.spec_immediate16())),
        ),
{
    let y = instr.immediate16();
    apply_binary::<u16>(x86, instr, Binary::Or, y)
}

/// `OR` of a 8-bit register or memory operand with an 8-bit immediate.
pub fn or_rm8_imm8(x86: &mut X86, instr: &Instr) -> (r: StepResult<()>)
    ensures
        step_is(
            *old(x86),
            *final(x86),
            r,
            spec_binary::<u8>(old(x86).cpu(), *instr, Binary::Or, Ok(instr.spec_immediate8())),
        ),
{
    let y = instr.immediate8();
    apply_binary::<u8>(x86, instr, Binary::Or, y)
}

/// `SHL` of a 32-bit register or memory operand by an 8-bit immediate.
pub fn shl_rm32_imm8(x86: &mut X86, instr: &Instr) -> (r: StepResult<()>)
    ensures
        step_is(
            *old(x86),
            *final(x86),
            r,
            spec_shift::<u32>(old(x86).cpu(), *instr, Shift::Shl, instr.spec_immediate8()),
        ),
{
    let y: u8 = instr.immediate8();
    apply_shift::<u32>(x86, instr, Shift::Shl, y)
}

/// `SHL` of a 32-bit register or memory operand by `CL`.
pub fn shl_rm32_cl(x86: &mut X86, instr: &Instr) -> (r: StepResult<()>)
    ensures
        step_is(
            *old(x86),
            *final(x86),
            r,
            spec_shift::<u32>(old(x86).cpu(), *instr, Shift::Shl, old(x86).regs.spec_get8(Reg8::CL)),
        ),
{
    let y: u8 = x86.regs.get8(Reg8::CL);
    apply_shift::<u32>(x86, instr, Shift::Shl, y)
}

/// `SHL` of a 8-bit register or memory operand by `CL`.
pub fn shl_rm8_cl(x86: &mut X86, instr: &Instr) -> (r: StepResult<()>)
    ensures
        step_is(
            *old(x86),
            *final(x86),
            r,
            spec_shift::<u8>(old(x86).cpu(), *instr, Shift::Shl, old(x86).regs.spec_get8(Reg8::CL)),
        ),
{
    let y: u8 = x86.regs.get8(Reg8::CL);
    apply_shift::<u8>(x86, instr, Shift::Shl, y)
}

/// `SHL` of a 8-bit register or memory operand by an 8-bit immediate.
pub fn shl_rm8_imm8(x86: &mut X86, instr: &Instr) -> (r: StepResult<()>)
    ensures
        step_is(
            *old(x86),
            *final(x86),
            r,
            spec_shift::<u8>(old(x86).cpu(), *instr, Shift::Shl, instr.spec_immediate8()),
        ),
{
    let y: u8 = instr.immediate8();
    apply_shift::<u8>(x86, instr, Shift::Shl, y)
}

/// `SHR` of a 32-bit register or memory operand by `CL`.
pub fn shr_rm32_cl(x86: &mut X86, instr: &Instr) -> (r: StepResult<()>)
    ensures
        step_is(
            *old(x86),
            *final(x86),
            r,
            spec_shift::<u32>(old(x86).cpu(), *instr, Shift::Shr, old(x86).regs.spec_get8(Reg8::CL)),
        ),
{
    let y: u8 = x86.regs.get8(Reg8::CL);
    apply_shift::<u32>(x86, instr, Shift::Shr, y)
}

/// `SHR` of a 32-bit register or memory operand by one.
pub fn shr_rm32_1(x86: &mut X86, instr: &Instr) -> (r: StepResult<()>)
    ensures
        step_is(
            *old(x86),
            *final(x86),
            r,
            spec_shift::<u32>(old(x86).cpu(), *instr, Shift::Shr, 1),
        ),
{
    let y: u8 = 1;
    apply_shift::<u32>(x86, instr, Shift::Shr, y)
}

/// `SHR` of a 32-bit register or memory operand by an 8-bit immediate.
pub fn shr_rm32_imm8(x86: &mut X86, instr: &Instr) -> (r: StepResult<()>)
    ensures
        step_is(
            *old(x86),
            *final(x86),
            r,
            spec_shift::<u32>(old(x86).cpu(), *instr, Shift::Shr, instr.spec_immediate8()),
        ),
{
    let y: u8 = instr.immediate8();
    apply_shift::<u32>(x86, instr, Shift::Shr, y)
}

/// `SHR` of a 8-bit register or memory operand by an 8-bit immediate.
pub fn shr_rm8_imm8(x86: &mut X86, instr: &Instr) -> (r: StepResult<()>)
    ensures
        step_is(
            *old(x86),
            *final(x86),
            r,
            spec_shift::<u8>(old(x86).cpu(), *instr, Shift::Shr, instr.spec_immediate8()),
        ),
{
    let y: u8 = instr.immediate8();
    apply_shift::<u8>(x86, instr, Shift::Shr, y)
}

/// `SAR` of a 32-bit register or memory operand by an 8-bit immediate.
pub fn sar_rm32_imm8(x86: &mut X86, instr: &Instr) -> (r: StepResult<()>)
    ensures
        step_is(
            *old(x86),
            *final(x86),
            r,
            spec_shift::<u32>(old(x86).cpu(), *instr, Shift::Sar, instr.spec_immediate8()),
        ),
{
    let y: u8 = instr.immediate8();
    apply_shift::<u32>(x86, instr, Shift::Sar, y)
}

/// `SAR` of a 32-bit register or memory operand by `CL`.
pub fn sar_rm32_cl(x86: &mut X86, instr: &Instr) -> (r: StepResult<()>)
    ensures
        step_is(
            *old(x86),
            *final(x86),
            r,
            spec_shift::<u32>(old(x86).cpu(), *instr, Shift::Sar, old(x86).regs.spec_get8(Reg8::CL)),
        ),
{
    let y: u8 = x86.regs.get8(Reg8::CL);
    apply_shift::<u32>(x86, instr, Shift::Sar, y)
}

/// `SAR` of a 8-bit register or memory operand by an 8-bit immediate.
pub fn sar_rm8_imm8(x86: &mut X86, instr: &Instr) -> (r: StepResult<()>)
    ensures
        step_is(
            *old(x86),
            *final(x86),
            r,
            spec_shift::<u8>(old(x86).cpu(), *instr, Shift::Sar, instr.spec_immediate8()),
        ),
{
    let y: u8 = instr.immediate8();
    apply_shift::<u8>(x86, instr, Shift::Sar, y)
}

/// `ROR` of a 32-bit register or memory operand by `CL`.
pub fn ror_rm32_cl(x86: &mut X86, instr: &Instr) -> (r: StepResult<()>)
    ensures
        step_is(
            *old(x86),
            *final(x86),
            r,
            spec_shift::<u32>(old(x86).cpu(), *instr, Shift::Ror, old(x86).regs.spec_get8(Reg8::CL)),
        ),
{
    let y: u8 = x86.regs.get8(Reg8::CL);
    apply_shift::<u32>(x86, instr, Shift::Ror, y)
}

/// `ROR` of a 32-bit register or memory operand by an 8-bit immediate.
pub fn ror_rm32_imm8(x86: &mut X86, instr: &Instr) -> (r: StepResult<()>)
    ensures
        step_is(
            *old(x86),
            *final(x86),
            r,
            spec_shift::<u32>(old(x86).cpu(), *instr, Shift::Ror, instr.spec_immediate8()),
        ),
{
    let y: u8 = instr.immediate8();
    apply_shift::<u32>(x86, instr, Shift::Ror, y)
}

/// `XOR` of a 32-bit register or memory operand with a register or memory operand.
pub fn xor_rm32_rm32(x86: &mut X86, instr: &Instr) -> (r: StepResult<()>)
    ensures
        step_is(
            *old(x86),
            *final(x86),
            r,
            spec_binary::<u32>(old(x86).cpu(), *instr, Binary::Xor, spec_op1_rm::<u32>(old(x86).cpu(), *instr)),
        ),
{
    let y = op1_rm32(x86, instr)?;
    apply_binary::<u32>(x86, instr, Binary::Xor, y)
}

/// `XOR` of a 32-bit register or memory operand with a 32-bit immediate.
pub fn xor_rm32_imm32(x86: &mut X86, instr: &Instr) -> (r: StepResult<()>)
    ensures
        step_is(
            *old(x86),
            *final(x86),
            r,
            spec_binary::<u32>(old(x86).cpu(), *instr, Binary::Xor, Ok(instr.spec_immediate32())),
        ),
{
    let y = instr.immediate32();
    apply_binary::<u32>(x86, instr, Binary::Xor, y)
}

/// `XOR` of a 32-bit register or memory operand with a sign-extended 8-bit immediate.
pub fn xor_rm32_imm8(x86: &mut X86, instr: &Instr) -> (r: StepResult<()>)
    ensures
        step_is(
            *old(x86),
            *final(x86),
            r,
            spec_binary::<u32>(old(x86).cpu(), *instr, Binary::Xor, Ok(spec_unsigned32(instr.spec_immediate8to32() as int))),
        ),
{
    let y = unsigned32(instr.immediate8to32());
    apply_binary::<u32>(x86, instr, Binary::Xor, y)
}

/// `XOR` of a 8-bit register or memory operand with an 8-bit immediate.
pub fn xor_rm8_imm8(x86: &mut X86, instr: &Instr) -> (r: StepResult<()>)
    ensures
        step_is(
            *old(x86),
            *final(x86),
            r,
            spec_binary::<u8>(old(x86).cpu(), *instr, Binary::Xor, Ok(instr.spec_immediate8())),
        ),
{
    let y = instr.immediate8();
    apply_binary::<u8>(x86, instr, Binary::Xor, y)
}

/// `XOR` of a 8-bit register or memory operand with a register or memory operand.
pub fn xor_r8_rm8(x86: &mut X86, instr: &Instr) -> (r: StepResult<()>)
    ensures
        step_is(
            *old(x86),
            *final(x86),
            r,
            spec_binary::<u8>(old(x86).cpu(), *instr, Binary::Xor, spec_op1_rm::<u8>(old(x86).cpu(), *instr)),
        ),
{
    let y = op1_rm8(x86, instr)?;
    apply_binary::<u8>(x86, instr, Binary::Xor, y)
}

/// `XOR` of a 8-bit register or memory operand with a register.
pub fn xor_rm8_r8(x86: &mut X86, instr: &Instr) -> (r: StepResult<()>)
    ensures
        step_is(
            *old(x86),
            *final(x86),
            r,
            spec_binary::<u8>(old(x86).cpu(), *instr, Binary::Xor, spec_reg1::<u8>(old(x86).cpu(), *instr)),
        ),
{
    let y = reg1::<u8>(x86, instr)?;
    apply_binary::<u8>(x86, instr, Binary::Xor, y)
}

/// `ADD` of a 32-bit register or memory operand with a register or memory operand.
pub fn add_r32_rm32(x86: &mut X86, instr: &Instr) -> (r: StepResult<()>)
    ensures
        step_is(
            *old(x86),
            *final(x86),
            r,
            spec_binary::<u32>(old(x86).cpu(), *instr, Binary::Add, spec_op1_rm::<u32>(old(x86).cpu(), *instr)),
        ),
{
    let y = op1_rm32(x86, instr)?;
    apply_binary::<u32>(x86, instr, Binary::Add, y)
}

/// `ADD` of a 32-bit register or memory operand with a register.
pub fn add_rm32_r32(x86: &mut X86, instr: &Instr) -> (r: StepResult<()>)
    ensures
        step_is(
            *old(x86),
            *final(x86),
            r,
            spec_binary::<u32>(old(x86).cpu(), *instr, Binary::Add, spec_reg1::<u32>(old(x86).cpu(), *instr)),
        ),
{
    let y = reg1::<u32>(x86, instr)?;
    apply_binary::<u32>(x86, instr, Binary::Add, y)
}

/// `ADD` of a 32-bit register or memory operand with a register.
pub fn add_rm32_r32_2(x86: &mut X86, instr: &Instr) -> (r: StepResult<()>)
    ensures
        step_is(
            *old(x86),
            *final(x86),
            r,
            spec_binary::<u32>(old(x86).cpu(), *instr, Binary::Add, spec_reg1::<u32>(old(x86).cpu(), *instr)),
        ),
{
    let y = reg1::<u32>(x86, instr)?;
    apply_binary::<u32>(x86, instr, Binary::Add, y)
}

/// `ADD` of a 32-bit register or memory operand with a 32-bit immediate.
pub fn add_rm32_imm32(x86: &mut X86, instr: &Instr) -> (r: StepResult<()>)
    ensures
        step_is(
            *old(x86),
            *final(x86),
            r,
            spec_binary::<u32>(old(x86).cpu(), *instr, Binary::Add, Ok(instr.spec_immediate32())),
        ),
{
    let y = instr.immediate32();
    apply_binary::<u32>(x86, instr, Binary::Add, y)
}

/// `ADD` of a 32-bit register or memory operand with a sign-extended 8-bit immediate.
pub fn add_rm32_imm8(x86: &mut X86, instr: &Instr) -> (r: StepResult<()>)
    ensures
        step_is(
            *old(x86),
            *final(x86),
            r,
            spec_binary::<u32>(old(x86).cpu(), *instr, Binary::Add, Ok(spec_unsigned32(instr.spec_immediate8to32() as int))),
        ),
{
    let y = unsigned32(instr.immediate8to32());
    apply_binary::<u32>(x86, instr, Binary::Add, y)
}

/// `ADD` of a 16-bit register or memory operand with a sign-extended 8-bit immediate.
pub fn add_rm16_imm8(x86: &mut X86, instr: &Instr) -> (r: StepResult<()>)
    ensures
        step_is(
            *old(x86),
            *final(x86),
            r,
            spec_binary::<u16>(old(x86).cpu(), *instr, Binary::Add, Ok(spec_unsigned16(instr.spec_immediate8to16() as int))),
        ),
{
    let y = unsigned16(instr.immediate8to16());
    apply_binary::<u16>(x86, instr, Binary::Add, y)
}

/// `ADD` of a 16-bit register or memory operand with a register or memory operand.
pub fn add_r16_rm16(x86: &mut X86, instr: &Instr) -> (r: StepResult<()>)
    ensures
        step_is(
            *old(x86),
            *final(x86),
            r,
            spec_binary::<u16>(old(x86).cpu(), *instr, Binary::Add, spec_op1_rm::<u16>(old(x86).cpu(), *instr)),
        ),
{
    let y = op1_rm16(x86, instr)?;
    apply_binary::<u16>(x86, instr, Binary::Add, y)
}

/// `ADD` of a 8-bit register or memory operand with a register.
pub fn add_rm8_r8(x86: &mut X86, instr: &Instr) -> (r: StepResult<()>)
    ensures
        step_is(
            *old(x86),
            *final(x86),
            r,
            spec_binary::<u8>(old(x86).cpu(), *instr, Binary::Add, spec_reg1::<u8>(old(x86).cpu(), *instr)),
        ),
{
    let y = reg1::<u8>(x86, instr)?;
    apply_binary::<u8>(x86, instr, Binary::Add, y)
}

/// `ADD` of a 8-bit register or memory operand with an 8-bit immediate.
pub fn add_rm8_imm8(x86: &mut X86, instr: &Instr) -> (r: StepResult<()>)
    ensures
        step_is(
            *old(x86),
            *final(x86),
            r,
            spec_binary::<u8>(old(x86).cpu(), *instr, Binary::Add, Ok(instr.spec_immediate8())),
        ),
{
    let y = instr.immediate8();
    apply_binary::<u8>(x86, instr, Binary::Add, y)
}

/// `ADD` of a 8-bit register or memory operand with a register or memory operand.
pub fn add_r8_rm8(x86: &mut X86, instr: &Instr) -> (r: StepResult<()>)
    ensures
        step_is(
            *old(x86),
            *final(x86),
            r,
            spec_binary::<u8>(old(x86).cpu(), *instr, Binary::Add, spec_op1_rm::<u8>(old(x86).cpu(), *instr)),
        ),
{
    let y = op1_rm8(x86, instr)?;
    apply_binary::<u8>(x86, instr, Binary::Add, y)
}

/// `ADC` of a 8-bit register or memory operand with a register or memory operand.
pub fn adc_rm8_r8(x86: &mut X86, instr: &Instr) -> (r: StepResult<()>)
    ensures
        step_is(
            *old(x86),
            *final(x86),
            r,
            spec_binary::<u8>(old(x86).cpu(), *instr, Binary::Adc, spec_op1_rm::<u8>(old(x86).cpu(), *instr)),
        ),
{
    let y = op1_rm8(x86, instr)?;
    apply_binary::<u8>(x86, instr, Binary::Adc, y)
}

/// `ADC` of a 8-bit register or memory operand with an 8-bit immediate.
pub fn adc_rm8_imm8(x86: &mut X86, instr: &Instr) -> (r: StepResult<()>)
    ensures
        step_is(
            *old(x86),
            *final(x86),
            r,
            spec_binary::<u8>(old(x86).cpu(), *instr, Binary::Adc, Ok(instr.spec_immediate8())),
        ),
{
    let y = instr.immediate8();
    apply_binary::<u8>(x86, instr, Binary::Adc, y)
}

/// `SUB` of a 32-bit register or memory operand with a sign-extended 8-bit immediate.
pub fn sub_rm32_imm8(x86: &mut X86, instr: &Instr) -> (r: StepResult<()>)
    ensures
        step_is(
            *old(x86),
            *final(x86),
            r,
            spec_binary::<u32>(old(x86).cpu(), *instr, Binary::Sub, Ok(spec_unsigned32(instr.spec_immediate8to32() as int))),
        ),
{
    let y = unsigned32(instr.immediate8to32());
    apply_binary::<u32>(x86, instr, Binary::Sub, y)
}

/// `SUB` of a 32-bit register or memory operand with a 32-bit immediate.
pub fn sub_rm32_imm32(x86: &mut X86, instr: &Instr) -> (r: StepResult<()>)
    ensures
        step_is(
            *old(x86),
            *final(x86),
            r,
            spec_binary::<u32>(old(x86).cpu(), *instr, Binary::Sub, Ok(instr.spec_immediate32())),
        ),
{
    let y = instr.immediate32();
    apply_binary::<u32>(x86, instr, Binary::Sub, y)
}

/// `SUB` of a 32-bit register or memory operand with a register.
pub fn sub_rm32_r32(x86: &mut X86, instr: &Instr) -> (r: StepResult<()>)
    ensures
        step_is(
            *old(x86),
            *final(x86),
            r,
            spec_binary::<u32>(old(x86).cpu(), *instr, Binary::Sub, spec_reg1::<u32>(old(x86).cpu(), *instr)),
        ),
{
    let y = reg1::<u32>(x86, instr)?;
    apply_binary::<u32>(x86, instr, Binary::Sub, y)
}

/// `SUB` of a 32-bit register or memory operand with a register or memory operand.
pub fn sub_r32_rm32(x86: &mut X86, instr: &Instr) -> (r: StepResult<()>)
    ensures
        step_is(
            *old(x86),
            *final(x86),
            r,
            spec_binary::<u32>(old(x86).cpu(), *instr, Binary::Sub, spec_op1_rm::<u32>(old(x86).cpu(), *instr)),
        ),
{
    let y = op1_rm32(x86, instr)?;
    apply_binary::<u32>(x86, instr, Binary::Sub, y)
}

/// `SUB` of a 8-bit register or memory operand with a register or memory operand.
pub fn sub_r8_rm8(x86: &mut X86, instr: &Instr) -> (r: StepResult<()>)
    ensures
        step_is(
            *old(x86),
            *final(x86),
            r,
            spec_binary::<u8>(old(x86).cpu(), *instr, Binary::Sub, spec_op1_rm::<u8>(old(x86).cpu(), *instr)),
        ),
{
    let y = op1_rm8(x86, instr)?;
    apply_binary::<u8>(x86, instr, Binary::Sub, y)
}

/// `SUB` of a 8-bit register or memory operand with an 8-bit immediate.
pub fn sub_rm8_imm8(x86: &mut X86, instr: &Instr) -> (r: StepResult<()>)
    ensures
        step_is(
            *old(x86),
            *final(x86),
            r,
            spec_binary::<u8>(old(x86).cpu(), *instr, Binary::Sub, Ok(instr.spec_immediate8())),
        ),
{
    let y = instr.immediate8();
    apply_binary::<u8>(x86, instr, Binary::Sub, y)
}

/// `SBB` of a 32-bit register or memory operand with a register or memory operand.
pub fn sbb_r32_rm32(x86: &mut X86, instr: &Instr) -> (r: StepResult<()>)
    ensures
        step_is(
            *old(x86),
            *final(x86),
            r,
            spec_binary::<u32>(old(x86).cpu(), *instr, Binary::Sbb, spec_op1_rm::<u32>(old(x86).cpu(), *instr)),
        ),
{
    let y = op1_rm32(x86, instr)?;
    apply_binary::<u32>(x86, instr, Binary::Sbb, y)
}

/// `SBB` of a 32-bit register or memory operand with a register.
pub fn sbb_rm32_r32(x86: &mut X86, instr: &Instr) -> (r: StepResult<()>)
    ensures
        step_is(
            *old(x86),
            *final(x86),
            r,
            spec_binary::<u32>(old(x86).cpu(), *instr, Binary::Sbb, spec_reg1::<u32>(old(x86).cpu(), *instr)),
        ),
{
    let y = reg1::<u32>(x86, instr)?;
    apply_binary::<u32>(x86, instr, Binary::Sbb, y)
}

/// `SBB` of a 32-bit register or memory operand with a sign-extended 8-bit immediate.
pub fn sbb_rm32_imm8(x86: &mut X86, instr: &Instr) -> (r: StepResult<()>)
    ensures
        step_is(
            *old(x86),
            *final(x86),
            r,
            spec_binary::<u32>(old(x86).cpu(), *instr, Binary::Sbb, Ok(spec_unsigned32(instr.spec_immediate8to32() as int))),
        ),
{
    let y = unsigned32(instr.immediate8to32());
    apply_binary::<u32>(x86, instr, Binary::Sbb, y)
}

/// `SBB` of a 8-bit register or memory operand with a register or memory operand.
pub fn sbb_r8_rm8(x86: &mut X86, instr: &Instr) -> (r: StepResult<()>)
    ensures
        step_is(
            *old(x86),
            *final(x86),
            r,
            spec_binary::<u8>(old(x86).cpu(), *instr, Binary::Sbb, spec_op1_rm::<u8>(old(x86).cpu(), *instr)),
        ),
{
    let y = op1_rm8(x86, instr)?;
    apply_binary::<u8>(x86, instr, Binary::Sbb, y)
}

/// `SBB` of a 8-bit register or memory operand with an 8-bit immediate.
pub fn sbb_r8_imm8(x86: &mut X86, instr: &Instr) -> (r: StepResult<()>)
    ensures
        step_is(
            *old(x86),
            *final(x86),
            r,
            spec_binary::<u8>(old(x86).cpu(), *instr, Binary::Sbb, Ok(instr.spec_immediate8())),
        ),
{
    let y = instr.immediate8();
    apply_binary::<u8>(x86, instr, Binary::Sbb, y)
}

/// `DEC` of a 32-bit register or memory operand.
pub fn dec_rm32(x86: &mut X86, instr: &Instr) -> (r: StepResult<()>)
    ensures
        step_is(*old(x86), *final(x86), r, spec_unary::<u32>(old(x86).cpu(), *instr, Unary::Dec)),
{
    apply_unary::<u32>(x86, instr, Unary::Dec)
}

/// `DEC` of a 8-bit register or memory operand.
pub fn dec_rm8(x86: &mut X86, instr: &Instr) -> (r: StepResult<()>)
    ensures
        step_is(*old(x86), *final(x86), r, spec_unary::<u8>(old(x86).cpu(), *instr, Unary::Dec)),
{
    apply_unary::<u8>(x86, instr, Unary::Dec)
}

/// `INC` of a 32-bit register or memory operand.
pub fn inc_rm32(x86: &mut X86, instr: &Instr) -> (r: StepResult<()>)
    ensures
        step_is(*old(x86), *final(x86), r, spec_unary::<u32>(old(x86).cpu(), *instr, Unary::Inc)),
{
    apply_unary::<u32>(x86, instr, Unary::Inc)
}

/// `INC` of a 8-bit register or memory operand.
pub fn inc_rm8(x86: &mut X86, instr: &Instr) -> (r: StepResult<()>)
    ensures
        step_is(*old(x86), *final(x86), r, spec_unary::<u8>(old(x86).cpu(), *instr, Unary::Inc)),
{
    apply_unary::<u8>(x86, instr, Unary::Inc)
}

/// `NEG` of a 32-bit register or memory operand.
pub fn neg_rm32(x86: &mut X86, instr: &Instr) -> (r: StepResult<()>)
    ensures
        step_is(*old(x86), *final(x86), r, spec_unary::<u32>(old(x86).cpu(), *instr, Unary::Neg)),
{
    apply_unary::<u32>(x86, instr, Unary::Neg)
}

/// `NEG` of a 8-bit register or memory operand.
pub fn neg_rm8(x86: &mut X86, instr: &Instr) -> (r: StepResult<()>)
    ensures
        step_is(*old(x86), *final(x86), r, spec_unary::<u8>(old(x86).cpu(), *instr, Unary::Neg)),
{
    apply_unary::<u8>(x86, instr, Unary::Neg)
}

/// `NOT` of a 32-bit register or memory operand.
pub fn not_rm32(x86: &mut X86, instr: &Instr) -> (r: StepResult<()>)
    ensures
        step_is(*old(x86), *final(x86), r, spec_unary::<u32>(old(x86).cpu(), *instr, Unary::Not)),
{
    apply_unary::<u32>(x86, instr, Unary::Not)
}

/// The low 32 bits of an integer in two's complement.
pub open spec fn low32(v: int) -> u32 {
    (v % 0x1_0000_0000) as u32
}

/// Bits 32 to 63 of an integer in two's complement.
pub open spec fn high32(v: int) -> u32 {
    (v / 0x1_0000_0000 % 0x1_0000_0000) as u32
}

/// The quotient of `a` by `b`, rounded towards zero. `b` is not zero.
pub open spec fn quotient(a: int, b: int) -> int {
    if a >= 0 && b > 0 {
        a / b
    } else if a >= 0 {
        -(a / (-b))
    } else if b > 0 {
        -((-a) / b)
    } else {
        (-a) / (-b)
    }
}

/// The remainder that goes with [`quotient`]. It has the sign of `a`.
pub open spec fn remainder(a: int, b: int) -> int {
    if a >= 0 && b > 0 {
        a % b
    } else if a >= 0 {
        a % (-b)
    } else if b > 0 {
        -((-a) % b)
    } else {
        -((-a) % (-b))
    }
}

/// The 64-bit value that `EDX:EAX` holds, read as two's complement.
pub open spec fn signed64(edx: u32, eax: u32) -> int {
    if edx >= 0x8000_0000 {
        edx * 0x1_0000_0000 + eax - 0x1_0000_0000_0000_0000
    } else {
        edx * 0x1_0000_0000 + eax
    }
}

/// The one-operand signed multiplication: `EDX:EAX` becomes the full product
/// of `EAX` and the operand. Carry and overflow tell whether the product
/// needs more than 32 bits.
pub open spec fn spec_imul_rm32(cpu: Cpu, instr: Instr) -> Result<Cpu, Fault> {
    match spec_op0_rm::<u32>(cpu, instr) {
        Err(f) => Err(f),
        Ok(x) => {
            let product = signed(32, x) * signed(32, cpu.regs.eax);
            let wide = product < -0x8000_0000 || product > 0x7FFF_FFFF;
            Ok(
                Cpu {
                    regs: Registers { eax: low32(product), edx: high32(product), ..cpu.regs },
                    flags: Flags { cf: wide, of: wide, ..cpu.flags },
                    ..cpu
                },
            )
        },
    }
}

/// The signed multiplication of `x` and `y` into the register that is
/// operand 0, the product cut to 32 bits.
pub open spec fn spec_imul(cpu: Cpu, instr: Instr, x: Result<u32, Fault>, y: Result<u32, Fault>)
    -> Result<Cpu, Fault> {
    match (instr.op0_register, x, y) {
        (Register::R32(d), Ok(x), Ok(y)) => {
            let sx = signed(32, x) as i32;
            let sy = signed(32, y) as i32;
            Ok(
                Cpu {
                    regs: cpu.regs.spec_set32(
                        d,
                        spec_unsigned32(vstd::wrapping::i32_specs::wrapping_mul(sx, sy) as int),
                    ),
                    flags: imul_flags(cpu.flags, sx, sy),
                    ..cpu
                },
            )
        },
        (Register::R32(_), Err(f), _) => Err(f),
        (Register::R32(_), _, Err(f)) => Err(f),
        _ => Err(undecodable(cpu)),
    }
}

/// `IMUL` of a register with a register or memory operand.
pub open spec fn spec_imul_r32_rm32(cpu: Cpu, instr: Instr) -> Result<Cpu, Fault> {
    spec_imul(
        cpu,
        instr,
        match instr.op0_register {
            Register::R32(d) => Ok(cpu.regs.spec_get32(d)),
            _ => Err(undecodable(cpu)),
        },
        spec_op1_rm::<u32>(cpu, instr),
    )
}

/// `IMUL` of a register or memory operand with a 32-bit immediate.
pub open spec fn spec_imul_r32_rm32_imm32(cpu: Cpu, instr: Instr) -> Result<Cpu, Fault> {
    spec_imul(cpu, instr, spec_op1_rm::<u32>(cpu, instr), Ok(instr.spec_immediate32()))
}

/// `IMUL` of a register or memory operand with a sign-extended 8-bit
/// immediate.
pub open spec fn spec_imul_r32_rm32_imm8(cpu: Cpu, instr: Instr) -> Result<Cpu, Fault> {
    spec_imul(
        cpu,
        instr,
        spec_op1_rm::<u32>(cpu, instr),
        Ok(spec_unsigned32(instr.spec_immediate8to32() as int)),
    )
}

/// The unsigned division of `EDX:EAX` by the operand: quotient to `EAX`,
/// remainder to `EDX`. A zero divisor and a quotient that does not fit 32
/// bits are faults.
pub open spec fn spec_div_rm32(cpu: Cpu, instr: Instr) -> Result<Cpu, Fault> {
    match spec_op0_rm::<u32>(cpu, instr) {
        Err(f) => Err(f),
        Ok(y) => {
            let x = cpu.regs.edx * 0x1_0000_0000 + cpu.regs.eax;
            if y == 0 || x / (y as int) > 0xFFFF_FFFF {
                Err(Fault::DivideError)
            } else {
                Ok(
                    Cpu {
                        regs: Registers {
                            eax: (x / (y as int)) as u32,
                            edx: (x % (y as int)) as u32,
                            ..cpu.regs
                        },
                        ..cpu
                    },
                )
            }
        },
    }
}

/// The signed division of `EDX:EAX` by the operand: quotient, rounded
/// towards zero, to `EAX`, remainder to `EDX`. A zero divisor and a quotient
/// that does not fit 32 bits are faults.
pub open spec fn spec_idiv_rm32(cpu: Cpu, instr: Instr) -> Result<Cpu, Fault> {
    match spec_op0_rm::<u32>(cpu, instr) {
        Err(f) => Err(f),
        Ok(y) => {
            let a = signed64(cpu.regs.edx, cpu.regs.eax);
            let b = signed(32, y);
            if b == 0 || quotient(a, b) < -0x8000_0000 || quotient(a, b) > 0x7FFF_FFFF {
                Err(Fault::DivideError)
            } else {
                Ok(
                    Cpu {
                        regs: Registers {
                            eax: spec_unsigned32(quotient(a, b)),
                            edx: spec_unsigned32(remainder(a, b)),
                            ..cpu.regs
                        },
                        ..cpu
                    },
                )
            }
        },
    }
}

/// `IMUL` with one operand.
pub fn imul_rm32(x86: &mut X86, instr: &Instr) -> (r: StepResult<()>)
    ensures
        step_is(*old(x86), *final(x86), r, spec_imul_rm32(old(x86).cpu(), *instr)),
{
    let x = signed32(op0_rm32(x86, instr)?);
    let y = signed32(x86.regs.eax);
    assert(-0x8000_0000 * 0x8000_0000 <= x * y <= 0x8000_0000 * 0x8000_0000) by (nonlinear_arith)
        requires
            -0x8000_0000 <= x < 0x8000_0000,
            -0x8000_0000 <= y < 0x8000_0000,
    ;
    let product: i64 = (x as i64) * (y as i64);
    let pattern: u64 = if product < 0 {
        (product as i128 + 0x1_0000_0000_0000_0000) as u64
    } else {
        product as u64
    };
    let wide = product < -0x8000_0000 || product > 0x7FFF_FFFF;
    x86.regs.edx = (pattern / 0x1_0000_0000) as u32;
    x86.regs.eax = (pattern % 0x1_0000_0000) as u32;
    x86.flags.cf = wide;
    x86.flags.of = wide;
    Ok(())
}

fn imul_into(x86: &mut X86, instr: &Instr, x: u32, y: u32) -> (r: StepResult<()>)
    ensures
        step_is(
            *old(x86),
            *final(x86),
            r,
            spec_imul(old(x86).cpu(), *instr, Ok(x), Ok(y)),
        ),
{
    match instr.op0_register {
        Register::R32(d) => {
            let value = imul_trunc(signed32(x), signed32(y), &mut x86.flags);
            x86.regs.set32(d, unsigned32(value));
            Ok(())
        },
        _ => Err(x86.undecodable()),
    }
}

fn reg0(x86: &X86, instr: &Instr) -> (r: StepResult<u32>)
    ensures
        match instr.op0_register {
            Register::R32(d) => r == Ok::<u32, Fault>(x86.regs.spec_get32(d)),
            _ => r == Err::<u32, Fault>(undecodable(x86.cpu())),
        },
{
    match instr.op0_register {
        Register::R32(d) => Ok(x86.regs.get32(d)),
        _ => Err(x86.undecodable()),
    }
}

/// `IMUL` of a register with a register or memory operand.
pub fn imul_r32_rm32(x86: &mut X86, instr: &Instr) -> (r: StepResult<()>)
    ensures
        step_is(*old(x86), *final(x86), r, spec_imul_r32_rm32(old(x86).cpu(), *instr)),
{
    let x = reg0(x86, instr)?;
    let y = op1_rm32(x86, instr)?;
    imul_into(x86, instr, x, y)
}

/// `IMUL` of a register or memory operand with a 32-bit immediate, into a
/// register.
pub fn imul_r32_rm32_imm32(x86: &mut X86, instr: &Instr) -> (r: StepResult<()>)
    ensures
        step_is(*old(x86), *final(x86), r, spec_imul_r32_rm32_imm32(old(x86).cpu(), *instr)),
{
    let _ = reg0(x86, instr)?;
    let x = op1_rm32(x86, instr)?;
    let y = instr.immediate32();
    imul_into(x86, instr, x, y)
}

/// `IMUL` of a register or memory operand with a sign-extended 8-bit
/// immediate, into a register.
pub fn imul_r32_rm32_imm8(x86: &mut X86, instr: &Instr) -> (r: StepResult<()>)
    ensures
        step_is(*old(x86), *final(x86), r, spec_imul_r32_rm32_imm8(old(x86).cpu(), *instr)),
{
    let _ = reg0(x86, instr)?;
    let x = op1_rm32(x86, instr)?;
    let y = unsigned32(instr.immediate8to32());
    imul_into(x86, instr, x, y)
}

/// `IDIV`: signed division of `EDX:EAX`.
pub fn idiv_rm32(x86: &mut X86, instr: &Instr) -> (r: StepResult<()>)
    ensures
        step_is(*old(x86), *final(x86), r, spec_idiv_rm32(old(x86).cpu(), *instr)),
{
    let y = op0_rm32(x86, instr)?;
    let b = signed32(y);
    if b == 0 {
        return Err(Fault::DivideError);
    }
    let negative = x86.regs.edx >= 0x8000_0000;
    let pattern: u64 = (x86.regs.edx as u64) * 0x1_0000_0000 + x86.regs.eax as u64;
    // The magnitudes of dividend and divisor, and whether each is negative.
    let a_mag: u64 = if negative {
        (0x1_0000_0000_0000_0000 - pattern as u128) as u64
    } else {
        pattern
    };
    let b_mag: u64 = if b < 0 {
        (-(b as i64)) as u64
    } else {
        b as u64
    };
    let q_mag = a_mag / b_mag;
    let r_mag = a_mag % b_mag;
    let q_negative = negative != (b < 0);
    if (q_negative && q_mag > 0x8000_0000) || (!q_negative && q_mag > 0x7FFF_FFFF) {
        return Err(Fault::DivideError);
    }
    x86.regs.eax = if q_negative && q_mag != 0 {
        (0x1_0000_0000 - q_mag) as u32
    } else {
        q_mag as u32
    };
    x86.regs.edx = if negative && r_mag != 0 {
        (0x1_0000_0000 - r_mag) as u32
    } else {
        r_mag as u32
    };
    Ok(())
}

/// `DIV`: unsigned division of `EDX:EAX`.
pub fn div_rm32(x86: &mut X86, instr: &Instr) -> (r: StepResult<()>)
    ensures
        step_is(*old(x86), *final(x86), r, spec_div_rm32(old(x86).cpu(), *instr)),
{
    let y = op0_rm32(x86, instr)? as u64;
    if y == 0 {
        return Err(Fault::DivideError);
    }
    let x: u64 = (x86.regs.edx as u64) * 0x1_0000_0000 + x86.regs.eax as u64;
    let q = x / y;
    if q > 0xFFFF_FFFF {
        return Err(Fault::DivideError);
    }
    x86.regs.eax = q as u32;
    x86.regs.edx = (x % y) as u32;
    Ok(())
}

} // verus!
