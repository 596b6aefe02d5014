//! What holds of the arithmetic and logic kernels at every width.
use crate::flags::Flags;
use crate::ops::math::{
    add_flags, add_result, binary_flags, binary_result, dec_flags, inc_flags, sar_result,
    shift_flags, shift_result, shr_flags, sub_flags, sub_result, unary_flags, unary_result, Binary,
    Shift, Unary,
};
use crate::width::{lemma_wrap, mask, modulus, signed, top_bit, wrap};
use vstd::prelude::*;

verus! {

/// Whether `bits` is a width the guest has.
pub open spec fn is_width(bits: nat) -> bool {
    bits == 8 || bits == 16 || bits == 32
}

/// The top bit of the expression that defines overflow, for an addition
/// with `flip` all ones and for a subtraction with `flip` zero:
/// `(x ^ flip ^ y) & (x ^ r)`.
pub open spec fn overflow_bit(bits: nat, x: u32, y: u32, r: u32, flip: u32) -> bool {
    top_bit(bits, ((x ^ (flip ^ y)) & (x ^ r)) & mask(bits))
}

/// An addition is the addition of the integers, cut to the width: the
/// result is the sum modulo the number of values, carry says that the sum
/// of the unsigned operands does not fit, overflow that the sum of the
/// signed operands does not, sign that the result is negative when read as
/// signed, and zero that it is zero. The direction flag stays.
pub proof fn lemma_add_is_arithmetic(f: Flags, bits: nat, x: u32, y: u32, c: u32)
    requires
        is_width(bits),
        x <= mask(bits),
        y <= mask(bits),
        c <= 1,
    ensures
        ({
            let r = add_result(bits, x, y, c);
            let after = add_flags(f, bits, x, y, c);
            let sum = signed(bits, x) + signed(bits, y) + c;
            &&& r == (x + y + c) % modulus(bits)
            &&& after.cf == (x + y + c >= modulus(bits))
            &&& after.of == (sum < -(modulus(bits) / 2) || sum >= modulus(bits) / 2)
            &&& after.sf == (signed(bits, r) < 0)
            &&& after.zf == ((x + y + c) % modulus(bits) == 0)
            &&& after.df == f.df
        }),
{
    lemma_wrap(bits, x + y + c);
}

/// A subtraction is the subtraction of the integers, cut to the width:
/// carry says that the unsigned difference is negative, overflow that the
/// signed difference does not fit. The direction flag stays.
pub proof fn lemma_sub_is_arithmetic(f: Flags, bits: nat, x: u32, y: u32, b: bool)
    requires
        is_width(bits),
        x <= mask(bits),
        y <= mask(bits),
    ensures
        ({
            let borrow = if b {
                1int
            } else {
                0
            };
            let r = sub_result(bits, x, y, b);
            let after = sub_flags(f, bits, x, y, b);
            let difference = signed(bits, x) - signed(bits, y) - borrow;
            &&& r == (x - y - borrow) % modulus(bits)
            &&& after.cf == (x - y - borrow < 0)
            &&& after.of == (difference < -(modulus(bits) / 2) || difference >= modulus(bits) / 2)
            &&& after.sf == (signed(bits, r) < 0)
            &&& after.zf == ((x - y - borrow) % modulus(bits) == 0)
            &&& after.df == f.df
        }),
{
    lemma_wrap(
        bits,
        x - y - if b {
            1int
        } else {
            0
        },
    );
}

/// The carry of an addition with carry in, as the steps of the addition
/// find it: the carry goes into `y` first, and there is a carry out when
/// the final sum is below `x` or when `y` with the carry has wrapped to
/// zero.
pub proof fn lemma_add_carry_by_steps(f: Flags, bits: nat, x: u32, y: u32, c: u32)
    requires
        is_width(bits),
        x <= mask(bits),
        y <= mask(bits),
        c <= 1,
    ensures
        ({
            let with_carry = wrap(bits, y + c);
            let r = add_result(bits, x, y, c);
            &&& r == wrap(bits, x + with_carry)
            &&& add_flags(f, bits, x, y, c).cf == (r < x || (with_carry == 0 && c == 1))
        }),
{
    lemma_wrap(bits, y + c);
    lemma_wrap(bits, x + wrap(bits, y + c));
    lemma_wrap(bits, x + y + c);
}

/// The borrow of a subtraction with borrow in, as the steps of the
/// subtraction find it: the borrow goes into `y` first, and there is a
/// borrow out when `x` is below that or when `y` with the borrow has
/// wrapped to zero.
pub proof fn lemma_sub_borrow_by_steps(f: Flags, bits: nat, x: u32, y: u32, b: bool)
    requires
        is_width(bits),
        x <= mask(bits),
        y <= mask(bits),
    ensures
        ({
            let with_borrow = wrap(
                bits,
                y + if b {
                    1int
                } else {
                    0
                },
            );
            let r = sub_result(bits, x, y, b);
            &&& r == wrap(bits, x - with_borrow)
            &&& sub_flags(f, bits, x, y, b).cf == (x < with_borrow || (b && with_borrow == 0))
        }),
{
    let borrow = if b {
        1int
    } else {
        0
    };
    lemma_wrap(bits, y + borrow);
    lemma_wrap(bits, x - wrap(bits, y + borrow));
    lemma_wrap(bits, x - y - borrow);
}

/// The overflow of an addition is the top bit of `(x ^ !y) & (x ^ r)`, `r`
/// being the result.
pub proof fn lemma_add_overflow_by_bits(f: Flags, bits: nat, x: u32, y: u32, c: u32)
    requires
        is_width(bits),
        x <= mask(bits),
        y <= mask(bits),
        c <= 1,
    ensures
        add_flags(f, bits, x, y, c).of == overflow_bit(
            bits,
            x,
            y,
            add_result(bits, x, y, c),
            0xFFFF_FFFF,
        ),
{
    let r = add_result(bits, x, y, c);
    let e = ((x ^ (0xFFFF_FFFFu32 ^ y)) & (x ^ r));
    if bits == 8 {
        assert(x <= 0xFF && y <= 0xFF && r <= 0xFF ==> ((e & 0xFF) >= 0x80 <==> ((x >= 0x80) == (y
            >= 0x80) && (r >= 0x80) != (x >= 0x80)))) by (bit_vector)
            requires
                e == ((x ^ (0xFFFF_FFFFu32 ^ y)) & (x ^ r)),
        ;
    } else if bits == 16 {
        assert(x <= 0xFFFF && y <= 0xFFFF && r <= 0xFFFF ==> ((e & 0xFFFF) >= 0x8000 <==> ((x
            >= 0x8000) == (y >= 0x8000) && (r >= 0x8000) != (x >= 0x8000)))) by (bit_vector)
            requires
                e == ((x ^ (0xFFFF_FFFFu32 ^ y)) & (x ^ r)),
        ;
    } else {
        assert((e & 0xFFFF_FFFF) >= 0x8000_0000 <==> ((x >= 0x8000_0000) == (y >= 0x8000_0000) && (
        r >= 0x8000_0000) != (x >= 0x8000_0000))) by (bit_vector)
            requires
                e == ((x ^ (0xFFFF_FFFFu32 ^ y)) & (x ^ r)),
        ;
    }
}

/// The overflow of a subtraction is the top bit of `(x ^ y) & (x ^ r)`, `r`
/// being the result.
pub proof fn lemma_sub_overflow_by_bits(f: Flags, bits: nat, x: u32, y: u32, b: bool)
    requires
        is_width(bits),
        x <= mask(bits),
        y <= mask(bits),
    ensures
        sub_flags(f, bits, x, y, b).of == overflow_bit(bits, x, y, sub_result(bits, x, y, b), 0),
{
    let r = sub_result(bits, x, y, b);
    let e = ((x ^ (0u32 ^ y)) & (x ^ r));
    if bits == 8 {
        assert(x <= 0xFF && y <= 0xFF && r <= 0xFF ==> ((e & 0xFF) >= 0x80 <==> ((x >= 0x80) != (y
            >= 0x80) && (r >= 0x80) != (x >= 0x80)))) by (bit_vector)
            requires
                e == ((x ^ (0u32 ^ y)) & (x ^ r)),
        ;
    } else if bits == 16 {
        assert(x <= 0xFFFF && y <= 0xFFFF && r <= 0xFFFF ==> ((e & 0xFFFF) >= 0x8000 <==> ((x
            >= 0x8000) != (y >= 0x8000) && (r >= 0x8000) != (x >= 0x8000)))) by (bit_vector)
            requires
                e == ((x ^ (0u32 ^ y)) & (x ^ r)),
        ;
    } else {
        assert((e & 0xFFFF_FFFF) >= 0x8000_0000 <==> ((x >= 0x8000_0000) != (y >= 0x8000_0000) && (
        r >= 0x8000_0000) != (x >= 0x8000_0000))) by (bit_vector)
            requires
                e == ((x ^ (0u32 ^ y)) & (x ^ r)),
        ;
    }
}

/// Whether two sets of flags agree in carry, zero, sign and overflow.
pub open spec fn same_arithmetic_flags(a: Flags, b: Flags) -> bool {
    a.cf == b.cf && a.zf == b.zf && a.sf == b.sf && a.of == b.of
}

/// How far an operand of the given width is moved up to stand at the top of
/// 32 bits.
pub open spec fn lift(bits: nat) -> u32 {
    if bits == 8 {
        0x100_0000
    } else if bits == 16 {
        0x1_0000
    } else {
        1
    }
}

/// One kernel serves every width. An addition at 8 or 16 bits leaves carry,
/// zero, sign and overflow as the addition at 32 bits leaves them for the
/// same operands moved up to the top of 32 bits, and its result is the
/// result of that, moved back down. Parity and auxiliary carry look at the
/// low bits of the result, which moving up changes.
pub proof fn lemma_add_at_any_width(f: Flags, bits: nat, x: u32, y: u32)
    requires
        is_width(bits),
        x <= mask(bits),
        y <= mask(bits),
    ensures
        same_arithmetic_flags(
            add_flags(f, bits, x, y, 0),
            add_flags(f, 32, (x * lift(bits)) as u32, (y * lift(bits)) as u32, 0),
        ),
        add_result(bits, x, y, 0) * lift(bits) == add_result(
            32,
            (x * lift(bits)) as u32,
            (y * lift(bits)) as u32,
            0,
        ),
{
    let sum = x + y;
    let k = lift(bits);
    let up_x = (x * k) as u32;
    let up_y = (y * k) as u32;
    if bits == 8 {
        let q = sum / 0x100;
        let r = sum % 0x100;
        assert(k == 0x100_0000);
        assert(up_x == x * 0x100_0000 && up_y == y * 0x100_0000);
        assert(sum * 0x100_0000 == q * 0x1_0000_0000 + r * 0x100_0000);
        assert((up_x + up_y) % 0x1_0000_0000 == r * 0x100_0000);
        assert(r * k == r * 0x100_0000);
    } else if bits == 16 {
        let q = sum / 0x1_0000;
        let r = sum % 0x1_0000;
        assert(k == 0x1_0000);
        assert(up_x == x * 0x1_0000 && up_y == y * 0x1_0000);
        assert(sum * 0x1_0000 == q * 0x1_0000_0000 + r * 0x1_0000);
        assert((up_x + up_y) % 0x1_0000_0000 == r * 0x1_0000);
        assert(r * k == r * 0x1_0000);
    } else {
        assert(k == 1);
        assert(up_x == x && up_y == y);
    }
}

/// One kernel serves every width. A subtraction at 8 or 16 bits leaves
/// carry, zero, sign and overflow as the subtraction at 32 bits leaves them
/// for the same operands moved up to the top of 32 bits, and its result is
/// the result of that, moved back down.
pub proof fn lemma_sub_at_any_width(f: Flags, bits: nat, x: u32, y: u32)
    requires
        is_width(bits),
        x <= mask(bits),
        y <= mask(bits),
    ensures
        same_arithmetic_flags(
            sub_flags(f, bits, x, y, false),
            sub_flags(f, 32, (x * lift(bits)) as u32, (y * lift(bits)) as u32, false),
        ),
        sub_result(bits, x, y, false) * lift(bits) == sub_result(
            32,
            (x * lift(bits)) as u32,
            (y * lift(bits)) as u32,
            false,
        ),
{
    let difference = x - y;
    let k = lift(bits);
    let up_x = (x * k) as u32;
    let up_y = (y * k) as u32;
    if bits == 8 {
        let q = difference / 0x100;
        let r = difference % 0x100;
        assert(k == 0x100_0000);
        assert(up_x == x * 0x100_0000 && up_y == y * 0x100_0000);
        assert(difference * 0x100_0000 == q * 0x1_0000_0000 + r * 0x100_0000);
        assert((up_x - up_y) % 0x1_0000_0000 == r * 0x100_0000);
        assert(r * k == r * 0x100_0000);
    } else if bits == 16 {
        let q = difference / 0x1_0000;
        let r = difference % 0x1_0000;
        assert(k == 0x1_0000);
        assert(up_x == x * 0x1_0000 && up_y == y * 0x1_0000);
        assert(difference * 0x1_0000 == q * 0x1_0000_0000 + r * 0x1_0000);
        assert((up_x - up_y) % 0x1_0000_0000 == r * 0x1_0000);
        assert(r * k == r * 0x1_0000);
    } else {
        assert(k == 1);
        assert(up_x == x && up_y == y);
    }
}

/// An increment overflows exactly at the largest positive value, a
/// decrement exactly at the most negative, and neither touches the carry.
pub proof fn lemma_inc_dec(f: Flags, bits: nat, x: u32)
    requires
        is_width(bits),
        x <= mask(bits),
    ensures
        inc_flags(f, bits, x).of == (x == mask(bits) / 2),
        dec_flags(f, bits, x).of == (x == mask(bits) / 2 + 1),
        inc_flags(f, bits, x).cf == f.cf,
        dec_flags(f, bits, x).cf == f.cf,
{
}

/// A logical shift to the right by one or more leaves the sign clear.
pub proof fn lemma_shr_clears_sign(f: Flags, bits: nat, x: u32, n: u8)
    requires
        is_width(bits),
        x <= mask(bits),
        n >= 1,
    ensures
        !shr_flags(f, bits, x, n).sf,
{
    if n < 32 {
        let k = n as u32;
        assert(1 <= k < 32 ==> x >> k <= x / 2) by (bit_vector);
    }
}

/// An arithmetic shift to the right is the shift of the signed value: what
/// Rust's `>>` makes of the operand taken as a signed integer of its width.
pub proof fn lemma_sar_is_signed_shift(bits: nat, x: u32, n: u32)
    requires
        is_width(bits),
        x <= mask(bits),
        n < bits,
    ensures
        bits == 8 ==> sar_result(bits, x, n) == (((x as u8) as i8) >> n) as u8,
        bits == 16 ==> sar_result(bits, x, n) == (((x as u16) as i16) >> n) as u16,
        bits == 32 ==> sar_result(bits, x, n) == ((x as i32) >> n) as u32,
{
    if bits == 8 {
        assert(x <= 0xFF && n < 8 ==> ((x >> n) | (if x >= 0x80 {
            0xFFu32 & !(0xFFu32 >> n)
        } else {
            0u32
        })) == ((((x as u8) as i8) >> n) as u8) as u32) by (bit_vector);
    } else if bits == 16 {
        assert(x <= 0xFFFF && n < 16 ==> ((x >> n) | (if x >= 0x8000 {
            0xFFFFu32 & !(0xFFFFu32 >> n)
        } else {
            0u32
        })) == ((((x as u16) as i16) >> n) as u16) as u32) by (bit_vector);
    } else {
        assert(n < 32 ==> ((x >> n) | (if x >= 0x8000_0000 {
            0xFFFF_FFFFu32 & !(0xFFFF_FFFFu32 >> n)
        } else {
            0u32
        })) == ((x as i32) >> n) as u32) by (bit_vector);
    }
}

/// Two runs of a binary operation with the same mnemonic, the same width,
/// the same operands and the same flags before give the same result and
/// the same flags. Of the flags before, the carry is all that matters to
/// the result and to carry, zero, sign, overflow and parity after; the
/// direction flag comes out as it went in.
pub proof fn lemma_binary_is_a_function(
    first: (Binary, nat, u32, u32, Flags),
    second: (Binary, nat, u32, u32, Flags),
)
    requires
        first.0 == second.0,
        first.1 == second.1,
        first.2 == second.2,
        first.3 == second.3,
        first.4.cf == second.4.cf,
    ensures
        ({
            let (op, bits, x, y, f) = first;
            let (op2, bits2, x2, y2, f2) = second;
            let after = binary_flags(op, f, bits, x, y);
            let after2 = binary_flags(op2, f2, bits2, x2, y2);
            &&& binary_result(op, bits, x, y, f.cf) == binary_result(op2, bits2, x2, y2, f2.cf)
            &&& same_arithmetic_flags(after, after2)
            &&& after.pf == after2.pf
            &&& after.df == f.df
            &&& f == f2 ==> after == after2
        }),
{
}

/// Two runs of a shift or rotation with the same mnemonic, width, operand,
/// count and flags before give the same result and the same flags, and the
/// auxiliary carry and the direction flag come out as they went in.
pub proof fn lemma_shift_is_a_function(
    first: (Shift, nat, u32, u8, Flags),
    second: (Shift, nat, u32, u8, Flags),
)
    requires
        first == second,
    ensures
        ({
            let (op, bits, x, n, f) = first;
            let (op2, bits2, x2, n2, f2) = second;
            let after = shift_flags(op, f, bits, x, n);
            &&& shift_result(op, bits, x, n) == shift_result(op2, bits2, x2, n2)
            &&& after == shift_flags(op2, f2, bits2, x2, n2)
            &&& after.af == f.af && after.df == f.df
        }),
{
}

/// Two runs of a unary operation with the same mnemonic, width, operand and
/// flags before give the same result and the same flags, and the direction
/// flag comes out as it went in.
pub proof fn lemma_unary_is_a_function(
    first: (Unary, nat, u32, Flags),
    second: (Unary, nat, u32, Flags),
)
    requires
        first == second,
    ensures
        ({
            let (op, bits, x, f) = first;
            let (op2, bits2, x2, f2) = second;
            let after = unary_flags(op, f, bits, x);
            &&& unary_result(op, bits, x) == unary_result(op2, bits2, x2)
            &&& after == unary_flags(op2, f2, bits2, x2)
            &&& after.df == f.df
        }),
{
}

} // verus!
