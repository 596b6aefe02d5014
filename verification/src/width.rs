//! The guest's integer widths.
use vstd::prelude::*;

verus! {

/// The number of values of an integer that is `bits` wide, for the widths the
/// guest has: 8, 16 and 32.
pub open spec fn modulus(bits: nat) -> int {
    if bits == 8 {
        0x100
    } else if bits == 16 {
        0x1_0000
    } else {
        0x1_0000_0000
    }
}

/// `v` modulo the number of values of an integer that is `bits` wide: the
/// value that the low `bits` bits of `v` hold.
pub open spec fn wrap(bits: nat, v: int) -> u32 {
    if bits == 8 {
        (v % 0x100) as u32
    } else if bits == 16 {
        (v % 0x1_0000) as u32
    } else {
        (v % 0x1_0000_0000) as u32
    }
}

/// Cutting to the width takes the number of values off a value that is too
/// large by less than that, adds it to a negative one that is too small by
/// less than that, and leaves alone a value that fits.
pub proof fn lemma_wrap(bits: nat, v: int)
    requires
        bits == 8 || bits == 16 || bits == 32,
        -modulus(bits) <= v < 2 * modulus(bits),
    ensures
        wrap(bits, v) == if v < 0 {
            v + modulus(bits)
        } else if v >= modulus(bits) {
            v - modulus(bits)
        } else {
            v
        },
{
    if bits == 8 {
        if v < 0 {
            assert(v % 0x100 == v + 0x100);
        } else if v >= 0x100 {
            assert(v % 0x100 == v - 0x100);
        } else {
            assert(v % 0x100 == v);
        }
    } else if bits == 16 {
        if v < 0 {
            assert(v % 0x1_0000 == v + 0x1_0000);
        } else if v >= 0x1_0000 {
            assert(v % 0x1_0000 == v - 0x1_0000);
        } else {
            assert(v % 0x1_0000 == v);
        }
    } else {
        if v < 0 {
            assert(v % 0x1_0000_0000 == v + 0x1_0000_0000);
        } else if v >= 0x1_0000_0000 {
            assert(v % 0x1_0000_0000 == v - 0x1_0000_0000);
        } else {
            assert(v % 0x1_0000_0000 == v);
        }
    }
}

/// Cutting to the width does not see a multiple of 2 to the 32.
pub proof fn lemma_wrap_period(bits: nat, v: int)
    requires
        bits == 8 || bits == 16 || bits == 32,
    ensures
        wrap(bits, v + 0x1_0000_0000) == wrap(bits, v),
{
    if bits == 8 {
        assert((v + 0x1_0000_0000) % 0x100 == v % 0x100) by {
            assert(0x1_0000_0000int == 0x100_0000 * 0x100);
            vstd::arithmetic::div_mod::lemma_mod_multiples_vanish(0x100_0000, v, 0x100);
        }
    } else if bits == 16 {
        assert((v + 0x1_0000_0000) % 0x1_0000 == v % 0x1_0000) by {
            assert(0x1_0000_0000int == 0x1_0000 * 0x1_0000);
            vstd::arithmetic::div_mod::lemma_mod_multiples_vanish(0x1_0000, v, 0x1_0000);
        }
    } else {
        assert((v + 0x1_0000_0000) % 0x1_0000_0000 == v % 0x1_0000_0000) by {
            vstd::arithmetic::div_mod::lemma_mod_multiples_vanish(1, v, 0x1_0000_0000);
        }
    }
}

/// The largest value of an integer that is `bits` wide, which is also the
/// mask that keeps its bits.
pub open spec fn mask(bits: nat) -> u32 {
    if bits == 8 {
        0xFF
    } else if bits == 16 {
        0xFFFF
    } else {
        0xFFFF_FFFF
    }
}

/// The top bit of `v`, taken as an integer that is `bits` wide: its sign
/// when read as two's complement.
pub open spec fn top_bit(bits: nat, v: u32) -> bool {
    if bits == 8 {
        v >= 0x80
    } else if bits == 16 {
        v >= 0x8000
    } else {
        v >= 0x8000_0000
    }
}

/// The value of `v` read as a two's-complement integer that is `bits` wide.
pub open spec fn signed(bits: nat, v: u32) -> int {
    if top_bit(bits, v) {
        v - modulus(bits)
    } else {
        v as int
    }
}

/// Bit `i` of `v`, counted from the lowest.
pub open spec fn bit(v: u32, i: int) -> bool {
    0 <= i < 32 && (v >> (i as u32)) & 1 == 1
}

/// An unsigned integer of one of the guest's widths. The arithmetic and
/// logic kernels are written once over this trait.
pub trait Int: Copy + Sized {
    /// The width in bits.
    spec fn spec_bits() -> nat;

    /// The value, widened to 32 bits.
    spec fn val(self) -> u32;

    /// The integer that holds the low bits of `v`.
    spec fn spec_truncate(v: u32) -> Self;

    /// The width is 8, 16 or 32.
    proof fn lemma_width()
        ensures
            Self::spec_bits() == 8 || Self::spec_bits() == 16 || Self::spec_bits() == 32,
    ;

    /// The value fits the width, and two integers with the same value are
    /// the same.
    proof fn lemma_int(x: Self, y: Self)
        ensures
            Self::spec_bits() == 8 || Self::spec_bits() == 16 || Self::spec_bits() == 32,
            x.val() <= mask(Self::spec_bits()),
            x.val() == y.val() ==> x == y,
    ;

    fn bits() -> (n: usize)
        ensures
            n == Self::spec_bits(),
    ;

    fn as_usize(self) -> (n: usize)
        ensures
            n == self.val(),
    ;

    fn to_u32(self) -> (n: u32)
        ensures
            n == self.val(),
    ;

    /// Cutting `v` to the width keeps its value modulo the number of values of
    /// the width.
    proof fn lemma_truncate(v: u32)
        ensures
            Self::spec_truncate(v).val() == wrap(Self::spec_bits(), v as int),
    ;

    /// The integer that holds the low bits of `v`.
    fn truncate(v: u32) -> (x: Self)
        ensures
            x == Self::spec_truncate(v),
            x.val() == wrap(Self::spec_bits(), v as int),
    ;
}

impl Int for u8 {
    open spec fn spec_bits() -> nat {
        8
    }

    open spec fn val(self) -> u32 {
        self as u32
    }

    open spec fn spec_truncate(v: u32) -> u8 {
        (v % 0x100) as u8
    }

    proof fn lemma_width() {
    }

    proof fn lemma_int(x: u8, y: u8) {
    }

    proof fn lemma_truncate(v: u32) {
    }

    fn bits() -> (n: usize) {
        8
    }

    fn as_usize(self) -> (n: usize) {
        self as usize
    }

    fn to_u32(self) -> (n: u32) {
        self as u32
    }

    fn truncate(v: u32) -> (x: u8) {
        (v % 0x100) as u8
    }
}

impl Int for u16 {
    open spec fn spec_bits() -> nat {
        16
    }

    open spec fn val(self) -> u32 {
        self as u32
    }

    open spec fn spec_truncate(v: u32) -> u16 {
        (v % 0x1_0000) as u16
    }

    proof fn lemma_width() {
    }

    proof fn lemma_int(x: u16, y: u16) {
    }

    proof fn lemma_truncate(v: u32) {
    }

    fn bits() -> (n: usize) {
        16
    }

    fn as_usize(self) -> (n: usize) {
        self as usize
    }

    fn to_u32(self) -> (n: u32) {
        self as u32
    }

    fn truncate(v: u32) -> (x: u16) {
        (v % 0x1_0000) as u16
    }
}

impl Int for u32 {
    open spec fn spec_bits() -> nat {
        32
    }

    open spec fn val(self) -> u32 {
        self
    }

    open spec fn spec_truncate(v: u32) -> u32 {
        v
    }

    proof fn lemma_width() {
    }

    proof fn lemma_int(x: u32, y: u32) {
    }

    proof fn lemma_truncate(v: u32) {
    }

    fn bits() -> (n: usize) {
        32
    }

    fn as_usize(self) -> (n: usize) {
        self as usize
    }

    fn to_u32(self) -> (n: u32) {
        self
    }

    fn truncate(v: u32) -> (x: u32) {
        v
    }
}

} // verus!
