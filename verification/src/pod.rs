//! Plain-old-data values and their little-endian layout in guest memory.
use vstd::prelude::*;

verus! {

/// A value whose representation in guest memory is a fixed number of bytes in
/// little-endian order, with no padding and no invalid bit patterns.
pub trait Pod: Sized + Copy {
    /// The number of bytes the value occupies.
    spec fn spec_size() -> nat;

    /// The value that `bytes` holds. Only meaningful when `bytes` has
    /// `spec_size()` elements.
    spec fn decoded(bytes: Seq<u8>) -> Self;

    /// The bytes that hold the value, lowest address first.
    spec fn encoded(self) -> Seq<u8>;

    /// Encoding gives `spec_size()` bytes, decoding them gives the value
    /// back, and every byte string of that length is the encoding of what it
    /// decodes to.
    proof fn lemma_layout(v: Self, bytes: Seq<u8>)
        ensures
            0 < Self::spec_size() <= u32::MAX,
            v.encoded().len() == Self::spec_size(),
            Self::decoded(v.encoded()) == v,
            bytes.len() == Self::spec_size() ==> Self::decoded(bytes).encoded() == bytes,
    ;

    fn size() -> (n: u32)
        ensures
            n == Self::spec_size(),
    ;

    /// Reads the value stored at `bytes[at..at + size]`.
    fn read(bytes: &[u8], at: usize) -> (v: Self)
        requires
            at + Self::spec_size() <= bytes.len(),
        ensures
            v == Self::decoded(bytes@.subrange(at as int, at + Self::spec_size())),
    ;

    /// Stores the value at `bytes[at..at + size]` and leaves every other byte
    /// as it was.
    fn write(self, bytes: &mut Vec<u8>, at: usize)
        requires
            at + Self::spec_size() <= old(bytes).len(),
        ensures
            final(bytes)@ == splice(old(bytes)@, at as int, self.encoded()),
    ;
}

/// `bytes` with the elements from `at` on replaced by those of `patch`.
pub open spec fn splice(bytes: Seq<u8>, at: int, patch: Seq<u8>) -> Seq<u8> {
    Seq::new(
        bytes.len(),
        |i: int|
            if at <= i < at + patch.len() {
                patch[i - at]
            } else {
                bytes[i]
            },
    )
}

impl Pod for u8 {
    open spec fn spec_size() -> nat {
        1
    }

    open spec fn decoded(bytes: Seq<u8>) -> u8 {
        bytes[0]
    }

    open spec fn encoded(self) -> Seq<u8> {
        seq![self]
    }

    proof fn lemma_layout(v: u8, bytes: Seq<u8>) {
        if bytes.len() == 1 {
            assert(seq![bytes[0]] =~= bytes);
        }
    }

    fn size() -> (n: u32) {
        1
    }

    fn read(bytes: &[u8], at: usize) -> (v: u8) {
        bytes[at]
    }

    fn write(self, bytes: &mut Vec<u8>, at: usize) {
        bytes[at] = self;
        assert(bytes@ =~= splice(old(bytes)@, at as int, self.encoded()));
    }
}

impl Pod for u16 {
    open spec fn spec_size() -> nat {
        2
    }

    open spec fn decoded(bytes: Seq<u8>) -> u16 {
        (bytes[0] + bytes[1] * 0x100) as u16
    }

    open spec fn encoded(self) -> Seq<u8> {
        seq![(self % 0x100) as u8, (self / 0x100) as u8]
    }

    proof fn lemma_layout(v: u16, bytes: Seq<u8>) {
        if bytes.len() == 2 {
            assert(Self::decoded(bytes).encoded() =~= bytes);
        }
    }

    fn size() -> (n: u32) {
        2
    }

    fn read(bytes: &[u8], at: usize) -> (v: u16) {
        let b0: u16 = bytes[at] as u16;
        let b1: u16 = bytes[at + 1] as u16;
        b0 + b1 * 0x100
    }

    fn write(self, bytes: &mut Vec<u8>, at: usize) {
        let hi: usize = at + 1;
        bytes[at] = (self % 0x100) as u8;
        bytes[hi] = (self / 0x100) as u8;
        assert(bytes@ =~= splice(old(bytes)@, at as int, self.encoded()));
    }
}

impl Pod for u32 {
    open spec fn spec_size() -> nat {
        4
    }

    open spec fn decoded(bytes: Seq<u8>) -> u32 {
        (bytes[0] + bytes[1] * 0x100 + bytes[2] * 0x1_0000 + bytes[3] * 0x100_0000) as u32
    }

    open spec fn encoded(self) -> Seq<u8> {
        seq![
            (self % 0x100) as u8,
            (self / 0x100 % 0x100) as u8,
            (self / 0x1_0000 % 0x100) as u8,
            (self / 0x100_0000) as u8,
        ]
    }

    proof fn lemma_layout(v: u32, bytes: Seq<u8>) {
        if bytes.len() == 4 {
            let b0 = bytes[0] as int;
            let b1 = bytes[1] as int;
            let b2 = bytes[2] as int;
            let b3 = bytes[3] as int;
            let x = b0 + b1 * 0x100 + b2 * 0x1_0000 + b3 * 0x100_0000;
            assert(x % 0x100 == b0);
            assert(x / 0x100 == b1 + b2 * 0x100 + b3 * 0x1_0000);
            assert(x / 0x1_0000 == b2 + b3 * 0x100);
            assert(x / 0x100_0000 == b3);
            assert(Self::decoded(bytes).encoded() =~= bytes);
        }
    }

    fn size() -> (n: u32) {
        4
    }

    fn read(bytes: &[u8], at: usize) -> (v: u32) {
        let b0: u32 = bytes[at] as u32;
        let b1: u32 = bytes[at + 1] as u32;
        let b2: u32 = bytes[at + 2] as u32;
        let b3: u32 = bytes[at + 3] as u32;
        b0 + b1 * 0x100 + b2 * 0x1_0000 + b3 * 0x100_0000
    }

    fn write(self, bytes: &mut Vec<u8>, at: usize) {
        let at1: usize = at + 1;
        let at2: usize = at + 2;
        let at3: usize = at + 3;
        bytes[at] = (self % 0x100) as u8;
        bytes[at1] = (self / 0x100 % 0x100) as u8;
        bytes[at2] = (self / 0x1_0000 % 0x100) as u8;
        bytes[at3] = (self / 0x100_0000) as u8;
        assert(bytes@ =~= splice(old(bytes)@, at as int, self.encoded()));
    }
}

} // verus!
