//! Windows onto guest memory.
//!
//! Guest memory is one contiguous byte buffer. A [`Mem`] names a region of it
//! by position and length and holds no bytes itself: every access is handed
//! the buffer and checked against it. Any number of windows may name the
//! same bytes, and a store through one is seen by a load through any other.
use crate::fault::Fault;
use crate::pod::{splice, Pod};
use vstd::prelude::*;
use vstd::slice::slice_subrange;
use vstd::string::StringSliceAdditionalSpecFns;
use vstd::utf8::valid_utf8;

verus! {

/// One end of the range handed to [`Mem::slice`].
#[derive(Clone, Copy, Debug, PartialEq, Eq)]
pub enum Bound {
    Included(u32),
    Excluded(u32),
    Unbounded,
}

/// A region of guest memory: `len` bytes that begin `start` bytes into the
/// buffer.
#[derive(Clone, Copy, Debug, PartialEq, Eq)]
pub struct Mem {
    start: u32,
    len: u32,
}

/// True when `i` is the position of the first zero byte of `bytes` at or
/// after `from`.
pub open spec fn first_nul(bytes: Seq<u8>, from: int, i: int) -> bool {
    &&& from <= i < bytes.len()
    &&& bytes[i] == 0
    &&& forall|j: int| from <= j < i ==> bytes[j] != 0
}

impl Mem {
    #[verifier::type_invariant]
    spec fn inv(self) -> bool {
        self.start + self.len <= u32::MAX
    }

    /// Where the region begins in the buffer.
    pub closed spec fn spec_start(self) -> u32 {
        self.start
    }

    /// How many bytes the region spans.
    pub closed spec fn spec_len(self) -> u32 {
        self.len
    }

    /// The region lies wholly inside a buffer of `size` bytes.
    pub open spec fn fits(self, size: nat) -> bool {
        self.spec_start() + self.spec_len() <= size
    }

    /// An access of `n` bytes at offset `ofs` stays inside the region, and
    /// the region inside the buffer.
    pub open spec fn covers(self, buf: Seq<u8>, ofs: u32, n: nat) -> bool {
        self.fits(buf.len()) && ofs + n <= self.spec_len()
    }

    /// The bytes of `buf` that the region names.
    pub open spec fn bytes(self, buf: Seq<u8>) -> Seq<u8> {
        buf.subrange(self.spec_start() as int, self.spec_start() + self.spec_len())
    }

    /// What [`Mem::get`] returns.
    pub open spec fn spec_get<T: Pod>(self, buf: Seq<u8>, ofs: u32) -> Result<T, Fault> {
        if self.covers(buf, ofs, T::spec_size()) {
            Ok(
                T::decoded(
                    buf.subrange(
                        self.spec_start() + ofs,
                        self.spec_start() + ofs + T::spec_size(),
                    ),
                ),
            )
        } else {
            Err(Fault::MemoryFault { addr: ofs, len: T::spec_size() as u32 })
        }
    }

    /// The buffer after [`Mem::put`].
    pub open spec fn spec_put<T: Pod>(self, buf: Seq<u8>, ofs: u32, val: T) -> Seq<u8> {
        if self.covers(buf, ofs, T::spec_size()) {
            splice(buf, self.spec_start() + ofs, val.encoded())
        } else {
            buf
        }
    }

    /// The start of the range that `from` opens.
    pub open spec fn lower(from: Bound) -> int {
        match from {
            Bound::Included(n) => n as int,
            Bound::Excluded(n) => n + 1,
            Bound::Unbounded => 0,
        }
    }

    /// The end of the range that `to` closes, one past its last byte.
    pub open spec fn upper(self, to: Bound) -> int {
        match to {
            Bound::Included(n) => n + 1,
            Bound::Excluded(n) => n as int,
            Bound::Unbounded => self.spec_len() as int,
        }
    }

    /// The region that [`Mem::from_slice`] makes for a buffer of `size`
    /// bytes.
    pub closed spec fn whole(size: nat) -> Mem {
        Mem {
            start: 0,
            len: if size <= u32::MAX {
                size as u32
            } else {
                u32::MAX
            },
        }
    }

    /// The region that covers all of `s`. Guest addresses are 32 bits wide:
    /// of a longer buffer the region covers the part that they reach.
    pub fn from_slice(s: &[u8]) -> (m: Mem)
        ensures
            m == Self::whole(s@.len()),
            m.spec_start() == 0,
            m.spec_len() == if s@.len() <= u32::MAX {
                s@.len()
            } else {
                u32::MAX as nat
            },
    {
        if s.len() > u32::MAX as usize {
            Mem { start: 0, len: u32::MAX }
        } else {
            Mem { start: 0, len: s.len() as u32 }
        }
    }

    pub fn start(&self) -> (n: u32)
        ensures
            n == self.spec_start(),
            n + self.spec_len() <= u32::MAX,
    {
        proof {
            use_type_invariant(self);
        }
        self.start
    }

    pub fn len(&self) -> (n: u32)
        ensures
            n == self.spec_len(),
    {
        self.len
    }

    /// Copies out the value stored `ofs` bytes into the region. No alignment
    /// is asked of `ofs`.
    pub fn get<T: Pod>(&self, buf: &[u8], ofs: u32) -> (r: Result<T, Fault>)
        ensures
            r == self.spec_get::<T>(buf@, ofs),
    {
        proof {
            use_type_invariant(self);
        }
        let n = T::size();
        if ofs as u64 + n as u64 > self.len as u64 || self.start as u64 + self.len as u64
            > buf.len() as u64 {
            return Err(Fault::MemoryFault { addr: ofs, len: n });
        }
        Ok(T::read(buf, (self.start + ofs) as usize))
    }

    /// Stores `val` `ofs` bytes into the region. On a fault the buffer is
    /// left as it was.
    pub fn put<T: Pod>(&self, buf: &mut Vec<u8>, ofs: u32, val: T) -> (r: Result<(), Fault>)
        ensures
            final(buf)@ == self.spec_put(old(buf)@, ofs, val),
            self.covers(old(buf)@, ofs, T::spec_size()) ==> r == Ok::<(), Fault>(()),
            !self.covers(old(buf)@, ofs, T::spec_size()) ==> r == Err::<(), Fault>(
                Fault::MemoryFault { addr: ofs, len: T::spec_size() as u32 },
            ),
    {
        proof {
            use_type_invariant(self);
        }
        let n = T::size();
        if ofs as u64 + n as u64 > self.len as u64 || self.start as u64 + self.len as u64
            > buf.len() as u64 {
            return Err(Fault::MemoryFault { addr: ofs, len: n });
        }
        val.write(buf, (self.start + ofs) as usize);
        Ok(())
    }

    /// The bytes of the region, borrowed from the buffer.
    pub fn as_slice_todo<'a>(&self, buf: &'a [u8]) -> (r: Result<&'a [u8], Fault>)
        ensures
            match r {
                Ok(s) => self.fits(buf@.len()) && s@ == self.bytes(buf@),
                Err(f) => !self.fits(buf@.len()) && f == (Fault::MemoryFault {
                    addr: 0,
                    len: self.spec_len(),
                }),
            },
    {
        proof {
            use_type_invariant(self);
        }
        if self.start as u64 + self.len as u64 > buf.len() as u64 {
            return Err(Fault::MemoryFault { addr: 0, len: self.len });
        }
        Ok(slice_subrange(buf, self.start as usize, (self.start + self.len) as usize))
    }

    /// The bytes of the region, borrowed from the buffer for writing. What is
    /// written to them is written to the buffer; the rest of the buffer stays.
    pub fn as_mut_slice_todo<'a>(&self, buf: &'a mut [u8]) -> (r: Result<&'a mut [u8], Fault>)
        ensures
            match r {
                Ok(s) => {
                    &&& self.fits(old(buf)@.len())
                    &&& s@ == self.bytes(old(buf)@)
                    &&& final(buf)@ == old(buf)@.subrange(0, self.spec_start() as int) + final(s)@
                        + old(buf)@.subrange(
                        self.spec_start() + self.spec_len(),
                        old(buf)@.len() as int,
                    )
                },
                Err(f) => {
                    &&& !self.fits(old(buf)@.len())
                    &&& f == Fault::MemoryFault { addr: 0, len: self.spec_len() }
                    &&& final(buf)@ == old(buf)@
                },
            },
    {
        proof {
            use_type_invariant(self);
        }
        if self.start as u64 + self.len as u64 > buf.len() as u64 {
            return Err(Fault::MemoryFault { addr: 0, len: self.len });
        }
        let (_, rest) = buf.split_at_mut(self.start as usize);
        let (region, _) = rest.split_at_mut(self.len as usize);
        Ok(region)
    }

    /// The fault of a range that cannot be sliced out: an access at the start
    /// of the range, as long as the range, both cut to what 32 bits hold. A
    /// range that ends before it starts counts as empty.
    pub open spec fn slice_fault(self, from: Bound, to: Bound) -> Fault {
        let lo = Self::lower(from);
        let hi = self.upper(to);
        Fault::MemoryFault {
            addr: if lo > u32::MAX {
                u32::MAX
            } else {
                lo as u32
            },
            len: if hi < lo {
                0
            } else if hi - lo > u32::MAX {
                u32::MAX
            } else {
                (hi - lo) as u32
            },
        }
    }

    /// The part of the region between two bounds. The range may be empty,
    /// also at the very end of the region; it may not reach past the end or
    /// end before it starts.
    pub fn slice(&self, from: Bound, to: Bound) -> (r: Result<Mem, Fault>)
        ensures
            match r {
                Ok(m) => {
                    &&& Self::lower(from) <= self.upper(to) <= self.spec_len()
                    &&& m.spec_start() == self.spec_start() + Self::lower(from)
                    &&& m.spec_len() == self.upper(to) - Self::lower(from)
                },
                Err(f) => {
                    &&& !(Self::lower(from) <= self.upper(to) <= self.spec_len())
                    &&& f == self.slice_fault(from, to)
                },
            },
    {
        proof {
            use_type_invariant(self);
        }
        let lo: u64 = match from {
            Bound::Included(n) => n as u64,
            Bound::Excluded(n) => n as u64 + 1,
            Bound::Unbounded => 0,
        };
        let hi: u64 = match to {
            Bound::Included(n) => n as u64 + 1,
            Bound::Excluded(n) => n as u64,
            Bound::Unbounded => self.len as u64,
        };
        if lo > hi || hi > self.len as u64 {
            let addr: u32 = if lo > u32::MAX as u64 {
                u32::MAX
            } else {
                lo as u32
            };
            let len: u32 = if hi < lo {
                0
            } else if hi - lo > u32::MAX as u64 {
                u32::MAX
            } else {
                (hi - lo) as u32
            };
            return Err(Fault::MemoryFault { addr, len });
        }
        Ok(Mem { start: self.start + lo as u32, len: (hi - lo) as u32 })
    }

    /// The `len` bytes of the region that begin at `ofs`.
    pub fn sub(&self, ofs: u32, len: u32) -> (r: Result<Mem, Fault>)
        ensures
            match r {
                Ok(m) => {
                    &&& ofs + len <= self.spec_len()
                    &&& m.spec_start() == self.spec_start() + ofs
                    &&& m.spec_len() == len
                },
                Err(f) => ofs + len > self.spec_len() && f == (Fault::MemoryFault {
                    addr: ofs,
                    len,
                }),
            },
    {
        proof {
            use_type_invariant(self);
        }
        if ofs as u64 + len as u64 > self.len as u64 {
            return Err(Fault::MemoryFault { addr: ofs, len });
        }
        Ok(Mem { start: self.start + ofs, len })
    }

    /// The region that holds one `T` at `addr`: a handle, not a copy.
    pub fn view<T: Pod>(&self, addr: u32) -> (r: Result<Mem, Fault>)
        ensures
            match r {
                Ok(m) => {
                    &&& addr + T::spec_size() <= self.spec_len()
                    &&& m.spec_start() == self.spec_start() + addr
                    &&& m.spec_len() == T::spec_size()
                },
                Err(f) => addr + T::spec_size() > self.spec_len() && f == (Fault::MemoryFault {
                    addr,
                    len: T::spec_size() as u32,
                }),
            },
    {
        self.sub(addr, T::size())
    }

    /// The region that holds one `T` at `addr`, asked for in order to write.
    /// A handle serves reads and writes alike: this is [`Mem::view`].
    pub fn view_mut<T: Pod>(&self, addr: u32) -> (r: Result<Mem, Fault>)
        ensures
            match r {
                Ok(m) => {
                    &&& addr + T::spec_size() <= self.spec_len()
                    &&& m.spec_start() == self.spec_start() + addr
                    &&& m.spec_len() == T::spec_size()
                },
                Err(f) => addr + T::spec_size() > self.spec_len() && f == (Fault::MemoryFault {
                    addr,
                    len: T::spec_size() as u32,
                }),
            },
    {
        self.view::<T>(addr)
    }

    /// The region that holds `count` consecutive `T`s from `ofs` on.
    pub fn view_n<T: Pod>(&self, ofs: u32, count: u32) -> (r: Result<Mem, Fault>)
        ensures
            match r {
                Ok(m) => {
                    &&& ofs + T::spec_size() * count <= self.spec_len()
                    &&& m.spec_start() == self.spec_start() + ofs
                    &&& m.spec_len() == T::spec_size() * count
                },
                Err(f) => {
                    &&& ofs + T::spec_size() * count > self.spec_len()
                    &&& f == Fault::MemoryFault {
                        addr: ofs,
                        len: if T::spec_size() * count <= u32::MAX {
                            (T::spec_size() * count) as u32
                        } else {
                            u32::MAX
                        },
                    }
                },
            },
    {
        let size = T::size();
        assert(size * count <= 0xFFFF_FFFF * 0xFFFF_FFFF) by (nonlinear_arith)
            requires
                size <= 0xFFFF_FFFF,
                count <= 0xFFFF_FFFF,
        ;
        let total: u64 = (size as u64) * (count as u64);
        if total > u32::MAX as u64 {
            return Err(Fault::MemoryFault { addr: ofs, len: u32::MAX });
        }
        self.sub(ofs, total as u32)
    }

    /// The C string at `ofs`: the bytes from there up to, and without, the
    /// first zero byte. `None` when the region holds no zero byte from `ofs`
    /// on, or lies outside the buffer.
    pub fn slicez(&self, buf: &[u8], ofs: u32) -> (r: Option<Mem>)
        ensures
            match r {
                Some(m) => {
                    &&& self.fits(buf@.len())
                    &&& first_nul(self.bytes(buf@), ofs as int, ofs + m.spec_len())
                    &&& m.spec_start() == self.spec_start() + ofs
                },
                None => !self.fits(buf@.len()) || forall|i: int|
                    ofs <= i < self.spec_len() ==> self.bytes(buf@)[i] != 0,
            },
    {
        proof {
            use_type_invariant(self);
        }
        if self.start as u64 + self.len as u64 > buf.len() as u64 {
            return None;
        }
        let mut i: u32 = ofs;
        while i < self.len
            invariant
                ofs <= i,
                self.start + self.len <= buf@.len(),
                self.start + self.len <= u32::MAX,
                forall|j: int| ofs <= j < i ==> self.bytes(buf@)[j] != 0,
            decreases self.len - i,
        {
            if buf[(self.start + i) as usize] == 0 {
                return Some(Mem { start: self.start + ofs, len: i - ofs });
            }
            i = i + 1;
        }
        None
    }

    /// The text of the region, when its bytes are UTF-8.
    pub fn to_ascii<'a>(&self, buf: &'a [u8]) -> (r: Option<&'a str>)
        ensures
            match r {
                Some(s) => self.fits(buf@.len()) && s.spec_bytes() == self.bytes(buf@),
                None => !self.fits(buf@.len()) || !valid_utf8(self.bytes(buf@)),
            },
    {
        match self.as_slice_todo(buf) {
            Ok(s) => str_from_utf8(s),
            Err(_) => None,
        }
    }
}

/// `std::str::from_utf8`, which accepts exactly the byte strings that are
/// well-formed UTF-8 and returns them unchanged as text.
#[verifier::external_body]
fn str_from_utf8<'a>(bytes: &'a [u8]) -> (r: Option<&'a str>)
    ensures
        r is Some <==> valid_utf8(bytes@),
        r matches Some(s) ==> s.spec_bytes() == bytes@,
{
    std::str::from_utf8(bytes).ok()
}

/// The region over a whole buffer begins at its first byte, ends with it or
/// where 32-bit addresses end, and lies inside it.
pub proof fn lemma_whole(size: nat)
    ensures
        Mem::whole(size).spec_start() == 0,
        Mem::whole(size).spec_len() == if size <= u32::MAX {
            size
        } else {
            u32::MAX as nat
        },
        Mem::whole(size).fits(size),
{
}

/// A value stored through one window is what a load through any window
/// returns, when both name the same bytes of the buffer.
pub proof fn lemma_put_then_get<T: Pod>(
    buf: Seq<u8>,
    writer: Mem,
    at: u32,
    reader: Mem,
    from: u32,
    val: T,
)
    requires
        writer.covers(buf, at, T::spec_size()),
        reader.covers(buf, from, T::spec_size()),
        writer.spec_start() + at == reader.spec_start() + from,
    ensures
        reader.spec_get::<T>(writer.spec_put(buf, at, val), from) == Ok::<T, Fault>(val),
{
    T::lemma_layout(val, val.encoded());
    let after = writer.spec_put(buf, at, val);
    let a = writer.spec_start() + at;
    assert(after.subrange(a, a + T::spec_size()) =~= val.encoded());
}

/// A store changes no byte outside the bytes written: a load that does not
/// overlap it returns what it returned before.
pub proof fn lemma_put_elsewhere<T: Pod, U: Pod>(
    buf: Seq<u8>,
    writer: Mem,
    at: u32,
    reader: Mem,
    from: u32,
    val: T,
)
    requires
        reader.spec_start() + from + U::spec_size() <= writer.spec_start() + at
            || writer.spec_start() + at + T::spec_size() <= reader.spec_start() + from,
    ensures
        reader.spec_get::<U>(writer.spec_put(buf, at, val), from) == reader.spec_get::<U>(
            buf,
            from,
        ),
{
    T::lemma_layout(val, val.encoded());
    let after = writer.spec_put(buf, at, val);
    let a = reader.spec_start() + from;
    assert(after.len() == buf.len());
    if reader.covers(buf, from, U::spec_size()) {
        assert(after.subrange(a, a + U::spec_size()) =~= buf.subrange(a, a + U::spec_size()));
    }
}

} // verus!
