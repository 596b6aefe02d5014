//! The arithmetic flags.
use vstd::prelude::*;

verus! {

/// One bit of the flags word.
#[derive(Clone, Copy, Debug, PartialEq, Eq, Structural)]
pub enum Flag {
    /// Carry: bit 0.
    CF,
    /// Parity: bit 2.
    PF,
    /// Auxiliary carry: bit 4.
    AF,
    /// Zero: bit 6.
    ZF,
    /// Sign: bit 7.
    SF,
    /// Direction: bit 10.
    DF,
    /// Overflow: bit 11.
    OF,
}

/// The flags word, one field per flag that the interpreter keeps. Every
/// other bit of the word reads as zero.
#[derive(Clone, Copy, Debug, PartialEq, Eq, Structural)]
pub struct Flags {
    pub cf: bool,
    pub pf: bool,
    pub af: bool,
    pub zf: bool,
    pub sf: bool,
    pub df: bool,
    pub of: bool,
}

/// The value of a flag's bit in the flags word.
pub open spec fn bit_value(flag: Flag) -> u32 {
    match flag {
        Flag::CF => 0x001,
        Flag::PF => 0x004,
        Flag::AF => 0x010,
        Flag::ZF => 0x040,
        Flag::SF => 0x080,
        Flag::DF => 0x400,
        Flag::OF => 0x800,
    }
}

/// What a flag adds to the flags word: the value of its bit when it is set.
pub open spec fn worth(on: bool, flag: Flag) -> int {
    if on {
        bit_value(flag) as int
    } else {
        0
    }
}

impl Flags {
    /// Whether `flag` is set.
    pub open spec fn spec_contains(self, flag: Flag) -> bool {
        match flag {
            Flag::CF => self.cf,
            Flag::PF => self.pf,
            Flag::AF => self.af,
            Flag::ZF => self.zf,
            Flag::SF => self.sf,
            Flag::DF => self.df,
            Flag::OF => self.of,
        }
    }

    /// These flags with `flag` set to `on` and the others kept.
    pub open spec fn with(self, flag: Flag, on: bool) -> Flags {
        match flag {
            Flag::CF => Flags { cf: on, ..self },
            Flag::PF => Flags { pf: on, ..self },
            Flag::AF => Flags { af: on, ..self },
            Flag::ZF => Flags { zf: on, ..self },
            Flag::SF => Flags { sf: on, ..self },
            Flag::DF => Flags { df: on, ..self },
            Flag::OF => Flags { of: on, ..self },
        }
    }

    /// The flags word: the sum of the bit values of the flags that are set.
    pub open spec fn spec_bits(self) -> u32 {
        (worth(self.cf, Flag::CF) + worth(self.pf, Flag::PF) + worth(self.af, Flag::AF) + worth(
            self.zf,
            Flag::ZF,
        ) + worth(self.sf, Flag::SF) + worth(self.df, Flag::DF) + worth(self.of, Flag::OF)) as u32
    }

    /// The flags that a flags word holds. Bits that carry no flag are
    /// dropped.
    pub open spec fn spec_from_bits(bits: u32) -> Flags {
        Flags {
            cf: bits % 2 == 1,
            pf: bits / 0x004 % 2 == 1,
            af: bits / 0x010 % 2 == 1,
            zf: bits / 0x040 % 2 == 1,
            sf: bits / 0x080 % 2 == 1,
            df: bits / 0x400 % 2 == 1,
            of: bits / 0x800 % 2 == 1,
        }
    }

    /// No flag set.
    pub open spec fn spec_empty() -> Flags {
        Flags { cf: false, pf: false, af: false, zf: false, sf: false, df: false, of: false }
    }

    /// No flag set.
    pub fn empty() -> (f: Flags)
        ensures
            f == Self::spec_empty(),
    {
        Flags { cf: false, pf: false, af: false, zf: false, sf: false, df: false, of: false }
    }

    pub fn contains(&self, flag: Flag) -> (on: bool)
        ensures
            on == self.spec_contains(flag),
    {
        match flag {
            Flag::CF => self.cf,
            Flag::PF => self.pf,
            Flag::AF => self.af,
            Flag::ZF => self.zf,
            Flag::SF => self.sf,
            Flag::DF => self.df,
            Flag::OF => self.of,
        }
    }

    /// Sets or clears one flag.
    pub fn set(&mut self, flag: Flag, on: bool)
        ensures
            *final(self) == old(self).with(flag, on),
    {
        match flag {
            Flag::CF => {
                self.cf = on;
            },
            Flag::PF => {
                self.pf = on;
            },
            Flag::AF => {
                self.af = on;
            },
            Flag::ZF => {
                self.zf = on;
            },
            Flag::SF => {
                self.sf = on;
            },
            Flag::DF => {
                self.df = on;
            },
            Flag::OF => {
                self.of = on;
            },
        }
    }

    pub fn insert(&mut self, flag: Flag)
        ensures
            *final(self) == old(self).with(flag, true),
    {
        self.set(flag, true);
    }

    pub fn remove(&mut self, flag: Flag)
        ensures
            *final(self) == old(self).with(flag, false),
    {
        self.set(flag, false);
    }

    pub fn bits(&self) -> (bits: u32)
        ensures
            bits == self.spec_bits(),
    {
        let mut bits: u32 = 0;
        if self.cf {
            bits = bits + 0x001;
        }
        if self.pf {
            bits = bits + 0x004;
        }
        if self.af {
            bits = bits + 0x010;
        }
        if self.zf {
            bits = bits + 0x040;
        }
        if self.sf {
            bits = bits + 0x080;
        }
        if self.df {
            bits = bits + 0x400;
        }
        if self.of {
            bits = bits + 0x800;
        }
        bits
    }

    pub fn from_bits_truncate(bits: u32) -> (f: Flags)
        ensures
            f == Self::spec_from_bits(bits),
    {
        Flags {
            cf: bits % 2 == 1,
            pf: bits / 0x004 % 2 == 1,
            af: bits / 0x010 % 2 == 1,
            zf: bits / 0x040 % 2 == 1,
            sf: bits / 0x080 % 2 == 1,
            df: bits / 0x400 % 2 == 1,
            of: bits / 0x800 % 2 == 1,
        }
    }
}

/// Reading a flag after setting it gives what was set, and setting one flag
/// changes no other.
pub proof fn lemma_set_then_contains(f: Flags, flag: Flag, on: bool, other: Flag)
    ensures
        f.with(flag, on).spec_contains(flag) == on,
        other != flag ==> f.with(flag, on).spec_contains(other) == f.spec_contains(other),
{
}

/// The flags word holds each flag at its own bit, and the flags come back
/// from it unchanged.
pub proof fn lemma_bits_round_trip(f: Flags, flag: Flag)
    ensures
        Flags::spec_from_bits(f.spec_bits()) == f,
        f.spec_contains(flag) <==> f.spec_bits() / bit_value(flag) % 2 == 1,
        f.spec_bits() <= 0xCD5,
{
}

} // verus!
