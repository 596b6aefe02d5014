//! The text of a report on an operation: its result in hexadecimal and the
//! names of the flags it left set.
use vstd::prelude::*;

verus! {

/// The character of a hexadecimal digit, in lower case: `0` is 0x30 and `a`
/// is 0x61.
pub open spec fn spec_hex(i: u8) -> Option<u8> {
    if i < 0xa {
        Some((i + 0x30) as u8)
    } else if i < 0x10 {
        Some((i - 0xa + 0x61) as u8)
    } else {
        None
    }
}

/// The hexadecimal digits of `x`, highest first; none for zero.
pub open spec fn spec_digits(x: u32) -> Seq<u8>
    decreases x,
{
    if x == 0 {
        Seq::empty()
    } else {
        spec_digits(x / 16).push(spec_hex((x % 16) as u8)->Some_0)
    }
}

/// `x` in hexadecimal, without leading zeros: `0` for zero.
pub open spec fn spec_fmt_int(x: u32) -> Seq<u8> {
    if x == 0 {
        seq![0x30u8]
    } else {
        spec_digits(x)
    }
}

/// The name `a`, `b` and a space if bit `bit` of `flags` is set, else
/// nothing.
pub open spec fn spec_flag_name(flags: u32, bit: u32, a: u8, b: u8) -> Seq<u8> {
    if flags / bit % 2 == 1 {
        seq![a, b, 0x20u8]
    } else {
        Seq::empty()
    }
}

/// The names of the flags that are set in the flags word `flags`, each
/// followed by a space: `CF`, `ZF`, `SF`, `DF` and `OF`, in this order, in
/// ASCII.
pub open spec fn spec_flag_names(flags: u32) -> Seq<u8> {
    spec_flag_name(flags, 0x001, 0x43, 0x46) + spec_flag_name(flags, 0x040, 0x5A, 0x46)
        + spec_flag_name(flags, 0x080, 0x53, 0x46) + spec_flag_name(flags, 0x400, 0x44, 0x46)
        + spec_flag_name(flags, 0x800, 0x4F, 0x46)
}

/// The names of the flags that are set in `flags`, separated by spaces.
pub open spec fn spec_fmt_flags(flags: u32) -> Seq<u8> {
    let names = spec_flag_names(flags);
    if names.len() > 0 {
        names.drop_last()
    } else {
        names
    }
}

/// The character of the hexadecimal digit `i`. There is none for sixteen
/// and above.
pub fn hex(i: u8) -> (r: Option<u8>)
    ensures
        r == spec_hex(i),
{
    if i < 0xa {
        Some(i + 0x30)
    } else if i < 0x10 {
        Some(i - 0xa + 0x61)
    } else {
        None
    }
}

fn digits(x: u32, out: &mut Vec<u8>)
    ensures
        final(out)@ == old(out)@ + spec_digits(x),
    decreases x,
{
    if x == 0 {
        assert(out@ =~= old(out)@ + spec_digits(x));
        return ;
    }
    digits(x / 16, out);
    if let Some(c) = hex((x % 16) as u8) {
        out.push(c);
    }
    assert(out@ =~= old(out)@ + spec_digits(x));
}

/// Formats `x` in hexadecimal, in lower case and without leading zeros.
pub fn fmt_int(x: u32) -> (text: Vec<u8>)
    ensures
        text@ == spec_fmt_int(x),
{
    let mut text = Vec::new();
    if x == 0 {
        text.push(0x30);
        assert(text@ =~= spec_fmt_int(x));
        return text;
    }
    digits(x, &mut text);
    assert(text@ =~= spec_fmt_int(x));
    text
}

fn flag_name(flags: u32, bit: u32, a: u8, b: u8, out: &mut Vec<u8>)
    requires
        bit > 0,
    ensures
        final(out)@ == old(out)@ + spec_flag_name(flags, bit, a, b),
{
    if flags / bit % 2 == 1 {
        out.push(a);
        out.push(b);
        out.push(0x20);
    }
    assert(out@ =~= old(out)@ + spec_flag_name(flags, bit, a, b));
}

/// Formats the flags word `flags` as the names of the flags that are set
/// in it.
pub fn fmt_flags(flags: u32) -> (text: Vec<u8>)
    ensures
        text@ == spec_fmt_flags(flags),
{
    let mut text = Vec::new();
    flag_name(flags, 0x001, 0x43, 0x46, &mut text);
    flag_name(flags, 0x040, 0x5A, 0x46, &mut text);
    flag_name(flags, 0x080, 0x53, 0x46, &mut text);
    flag_name(flags, 0x400, 0x44, 0x46, &mut text);
    flag_name(flags, 0x800, 0x4F, 0x46, &mut text);
    assert(text@ =~= spec_flag_names(flags));
    if text.len() > 0 {
        text.pop();
    }
    text
}

} // verus!
