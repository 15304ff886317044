//! UTF-16 encoding of text, as native wide-string interfaces expect it.

use vstd::prelude::*;

verus! {

/// The UTF-16 code units of one Unicode scalar value: the value itself inside
/// the Basic Multilingual Plane, a high and a low surrogate above it.
pub open spec fn utf16_units(c: char) -> Seq<u16> {
    let v = c as u32;
    if v < 0x1_0000 {
        seq![v as u16]
    } else {
        seq![
            (0xD800 + (v - 0x1_0000) / 0x400) as u16,
            (0xDC00 + (v - 0x1_0000) % 0x400) as u16,
        ]
    }
}

/// The UTF-16 encoding of a text: the units of its characters, in order.
pub open spec fn utf16(text: Seq<char>) -> Seq<u16>
    decreases text.len(),
{
    if text.len() == 0 {
        Seq::empty()
    } else {
        utf16(text.drop_last()) + utf16_units(text.last())
    }
}

/// A text as a NUL-terminated wide string.
pub open spec fn wide_z(text: Seq<char>) -> Seq<u16> {
    utf16(text).push(0u16)
}

/// Appends the UTF-16 code units of `c` to `out`.
pub fn push_utf16(out: &mut Vec<u16>, c: char)
    ensures
        final(out)@ == old(out)@ + utf16_units(c),
{
    let v: u32 = c as u32;
    if v < 0x1_0000 {
        out.push(v as u16);
    } else {
        let w: u32 = v - 0x1_0000;
        out.push((0xD800 + w / 0x400) as u16);
        out.push((0xDC00 + w % 0x400) as u16);
    }
}

/// Encodes `text` as UTF-16.
pub fn encode_utf16(text: &str) -> (units: Vec<u16>)
    ensures
        units@ == utf16(text@),
{
    let mut units: Vec<u16> = Vec::new();
    for c in it: text.chars()
        invariant
            it.seq() == text@,
            units@ == utf16(text@.take(it.index())),
    {
        proof {
            let n = it.index();
            assert(text@.take(n + 1).drop_last() =~= text@.take(n));
        }
        push_utf16(&mut units, c);
    }
    proof {
        assert(text@.take(text@.len() as int) =~= text@);
    }
    units
}

/// Encodes `text` as a NUL-terminated wide string.
pub fn to_wide_z(text: &str) -> (units: Vec<u16>)
    ensures
        units@ == wide_z(text@),
{
    let mut units = encode_utf16(text);
    units.push(0u16);
    units
}

} // verus!
