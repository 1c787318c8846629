//! UTF-16 encoding of Unicode scalar values, as the mathematical model that the
//! kernel-side and user-side string conversions are proved against.

use vstd::prelude::*;

verus! {

/// The UTF-16 code units of one Unicode scalar value: the value itself below
/// `0x10000`, otherwise a high and a low surrogate.
pub open spec fn utf16_of_char(c: char) -> Seq<u16> {
    let v = c as u32;
    if v < 0x1_0000 {
        seq![v as u16]
    } else {
        let w = v - 0x1_0000;
        seq![(0xD800 + w / 0x400) as u16, (0xDC00 + w % 0x400) as u16]
    }
}

/// The UTF-16 code units of a string, char by char.
pub open spec fn utf16_encode(s: Seq<char>) -> Seq<u16>
    decreases s.len(),
{
    if s.len() == 0 {
        seq![]
    } else {
        utf16_encode(s.drop_last()) + utf16_of_char(s.last())
    }
}

/// Encoding one more char appends its code units.
pub proof fn lemma_utf16_encode_take_step(s: Seq<char>, i: int)
    requires
        0 <= i < s.len(),
    ensures
        utf16_encode(s.take(i + 1)) == utf16_encode(s.take(i)) + utf16_of_char(s[i]),
{
    assert(s.take(i + 1).drop_last() =~= s.take(i));
}

/// Encoding a concatenation is concatenating the encodings.
pub proof fn lemma_utf16_encode_append(a: Seq<char>, b: Seq<char>)
    ensures
        utf16_encode(a + b) == utf16_encode(a) + utf16_encode(b),
    decreases b.len(),
{
    if b.len() == 0 {
        assert(a + b =~= a);
        assert(utf16_encode(a) + utf16_encode(b) =~= utf16_encode(a));
    } else {
        lemma_utf16_encode_append(a, b.drop_last());
        assert((a + b).drop_last() =~= a + b.drop_last());
        assert(utf16_encode(a) + utf16_encode(b.drop_last()) + utf16_of_char(b.last())
            =~= utf16_encode(a) + (utf16_encode(b.drop_last()) + utf16_of_char(b.last())));
    }
}

/// The encoding of a prefix of a string is a prefix of the encoding of the string.
pub proof fn lemma_utf16_encode_prefix(s: Seq<char>, i: int)
    requires
        0 <= i <= s.len(),
    ensures
        utf16_encode(s.take(i)).len() <= utf16_encode(s).len(),
        utf16_encode(s) =~= utf16_encode(s.take(i)) + utf16_encode(s.skip(i)),
{
    assert(s =~= s.take(i) + s.skip(i));
    lemma_utf16_encode_append(s.take(i), s.skip(i));
}

/// Every char takes one or two code units, so a string encodes to at least as
/// many code units as it has chars.
pub proof fn lemma_utf16_encode_len(s: Seq<char>)
    ensures
        s.len() <= utf16_encode(s).len() <= 2 * s.len(),
    decreases s.len(),
{
    if s.len() > 0 {
        lemma_utf16_encode_len(s.drop_last());
    }
}

/// UTF-16 decoding, read from the front: a high surrogate (`0xD800..0xDC00`)
/// followed by a unit combines with it into one supplementary char; any other
/// unit is the char with that scalar value.
pub open spec fn utf16_decode(units: Seq<u16>) -> Seq<char>
    decreases units.len(),
{
    if units.len() == 0 {
        seq![]
    } else if 0xD800 <= units[0] < 0xDC00 && units.len() >= 2 {
        let c = 0x1_0000 + (units[0] - 0xD800) * 0x400 + (units[1] - 0xDC00);
        seq![c as char] + utf16_decode(units.skip(2))
    } else {
        seq![units[0] as u32 as char] + utf16_decode(units.skip(1))
    }
}

/// A char below `0x10000` is the single unit of its scalar value; above, a high
/// surrogate in `0xD800..0xDC00` and a low surrogate in `0xDC00..0xE000` that
/// together hold its value less `0x10000`, ten bits each.
pub proof fn lemma_utf16_of_char_units(c: char)
    ensures
        (c as u32) < 0x1_0000 ==> utf16_of_char(c).len() == 1 && utf16_of_char(c)[0] as u32
            == c as u32,
        (c as u32) >= 0x1_0000 ==> {
            let u = utf16_of_char(c);
            &&& u.len() == 2
            &&& 0xD800 <= u[0] < 0xDC00
            &&& 0xDC00 <= u[1] < 0xE000
            &&& (u[0] - 0xD800) * 0x400 + (u[1] - 0xDC00) + 0x1_0000 == c as u32
        },
{
}

/// Decoding the units of one char in front of other units gives the char in front
/// of the decoding of the others.
proof fn lemma_decode_char_prefix(c: char, rest: Seq<u16>)
    ensures
        utf16_decode(utf16_of_char(c) + rest) == seq![c] + utf16_decode(rest),
{
    let units = utf16_of_char(c) + rest;
    lemma_utf16_of_char_units(c);
    if (c as u32) < 0x1_0000 {
        assert(units.skip(1) =~= rest);
        assert(!(0xD800 <= c as u32 && c as u32 <= 0xDFFF));
        assert((units[0] as u32) as char == c);
    } else {
        assert(units.skip(2) =~= rest);
        assert((0x1_0000 + (units[0] - 0xD800) * 0x400 + (units[1] - 0xDC00)) as char == c);
    }
}

/// Decoding the UTF-16 encoding of a string gives the string back: the encoding
/// loses nothing and changes no char.
pub proof fn lemma_utf16_roundtrip(s: Seq<char>)
    ensures
        utf16_decode(utf16_encode(s)) == s,
    decreases s.len(),
{
    if s.len() > 0 {
        let head = seq![s[0]];
        let tail = s.skip(1);
        assert(s =~= head + tail);
        lemma_utf16_encode_append(head, tail);
        assert(head.drop_last() =~= Seq::<char>::empty());
        assert(utf16_encode(head.drop_last()) =~= Seq::<u16>::empty());
        assert(head.last() == s[0]);
        assert(utf16_encode(head) =~= utf16_of_char(s[0]));
        lemma_decode_char_prefix(s[0], utf16_encode(tail));
        lemma_utf16_roundtrip(tail);
    }
}

/// The code units of one char, computed.
pub fn char_to_utf16(c: char) -> (units: (u16, Option<u16>))
    ensures
        units.1 is None ==> utf16_of_char(c) == seq![units.0],
        units.1 is Some ==> utf16_of_char(c) == seq![units.0, units.1->0],
{
    let v = c as u32;
    if v < 0x1_0000 {
        (v as u16, None)
    } else {
        let w = v - 0x1_0000;
        ((0xD800 + w / 0x400) as u16, Some((0xDC00 + w % 0x400) as u16))
    }
}

} // verus!
