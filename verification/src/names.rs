//! Kernel-side device names: NUL-terminated UTF-16 encoding into fixed buffers
//! and the counted-string descriptor built over such a buffer.

use vstd::prelude::*;
use crate::utf16::{char_to_utf16, lemma_utf16_encode_len, lemma_utf16_encode_prefix, lemma_utf16_encode_take_step, utf16_encode, utf16_of_char};

verus! {

broadcast use vstd::string::axiom_spec_iter;

/// What `encode_utf16z` leaves in `out` (of length `out_len` before the call,
/// holding `old_out`) for a string whose code units are `units`: on success the
/// units, a NUL, and the untouched tail; when the buffer is too small, as many
/// units as fit before the last slot, and the untouched last slot.
pub open spec fn encoded_buffer(units: Seq<u16>, old_out: Seq<u16>) -> Seq<u16> {
    if units.len() < old_out.len() {
        units + seq![0u16] + old_out.skip(units.len() + 1int)
    } else if old_out.len() == 0 {
        old_out
    } else {
        units.take(old_out.len() - 1) + old_out.skip(old_out.len() - 1)
    }
}

/// Encodes `input` as UTF-16 followed by a NUL into `out`. Returns the number of
/// code units written including the NUL, or `None` when `out` has no room for the
/// units and the NUL (then the units that fit before the last slot are written).
pub fn encode_utf16z(input: &str, out: &mut [u16]) -> (used: Option<usize>)
    requires
        old(out)@.len() > 0 || input@.len() > 0,
    ensures
        final(out)@.len() == old(out)@.len(),
        final(out)@ == encoded_buffer(utf16_encode(input@), old(out)@),
        used is Some <==> utf16_encode(input@).len() < old(out)@.len(),
        used is Some ==> used->0 == utf16_encode(input@).len() + 1,
{
    let ghost chars = input@;
    let ghost old_out = out@;
    let mut idx: usize = 0;
    proof {
        lemma_utf16_encode_len(chars);
    }
    for c in it: input.chars()
        invariant
            it.seq() == chars,
            chars == input@,
            old_out == old(out)@,
            out@.len() == old_out.len(),
            idx as int == utf16_encode(chars.take(it.index() as int)).len(),
            idx == 0 || idx < out@.len(),
            out@ == utf16_encode(chars.take(it.index() as int)) + old_out.skip(idx as int),
    {
        let ghost i = it.index() as int;
        let ghost done = utf16_encode(chars.take(i));
        proof {
            lemma_utf16_encode_take_step(chars, i);
            lemma_utf16_encode_prefix(chars, i + 1);
        }
        let (first, second) = char_to_utf16(c);
        if idx + 1 >= out.len() {
            proof {
                lemma_none_case(done, utf16_of_char(chars[i]), utf16_encode(chars.take(i + 1)),
                    utf16_encode(chars.skip(i + 1)), utf16_encode(chars), old_out, idx as int);
            }
            return None;
        }
        out[idx] = first;
        idx = idx + 1;
        assert(out@ =~= done.push(first) + old_out.skip(idx as int));
        match second {
            None => {
                assert(done.push(first) =~= utf16_encode(chars.take(i + 1)));
            },
            Some(low) => {
                if idx + 1 >= out.len() {
                    proof {
                        assert(done.push(first) + seq![low] =~= utf16_encode(chars.take(i + 1)));
                        lemma_none_case(done.push(first), seq![low], utf16_encode(chars.take(i + 1)),
                            utf16_encode(chars.skip(i + 1)), utf16_encode(chars), old_out, idx as int);
                    }
                    return None;
                }
                out[idx] = low;
                idx = idx + 1;
                assert(done.push(first).push(low) =~= utf16_encode(chars.take(i + 1)));
                assert(out@ =~= utf16_encode(chars.take(i + 1)) + old_out.skip(idx as int));
            },
        }
    }
    assert(chars.take(chars.len() as int) =~= chars);
    out[idx] = 0;
    assert(out@ =~= encoded_buffer(utf16_encode(chars), old_out));
    Some(idx + 1)
}

/// When the buffer runs out while `written` units are in place and `pending` come
/// next, the buffer already holds what `encode_utf16z` promises for `None`.
proof fn lemma_none_case(
    written: Seq<u16>,
    pending: Seq<u16>,
    upto: Seq<u16>,
    rest: Seq<u16>,
    all: Seq<u16>,
    old_out: Seq<u16>,
    idx: int,
)
    requires
        written.len() == idx,
        pending.len() > 0,
        written + pending == upto,
        upto.len() <= all.len(),
        all == upto + rest,
        idx == 0 || idx < old_out.len(),
        idx + 1 >= old_out.len(),
    ensures
        all.len() >= old_out.len(),
        written + old_out.skip(idx) == encoded_buffer(all, old_out),
{
    if old_out.len() == 0 {
        assert(written + old_out.skip(idx) =~= old_out);
    } else {
        assert(all.take(old_out.len() - 1) =~= written);
    }
}

/// A counted UTF-16 string (`UNICODE_STRING`): the byte length of the text, the
/// byte length of the whole buffer, and the buffer's code units.
pub struct UnicodeString {
    pub length: u16,
    pub maximum_length: u16,
    pub buffer: Vec<u16>,
}

impl UnicodeString {
    /// The code units that the descriptor's `length` covers.
    pub open spec fn text(&self) -> Seq<u16> {
        self.buffer@.take(self.length as int / 2)
    }
}

/// Describes the first `used_with_nul` code units of `buffer` (text plus NUL) as a
/// counted string: `Length` counts the text bytes, `MaximumLength` the bytes with
/// the NUL, both truncated to 16 bits as the descriptor's fields are.
pub fn to_unicode_string(buffer: &[u16], used_with_nul: usize) -> (s: UnicodeString)
    requires
        used_with_nul >= 1,
        used_with_nul * 2 <= usize::MAX,
    ensures
        s.length as int == ((used_with_nul - 1) * 2) % 0x1_0000,
        s.maximum_length as int == (used_with_nul * 2) % 0x1_0000,
        s.buffer@ == buffer@,
{
    let text_bytes: usize = (used_with_nul - 1) * 2;
    let total_bytes: usize = used_with_nul * 2;
    assert((text_bytes as u16) as int == text_bytes % 0x1_0000) by (bit_vector);
    assert((total_bytes as u16) as int == total_bytes % 0x1_0000) by (bit_vector);
    UnicodeString {
        length: text_bytes as u16,
        maximum_length: total_bytes as u16,
        buffer: vstd::slice::slice_to_vec(buffer),
    }
}

/// A name encoded by `encode_utf16z` and described by `to_unicode_string` with the
/// count it returned denotes exactly the name's code units, and its buffer size
/// leaves room for the NUL, as long as the byte counts fit the 16-bit fields.
pub proof fn lemma_encoded_name_descriptor(input: Seq<char>, old_out: Seq<u16>, s: UnicodeString)
    requires
        utf16_encode(input).len() < old_out.len(),
        (utf16_encode(input).len() + 1) * 2 < 0x1_0000,
        s.buffer@ == encoded_buffer(utf16_encode(input), old_out),
        s.length as int == ((utf16_encode(input).len() + 1 - 1) * 2) % 0x1_0000,
        s.maximum_length as int == ((utf16_encode(input).len() + 1) * 2) % 0x1_0000,
    ensures
        s.text() == utf16_encode(input),
        s.maximum_length == s.length + 2,
        s.buffer@[s.length as int / 2] == 0u16,
{
    let units = utf16_encode(input);
    assert(s.length as int / 2 == units.len());
    assert(s.text() =~= units);
}

} // verus!
