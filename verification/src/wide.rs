//! Null-terminated UTF-16 ("wide") strings, as Windows APIs take them.

use vstd::prelude::*;
use vstd::string::*;

verus! {

/// The UTF-16 code units of one character: the scalar itself below
/// `0x10000`, else a high and a low surrogate.
pub open spec fn utf16_units(c: char) -> Seq<u16> {
    let v = c as u32;
    if v < 0x10000 {
        seq![v as u16]
    } else {
        let w = (v - 0x10000) as u32;
        seq![(0xD800 + w / 0x400) as u16, (0xDC00 + w % 0x400) as u16]
    }
}

/// The UTF-16 encoding of a sequence of characters.
pub open spec fn encode_utf16(s: Seq<char>) -> Seq<u16>
    decreases s.len(),
{
    if s.len() == 0 {
        seq![]
    } else {
        encode_utf16(s.drop_last()) + utf16_units(s.last())
    }
}

/// The UTF-16 encoding of `s` followed by a terminating zero unit.
pub open spec fn wide_nul(s: Seq<char>) -> Seq<u16> {
    encode_utf16(s).push(0u16)
}

/// Appends the UTF-16 code units of `c` to `out`.
fn push_utf16(out: &mut Vec<u16>, c: char)
    ensures
        final(out)@ == old(out)@ + utf16_units(c),
{
    let v: u32 = c as u32;
    if v < 0x10000 {
        out.push(v as u16);
    } else {
        let w: u32 = v - 0x10000;
        out.push((0xD800 + w / 0x400) as u16);
        out.push((0xDC00 + w % 0x400) as u16);
    }
}

/// The null-terminated UTF-16 form of `s`.
pub fn to_wide(s: &str) -> (res: Vec<u16>)
    ensures
        res@ == wide_nul(s@),
{
    let n: usize = s.unicode_len();
    let mut out: Vec<u16> = Vec::new();
    let mut i: usize = 0;
    while i < n
        invariant
            n == s@.len(),
            i <= n,
            out@ == encode_utf16(s@.take(i as int)),
        decreases n - i,
    {
        let c: char = s.get_char(i);
        push_utf16(&mut out, c);
        assert(s@.take(i + 1).drop_last() =~= s@.take(i as int));
        i = i + 1;
    }
    assert(s@.take(n as int) =~= s@);
    out.push(0u16);
    out
}

} // verus!

verus! {

/// Encoding a concatenation is concatenating the encodings.
pub proof fn lemma_encode_utf16_concat(a: Seq<char>, b: Seq<char>)
    ensures
        encode_utf16(a + b) == encode_utf16(a) + encode_utf16(b),
    decreases b.len(),
{
    if b.len() == 0 {
        assert(a + b =~= a);
        assert(encode_utf16(a) + encode_utf16(b) =~= encode_utf16(a));
    } else {
        assert((a + b).drop_last() =~= a + b.drop_last());
        assert((a + b).last() == b.last());
        lemma_encode_utf16_concat(a, b.drop_last());
        assert(encode_utf16(a) + encode_utf16(b.drop_last()) + utf16_units(b.last())
            =~= encode_utf16(a) + (encode_utf16(b.drop_last()) + utf16_units(b.last())));
    }
}

/// A string of characters below U+10000 is encoded one code unit per
/// character, each unit equal to the character's scalar value.
pub proof fn lemma_encode_utf16_bmp(s: Seq<char>)
    requires
        forall|i: int| 0 <= i < s.len() ==> (#[trigger] s[i] as u32) < 0x10000,
    ensures
        encode_utf16(s).len() == s.len(),
        forall|i: int| 0 <= i < s.len() ==> #[trigger] encode_utf16(s)[i] as u32 == s[i] as u32,
    decreases s.len(),
{
    if s.len() > 0 {
        let t = s.drop_last();
        assert forall|i: int| 0 <= i < t.len() implies (#[trigger] t[i] as u32) < 0x10000 by {
            assert(t[i] == s[i]);
        }
        lemma_encode_utf16_bmp(t);
        assert((s.last() as u32) < 0x10000);
        assert forall|i: int| 0 <= i < s.len() implies #[trigger] encode_utf16(s)[i] as u32
            == s[i] as u32 by {
            if i < t.len() {
                assert(encode_utf16(s)[i] == encode_utf16(t)[i]);
                assert(t[i] == s[i]);
            }
        }
    }
}

/// A character from U+10000 up is encoded as a high surrogate followed by a
/// low surrogate, from which the character's scalar value is recovered.
pub proof fn lemma_utf16_supplementary(c: char)
    requires
        (c as u32) >= 0x10000,
    ensures
        utf16_units(c).len() == 2,
        0xD800 <= utf16_units(c)[0] < 0xDC00,
        0xDC00 <= utf16_units(c)[1] < 0xE000,
        0x10000 + (utf16_units(c)[0] - 0xD800) * 0x400 + (utf16_units(c)[1] - 0xDC00) == c as u32,
{
    vstd::utf8::char_is_scalar(c);
    let v = c as u32;
    let w = (v - 0x10000) as u32;
    assert(w < 0x100000);
    assert(w == (w / 0x400) * 0x400 + w % 0x400) by (nonlinear_arith)
        requires
            w < 0x100000,
    ;
    assert(w / 0x400 < 0x400) by (nonlinear_arith)
        requires
            w < 0x100000,
    ;
}

/// The wide form of a string is its UTF-16 encoding and then a single zero
/// unit.
pub proof fn lemma_wide_nul_shape(s: Seq<char>)
    ensures
        wide_nul(s).len() == encode_utf16(s).len() + 1,
        wide_nul(s).last() == 0,
        wide_nul(s).drop_last() == encode_utf16(s),
{
    assert(wide_nul(s).drop_last() =~= encode_utf16(s));
}

} // verus!
