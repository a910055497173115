//! UTF-16 encoding of character sequences.
//!
//! Conversion from UTF-8 to the wide form is total and lossless: it never
//! consults a code-page table, so this module computes it directly and
//! proves the result against the mathematical encoding [`utf16_seq`].

use vstd::prelude::*;
use vstd::string::StrSliceExecFns;

verus! {

/// The UTF-16 code units encoding one character: a single unit for scalar
/// values below 0x10000, a surrogate pair for the supplementary planes.
pub open spec fn utf16_units(c: char) -> Seq<u16> {
    if (c as u32) < 0x10000 {
        seq![(c as u32) as u16]
    } else {
        seq![
            (0xd800 + ((c as u32 - 0x10000) / 0x400)) as u16,
            (0xdc00 + ((c as u32 - 0x10000) % 0x400)) as u16,
        ]
    }
}

/// The UTF-16 encoding of a character sequence.
pub open spec fn utf16_seq(s: Seq<char>) -> Seq<u16>
    decreases s.len(),
{
    if s.len() == 0 {
        seq![]
    } else {
        utf16_units(s[0]) + utf16_seq(s.drop_first())
    }
}

/// Appending a character extends the encoding by that character's units.
pub proof fn lemma_utf16_seq_push(s: Seq<char>, c: char)
    ensures
        utf16_seq(s.push(c)) == utf16_seq(s) + utf16_units(c),
    decreases s.len(),
{
    if s.len() == 0 {
        assert(s.push(c)[0] == c);
        assert(s.push(c).drop_first() =~= Seq::<char>::empty());
        assert(utf16_seq(s.push(c)) == utf16_units(c) + utf16_seq(Seq::<char>::empty()));
        assert(utf16_seq(s.push(c)) =~= utf16_seq(s) + utf16_units(c));
    } else {
        assert(s.push(c).drop_first() =~= s.drop_first().push(c));
        lemma_utf16_seq_push(s.drop_first(), c);
        assert(utf16_seq(s.push(c)) =~= utf16_seq(s) + utf16_units(c));
    }
}

/// Encode the characters of a string as UTF-16 code units.
pub fn encode_wide_units(s: &str) -> (r: Vec<u16>)
    ensures
        r@ == utf16_seq(s@),
{
    let n = s.unicode_len();
    let mut out: Vec<u16> = Vec::new();
    let mut i: usize = 0;
    while i < n
        invariant
            n == s@.len(),
            0 <= i <= n,
            out@ == utf16_seq(s@.take(i as int)),
        decreases n - i,
    {
        let c = s.get_char(i);
        proof {
            vstd::utf8::char_is_scalar(c);
            assert(s@.take(i as int).push(c) =~= s@.take(i as int + 1));
            lemma_utf16_seq_push(s@.take(i as int), c);
        }
        let v = c as u32;
        if v < 0x10000 {
            out.push(v as u16);
        } else {
            let off = v - 0x10000;
            out.push((0xd800 + off / 0x400) as u16);
            out.push((0xdc00 + off % 0x400) as u16);
        }
        i = i + 1;
    }
    proof {
        assert(s@.take(n as int) =~= s@);
    }
    out
}

/// Encode a string as UTF-16 and append one terminating NUL unit.
pub fn to_utf16(s: &str) -> (r: Vec<u16>)
    ensures
        r@ == utf16_seq(s@).push(0u16),
{
    let mut v = encode_wide_units(s);
    v.push(0);
    v
}

/// Round trip on ASCII: the UTF-16 encoding of an ASCII string, with each
/// unit read back as one byte - which is what any ASCII-superset code page
/// does to characters below 0x80 - is exactly the string's UTF-8 byte
/// sequence, and decoding those bytes recovers the string unchanged.
pub proof fn lemma_ascii_round_trip(s: Seq<char>)
    requires
        vstd::utf8::is_ascii_chars(s),
    ensures
        utf16_seq(s).map_values(|u: u16| u as u8) == vstd::utf8::encode_utf8(s),
        vstd::utf8::decode_utf8(utf16_seq(s).map_values(|u: u16| u as u8)) == s,
{
    lemma_utf16_ascii_identity(s);
    vstd::utf8::is_ascii_chars_encode_utf8(s);
    assert(utf16_seq(s).map_values(|u: u16| u as u8) =~= vstd::utf8::encode_utf8(s));
    vstd::utf8::encode_utf8_decode_utf8(s);
}

/// On an ASCII character sequence the UTF-16 encoding is unit-for-unit:
/// one code unit per character, each equal to the character's code.  This
/// is the engine's side of the ASCII round trip: converting such a string
/// to wide form keeps every code point in place, so any decoding that maps
/// each unit back to its code recovers the original string.
pub proof fn lemma_utf16_ascii_identity(s: Seq<char>)
    requires
        vstd::utf8::is_ascii_chars(s),
    ensures
        utf16_seq(s).len() == s.len(),
        forall|i: int|
            0 <= i < s.len() ==> utf16_seq(s)[i] == (s[i] as u32) as u16 && (s[i] as u32) < 0x80,
    decreases s.len(),
{
    vstd::utf8::is_ascii_chars_nat_bound(s);
    if s.len() == 0 {
    } else {
        assert(vstd::utf8::is_ascii_chars(s.drop_first())) by {
            assert(forall|i: int|
                0 <= i < s.drop_first().len() ==> #[trigger] s.drop_first()[i] == s[i + 1]);
        }
        lemma_utf16_ascii_identity(s.drop_first());
        assert(forall|i: int|
            0 <= i < s.len() ==> utf16_seq(s)[i] == (s[i] as u32) as u16 && (s[i] as u32)
                < 0x80) by {
            assert(utf16_units(s[0]).len() == 1);
            assert(forall|i: int|
                1 <= i < s.len() ==> #[trigger] utf16_seq(s)[i] == utf16_seq(s.drop_first())[i
                    - 1]);
            assert(forall|i: int|
                1 <= i < s.len() ==> #[trigger] s[i] == s.drop_first()[i - 1]);
        }
    }
}

} // verus!
