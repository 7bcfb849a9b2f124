//! UTF-16 text, as sequences of 16-bit units and as little-endian bytes.
use vstd::prelude::*;

use crate::bytes;

verus! {

/// `char::from_u32` accepts the scalar values: every number up to 0x10FFFF but
/// the surrogates.
pub assume_specification[ char::from_u32 ](i: u32) -> (c: Option<char>)
    ensures
        c is Some <==> (i < 0xD800 || 0xE000 <= i <= 0x10FFFF),
        c is Some ==> c->0 as u32 == i,
;

/// The first unit of a surrogate pair.
pub open spec fn is_high(u: u16) -> bool {
    0xD800 <= u < 0xDC00
}

/// The second unit of a surrogate pair.
pub open spec fn is_low(u: u16) -> bool {
    0xDC00 <= u < 0xE000
}

/// The character that a surrogate pair stands for.
pub open spec fn pair_char(high: u16, low: u16) -> char {
    (0x10000 + (high - 0xD800) * 0x400 + (low - 0xDC00)) as char
}

/// The units of one character: one, or a surrogate pair above 0xFFFF.
pub open spec fn char_units(c: char) -> Seq<u16> {
    if c as u32 <= 0xFFFF {
        seq![c as u16]
    } else {
        seq![
            (0xD800 + (c as u32 - 0x10000) / 0x400) as u16,
            (0xDC00 + (c as u32 - 0x10000) % 0x400) as u16,
        ]
    }
}

/// The units of a text.
pub open spec fn encode_utf16(s: Seq<char>) -> Seq<u16>
    decreases s.len(),
{
    if s.len() == 0 {
        Seq::empty()
    } else {
        char_units(s[0]) + encode_utf16(s.drop_first())
    }
}

/// Every surrogate stands in a pair.
pub open spec fn paired(u: Seq<u16>) -> bool
    decreases u.len(),
{
    if u.len() == 0 {
        true
    } else if !is_high(u[0]) && !is_low(u[0]) {
        paired(u.drop_first())
    } else {
        is_high(u[0]) && u.len() >= 2 && is_low(u[1]) && paired(u.skip(2))
    }
}

/// The text of units, with U+FFFD for each surrogate that stands in no pair.
pub open spec fn decode_utf16(u: Seq<u16>) -> Seq<char>
    decreases u.len(),
{
    if u.len() == 0 {
        Seq::empty()
    } else if !is_high(u[0]) && !is_low(u[0]) {
        seq![u[0] as char] + decode_utf16(u.drop_first())
    } else if is_high(u[0]) && u.len() >= 2 && is_low(u[1]) {
        seq![pair_char(u[0], u[1])] + decode_utf16(u.skip(2))
    } else {
        seq!['\u{FFFD}'] + decode_utf16(u.drop_first())
    }
}

/// The text of units taken one by one, surrogates left out.
pub open spec fn unit_chars(u: Seq<u16>) -> Seq<char>
    decreases u.len(),
{
    if u.len() == 0 {
        Seq::empty()
    } else if is_high(u[0]) || is_low(u[0]) {
        unit_chars(u.drop_first())
    } else {
        seq![u[0] as char] + unit_chars(u.drop_first())
    }
}

/// Units as bytes, the lower byte of each first.
pub open spec fn unit_bytes(u: Seq<u16>) -> Seq<u8> {
    Seq::new(
        2 * u.len(),
        |i: int|
            if i % 2 == 0 {
                (u[i / 2] % 256) as u8
            } else {
                (u[i / 2] / 256) as u8
            },
    )
}

/// The units in bytes; an odd byte at the end is left out.
pub open spec fn byte_units(b: Seq<u8>) -> Seq<u16> {
    Seq::new(b.len() / 2, |i: int| bytes::le16_at(b, 2 * i))
}

/// Text without supplementary characters: one unit stands for each character.
pub open spec fn single_units(s: Seq<char>) -> bool {
    forall|i: int| 0 <= i < s.len() ==> #[trigger] s[i] as u32 <= 0xFFFF
}

/// Text without the character U+0000.
pub open spec fn no_nul(s: Seq<char>) -> bool {
    forall|i: int| 0 <= i < s.len() ==> #[trigger] s[i] != '\0'
}

/// A character is a scalar value, and its number stands for it.
pub proof fn lemma_char_range(c: char)
    ensures
        c as int == c as u32,
        c as u32 <= 0xD7FF || 0xE000 <= c as u32 <= 0x10FFFF,
        c as u32 <= 0xFFFF ==> c as u16 == c as u32,
        c as u32 as char == c,
{
}

/// A text is read back from its own units.
pub proof fn law_utf16_round_trip(s: Seq<char>)
    ensures
        decode_utf16(encode_utf16(s)) == s,
        paired(encode_utf16(s)),
    decreases s.len(),
{
    if s.len() > 0 {
        let c = s[0];
        lemma_char_range(c);
        let rest = encode_utf16(s.drop_first());
        let u = encode_utf16(s);
        law_utf16_round_trip(s.drop_first());
        assert(u == char_units(c) + rest);
        if c as u32 <= 0xFFFF {
            assert(u.drop_first() == rest);
            assert(u[0] as char == c);
        } else {
            assert(u.skip(2) == rest);
            assert(u[0] == char_units(c)[0]);
            assert(u[1] == char_units(c)[1]);
            assert(pair_char(u[0], u[1]) == c);
        }
        assert(s == seq![c] + s.drop_first());
    }
}

/// Units in which every surrogate is paired are the units of their text.
pub proof fn law_utf16_units_round_trip(u: Seq<u16>)
    requires
        paired(u),
    ensures
        encode_utf16(decode_utf16(u)) == u,
    decreases u.len(),
{
    if u.len() > 0 {
        let s = decode_utf16(u);
        if !is_high(u[0]) && !is_low(u[0]) {
            law_utf16_units_round_trip(u.drop_first());
            assert(s.drop_first() == decode_utf16(u.drop_first()));
            assert(s[0] == u[0] as char);
            lemma_char_range(s[0]);
            assert(u == char_units(s[0]) + u.drop_first());
        } else {
            law_utf16_units_round_trip(u.skip(2));
            assert(s.drop_first() == decode_utf16(u.skip(2)));
            let c = s[0];
            assert(c == pair_char(u[0], u[1]));
            lemma_char_range(c);
            assert(c as u32 == 0x10000 + (u[0] - 0xD800) * 0x400 + (u[1] - 0xDC00));
            assert(char_units(c) == seq![u[0], u[1]]);
            assert(u == char_units(c) + u.skip(2));
        }
    }
}

/// Units are read back from their own bytes, whatever follows them.
pub proof fn law_unit_bytes_round_trip(u: Seq<u16>, after: Seq<u8>)
    ensures
        byte_units(unit_bytes(u)) == u,
        byte_units(unit_bytes(u) + after).take(u.len() as int) == u,
{
    let b = unit_bytes(u) + after;
    assert forall|i: int| 0 <= i < u.len() implies #[trigger] bytes::le16_at(b, 2 * i) == u[i] && bytes::le16_at(
        unit_bytes(u),
        2 * i,
    ) == u[i] by {
        assert(b[2 * i] == unit_bytes(u)[2 * i]);
        assert(b[2 * i + 1] == unit_bytes(u)[2 * i + 1]);
        assert((2 * i) / 2 == i && (2 * i) % 2 == 0);
        assert((2 * i + 1) / 2 == i && (2 * i + 1) % 2 == 1);
    }
    assert(byte_units(unit_bytes(u)) =~= u);
    assert(byte_units(b).take(u.len() as int) =~= u);
}

/// The units of a text are those of its parts, one after the other.
pub proof fn lemma_encode_concat(a: Seq<char>, b: Seq<char>)
    ensures
        encode_utf16(a + b) == encode_utf16(a) + encode_utf16(b),
    decreases a.len(),
{
    if a.len() == 0 {
        assert(a + b == b);
    } else {
        lemma_encode_concat(a.drop_first(), b);
        assert((a + b).drop_first() == a.drop_first() + b);
        assert((a + b)[0] == a[0]);
    }
}

/// The units of one character.
pub proof fn lemma_encode_one(c: char)
    ensures
        encode_utf16(seq![c]) == char_units(c),
{
    assert(seq![c].drop_first() == Seq::<char>::empty());
    assert(encode_utf16(seq![c]) == char_units(c) + encode_utf16(seq![c].drop_first()));
}

/// A text without U+0000 has no zero unit, and no fewer units than characters.
pub proof fn lemma_encode_no_nul(s: Seq<char>)
    ensures
        s.len() <= encode_utf16(s).len() <= 2 * s.len(),
        no_nul(s) ==> forall|i: int|
            0 <= i < encode_utf16(s).len() ==> #[trigger] encode_utf16(s)[i] != 0,
    decreases s.len(),
{
    if s.len() > 0 {
        let rest = s.drop_first();
        lemma_encode_no_nul(rest);
        if no_nul(s) {
            assert(no_nul(rest)) by {
                assert forall|i: int| 0 <= i < rest.len() implies #[trigger] rest[i] != '\0' by {
                    assert(rest[i] == s[i + 1]);
                }
            }
            assert(s[0] != '\0');
            lemma_char_range(s[0]);
            let u = encode_utf16(s);
            assert forall|i: int| 0 <= i < u.len() implies #[trigger] u[i] != 0 by {
                if i >= char_units(s[0]).len() {
                    assert(u[i] == encode_utf16(rest)[i - char_units(s[0]).len()]);
                } else {
                    assert(u[i] == char_units(s[0])[i]);
                }
            }
        }
    }
}

/// A text without supplementary characters is read back unit by unit.
pub proof fn law_unit_chars_round_trip(s: Seq<char>)
    requires
        single_units(s),
    ensures
        unit_chars(encode_utf16(s)) == s,
    decreases s.len(),
{
    if s.len() > 0 {
        let rest = s.drop_first();
        assert(single_units(rest)) by {
            assert forall|i: int| 0 <= i < rest.len() implies #[trigger] rest[i] as u32
                <= 0xFFFF by {
                assert(rest[i] == s[i + 1]);
            }
        }
        law_unit_chars_round_trip(rest);
        let u = encode_utf16(s);
        assert(s[0] as u32 <= 0xFFFF);
        lemma_char_range(s[0]);
        assert(u == char_units(s[0]) + encode_utf16(rest));
        assert(u.drop_first() == encode_utf16(rest));
        assert(u[0] as char == s[0]);
        assert(s == seq![s[0]] + rest);
    }
}

/// Tests for the first unit of a surrogate pair.
fn high_unit(u: u16) -> (b: bool)
    ensures
        b == is_high(u),
{
    0xD800 <= u && u < 0xDC00
}

/// Tests for the second unit of a surrogate pair.
fn low_unit(u: u16) -> (b: bool)
    ensures
        b == is_low(u),
{
    0xDC00 <= u && u < 0xE000
}

/// The character of a unit, none for a surrogate.
pub fn unit_char(u: u16) -> (c: Option<char>)
    ensures
        c is Some <==> !is_high(u) && !is_low(u),
        c is Some ==> c->0 == u as char,
{
    match char::from_u32(u as u32) {
        Some(c) => {
            proof {
                lemma_char_range(c);
            }
            Some(c)
        },
        None => None,
    }
}

/// The character of a surrogate pair.
fn join_pair(high: u16, low: u16) -> (c: char)
    requires
        is_high(high),
        is_low(low),
    ensures
        c == pair_char(high, low),
{
    let n: u32 = 0x10000 + ((high - 0xD800) as u32) * 0x400 + ((low - 0xDC00) as u32);
    match char::from_u32(n) {
        Some(c) => {
            proof {
                lemma_char_range(c);
            }
            c
        },
        None => '\u{FFFD}',
    }
}

/// Appends the units of a character.
fn push_char_units(out: &mut Vec<u16>, c: char)
    ensures
        final(out)@ == old(out)@ + char_units(c),
{
    let n: u32 = c as u32;
    if n <= 0xFFFF {
        out.push(n as u16);
    } else {
        out.push((0xD800 + (n - 0x10000) / 0x400) as u16);
        out.push((0xDC00 + (n - 0x10000) % 0x400) as u16);
    }
}

/// The units of a text.
pub fn to_units(s: &str) -> (out: Vec<u16>)
    ensures
        out@ == encode_utf16(s@),
{
    let mut out: Vec<u16> = Vec::new();
    for c in iter: s.chars()
        invariant
            iter.seq() == s@,
            out@ == encode_utf16(iter.seq().take(iter.index() as int)),
    {
        proof {
            let done = s@.take(iter.index() as int);
            assert(s@.take(iter.index() + 1) == done + seq![c]);
            lemma_encode_concat(done, seq![c]);
            lemma_encode_one(c);
        }
        push_char_units(&mut out, c);
    }
    assert(s@.take(s@.len() as int) == s@);
    out
}

/// The text of units, with U+FFFD for each surrogate that stands in no pair.
pub fn from_units_lossy(u: &[u16]) -> (out: String)
    ensures
        out@ == decode_utf16(u@),
{
    let mut out = String::new();
    let mut i: usize = 0;
    assert(u@.skip(0) == u@);
    while i < u.len()
        invariant
            i <= u@.len(),
            out@ + decode_utf16(u@.skip(i as int)) == decode_utf16(u@),
        decreases u@.len() - i,
    {
        let ghost rest = u@.skip(i as int);
        let ghost before = out@;
        let a: u16 = u[i];
        assert(rest[0] == a);
        assert(rest.drop_first() == u@.skip(i + 1));
        if let Some(c) = unit_char(a) {
            out.push(c);
            i = i + 1;
            assert(before + (seq![c] + decode_utf16(rest.drop_first())) == out@ + decode_utf16(
                rest.drop_first(),
            ));
        } else if high_unit(a) && u.len() - i >= 2 && low_unit(u[i + 1]) {
            let c = join_pair(a, u[i + 1]);
            out.push(c);
            assert(rest.skip(2) == u@.skip(i + 2));
            assert(rest[1] == u@[i + 1]);
            i = i + 2;
            assert(before + (seq![c] + decode_utf16(rest.skip(2))) == out@ + decode_utf16(
                rest.skip(2),
            ));
        } else {
            out.push('\u{FFFD}');
            i = i + 1;
            assert(before + (seq!['\u{FFFD}'] + decode_utf16(rest.drop_first())) == out@
                + decode_utf16(rest.drop_first()));
        }
    }
    assert(u@.skip(u@.len() as int) == Seq::<u16>::empty());
    assert(out@ == decode_utf16(u@));
    out
}

/// Tests that every surrogate stands in a pair.
pub fn units_paired(u: &[u16]) -> (b: bool)
    ensures
        b == paired(u@),
{
    let mut i: usize = 0;
    assert(u@.skip(0) == u@);
    while i < u.len()
        invariant
            i <= u@.len(),
            paired(u@.skip(i as int)) == paired(u@),
        decreases u@.len() - i,
    {
        let ghost rest = u@.skip(i as int);
        let a: u16 = u[i];
        assert(rest[0] == a);
        if !high_unit(a) && !low_unit(a) {
            assert(rest.drop_first() == u@.skip(i + 1));
            i = i + 1;
        } else {
            if !high_unit(a) || u.len() - i < 2 {
                return false;
            }
            assert(rest[1] == u@[i + 1]);
            if !low_unit(u[i + 1]) {
                return false;
            }
            assert(rest.skip(2) == u@.skip(i + 2));
            i = i + 2;
        }
    }
    true
}

/// The text of units, none where a surrogate stands in no pair.
pub fn from_units(u: &[u16]) -> (r: Option<String>)
    ensures
        r is Some <==> paired(u@),
        r is Some ==> r->0@ == decode_utf16(u@),
{
    if units_paired(u) {
        Some(from_units_lossy(u))
    } else {
        None
    }
}

/// The units of bytes up to the first zero unit; an odd byte at the end is left
/// out.
pub fn units_before_zero(data: &[u8]) -> (out: Vec<u16>)
    ensures
        out@ == bytes::before_first(byte_units(data@), 0u16),
{
    let mut out: Vec<u16> = Vec::new();
    let mut i: usize = 0;
    let ghost units = byte_units(data@);
    while data.len() - i >= 2
        invariant
            units == byte_units(data@),
            i <= data@.len(),
            i == 2 * out@.len(),
            out@ == units.take(out@.len() as int),
            out@.len() <= units.len(),
            forall|j: int| 0 <= j < out@.len() ==> out@[j] != 0,
        decreases data@.len() - i,
    {
        let x: u16 = bytes::u16_at(data, i);
        assert(x == units[out@.len() as int]);
        assert(forall|j: int| 0 <= j < out@.len() ==> units[j] == out@[j]);
        if x == 0 {
            proof {
                bytes::lemma_index_unique(units, 0u16, out@.len() as int);
            }
            return out;
        }
        out.push(x);
        i = i + 2;
        assert(out@ == units.take(out@.len() as int));
    }
    proof {
        assert(forall|j: int| 0 <= j < out@.len() ==> units[j] == out@[j]);
        bytes::lemma_index_unique(units, 0u16, out@.len() as int);
    }
    out
}

/// Appends units as bytes.
pub fn push_units(out: &mut Vec<u8>, u: &[u16])
    ensures
        final(out)@ == old(out)@ + unit_bytes(u@),
{
    let ghost before = out@;
    let mut i: usize = 0;
    assert(unit_bytes(u@.take(0)) == Seq::<u8>::empty());
    while i < u.len()
        invariant
            i <= u@.len(),
            out@ == before + unit_bytes(u@.take(i as int)),
        decreases u@.len() - i,
    {
        bytes::push_u16(out, u[i]);
        assert(unit_bytes(u@.take(i as int)) + bytes::le16(u@[i as int]) == unit_bytes(u@.take(i + 1)));
        i = i + 1;
    }
    assert(u@.take(u@.len() as int) == u@);
}

/// A character up to U+FFFF is one unit, its own number; any other is two, a high one
/// and a low one, that hold the upper and the lower ten bits of what is left of its
/// number after 65536.
pub proof fn law_units_of_a_character(c: char)
    ensures
        c as u32 <= 0xFFFF ==> char_units(c).len() == 1 && char_units(c)[0] == c as u32,
        c as u32 > 0xFFFF ==> {
            &&& char_units(c).len() == 2
            &&& 0xD800 <= char_units(c)[0] <= 0xDBFF
            &&& 0xDC00 <= char_units(c)[1] <= 0xDFFF
            &&& 0x10000 + 0x400 * (char_units(c)[0] - 0xD800) + (char_units(c)[1] - 0xDC00)
                == c as u32
        },
{
    lemma_char_range(c);
}

/// A pair of units is read as one character, a single unit as one, and a high or low
/// unit that is not part of a pair as U+FFFD.
pub proof fn law_units_are_read(u: u16, low: u16, rest: Seq<u16>)
    requires
        0xDC00 <= low <= 0xDFFF,
    ensures
        u < 0xD800 || u > 0xDFFF ==> decode_utf16(seq![u] + rest) == seq![u as char]
            + decode_utf16(rest) && paired(seq![u] + rest) == paired(rest),
        0xD800 <= u <= 0xDBFF ==> decode_utf16(seq![u, low] + rest) == seq![
            (0x10000 + 0x400 * (u - 0xD800) + (low - 0xDC00)) as char,
        ] + decode_utf16(rest) && paired(seq![u, low] + rest) == paired(rest),
        decode_utf16(seq![low] + rest) == seq!['\u{FFFD}'] + decode_utf16(rest),
        !paired(seq![low] + rest),
        0xD800 <= u <= 0xDBFF && (rest.len() == 0 || rest[0] < 0xDC00 || rest[0] > 0xDFFF)
            ==> decode_utf16(seq![u] + rest) == seq!['\u{FFFD}'] + decode_utf16(rest) && !paired(
            seq![u] + rest,
        ),
        decode_utf16(Seq::empty()) == Seq::<char>::empty(),
        paired(Seq::empty()),
{
    assert((seq![u] + rest).drop_first() =~= rest);
    assert((seq![low] + rest).drop_first() =~= rest);
    assert((seq![u, low] + rest).skip(2) =~= rest);
    if rest.len() > 0 {
        assert((seq![u] + rest)[1] == rest[0]);
    }
    assert((seq![u, low] + rest)[0] == u && (seq![u, low] + rest)[1] == low);
}

/// Units are written with their low bytes first, and so they are read.
pub proof fn law_unit_bytes_low_first(u: Seq<u16>, b: Seq<u8>, i: int)
    ensures
        unit_bytes(u).len() == 2 * u.len(),
        0 <= i < u.len() ==> unit_bytes(u)[2 * i] + 256 * unit_bytes(u)[2 * i + 1] == u[i],
        byte_units(b).len() == b.len() / 2,
        0 <= i < b.len() / 2 ==> byte_units(b)[i] == b[2 * i] + 256 * b[2 * i + 1],
{
    if 0 <= i < u.len() {
        assert((2 * i) / 2 == i && (2 * i + 1) / 2 == i);
        assert((2 * i) % 2 == 0 && (2 * i + 1) % 2 == 1);
        assert(unit_bytes(u)[2 * i] == (u[i] % 256) as u8);
        assert(unit_bytes(u)[2 * i + 1] == (u[i] / 256) as u8);
    }
}

/// Characters of names are taken unit by unit; high and low units are left out.
pub proof fn law_unit_chars_unit_by_unit(u: u16, rest: Seq<u16>)
    ensures
        u < 0xD800 || u > 0xDFFF ==> unit_chars(seq![u] + rest) == seq![u as char] + unit_chars(
            rest,
        ),
        0xD800 <= u <= 0xDFFF ==> unit_chars(seq![u] + rest) == unit_chars(rest),
        unit_chars(Seq::empty()) == Seq::<char>::empty(),
{
    assert((seq![u] + rest).drop_first() =~= rest);
}

} // verus!
