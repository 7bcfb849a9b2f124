//! Text: the characters of strings, and numbers written out.
use vstd::prelude::*;

use std::path::PathBuf;

verus! {

/// `String::push` appends the character at the end.
pub assume_specification[ String::push ](s: &mut String, c: char)
    ensures
        final(s)@ == old(s)@.push(c),
;

/// `String::push_str` appends the characters of the slice at the end.
pub assume_specification[ String::push_str ](s: &mut String, other: &str)
    ensures
        final(s)@ == old(s)@ + other@,
;

/// `String::from_utf8` accepts the bytes that are well-formed UTF-8 and gives
/// the text that they encode.
#[verifier::external_body]
pub(crate) fn utf8_text(bytes: Vec<u8>) -> (s: Option<String>)
    ensures
        s is Some <==> vstd::utf8::valid_utf8(bytes@),
        s is Some ==> s->0@ == vstd::utf8::decode_utf8(bytes@),
{
    String::from_utf8(bytes).ok()
}

/// What `String::from_utf8_lossy` makes of bytes.
pub uninterp spec fn utf8_lossy(bytes: Seq<u8>) -> Seq<char>;

/// `String::from_utf8_lossy` gives the text of well-formed UTF-8. Where the
/// bytes are not well-formed, only that the text depends on nothing else is
/// claimed; how many replacement characters stand in it is left unsaid.
#[verifier::external_body]
pub(crate) fn lossy_text(bytes: &[u8]) -> (s: String)
    ensures
        s@ == utf8_lossy(bytes@),
        vstd::utf8::valid_utf8(bytes@) ==> s@ == vstd::utf8::decode_utf8(bytes@),
{
    String::from_utf8_lossy(bytes).into_owned()
}

/// How `Debug` writes a string: in quotes, with escapes.
pub uninterp spec fn quoted(s: Seq<char>) -> Seq<char>;

/// `Debug` of a string gives a text that depends on nothing but the string. Which
/// characters it escapes, and how, is left unsaid.
#[verifier::external_body]
pub(crate) fn quote(s: &str) -> (q: String)
    ensures
        q@ == quoted(s@),
{
    format!("{:?}", s)
}

/// Appends a string as `Debug` writes it.
pub fn push_quoted(out: &mut String, s: &str)
    ensures
        final(out)@ == old(out)@ + quoted(s@),
{
    out.push_str(quote(s).as_str());
}

/// How `Debug` writes a character: in single quotes, with escapes.
pub uninterp spec fn quoted_char(c: char) -> Seq<char>;

/// `Debug` of a character gives a text that depends on nothing but the character.
/// Which characters it escapes, and how, is left unsaid.
#[verifier::external_body]
pub(crate) fn quote_char(c: char) -> (q: String)
    ensures
        q@ == quoted_char(c),
{
    format!("{:?}", c)
}

/// How `Debug` writes a path: in quotes, with escapes.
pub uninterp spec fn quoted_path(path: PathBuf) -> Seq<char>;

/// `Debug` of a path gives a text that depends on nothing but the path. Which
/// characters it escapes, and how, is left unsaid.
#[verifier::external_body]
pub(crate) fn quote_path(path: &PathBuf) -> (q: String)
    ensures
        q@ == quoted_path(*path),
{
    format!("{:?}", path)
}

/// A character with the Unicode property `White_Space`.
pub open spec fn is_white_space(c: char) -> bool {
    ||| '\u{9}' <= c <= '\u{D}'
    ||| c == '\u{20}' || c == '\u{85}' || c == '\u{A0}' || c == '\u{1680}'
    ||| '\u{2000}' <= c <= '\u{200A}'
    ||| c == '\u{2028}' || c == '\u{2029}' || c == '\u{202F}' || c == '\u{205F}'
    ||| c == '\u{3000}'
}

/// A text without the white space at its start.
pub open spec fn trimmed_start(s: Seq<char>) -> Seq<char>
    decreases s.len(),
{
    if s.len() > 0 && is_white_space(s[0]) {
        trimmed_start(s.drop_first())
    } else {
        s
    }
}

/// A text without the white space at its end.
pub open spec fn trimmed_end(s: Seq<char>) -> Seq<char>
    decreases s.len(),
{
    if s.len() > 0 && is_white_space(s.last()) {
        trimmed_end(s.drop_last())
    } else {
        s
    }
}

/// A text without the white space at its ends.
pub open spec fn trimmed(s: Seq<char>) -> Seq<char> {
    trimmed_end(trimmed_start(s))
}

/// `str::trim` removes the white space, as Unicode defines it, at both ends.
#[verifier::external_body]
pub(crate) fn trim_text(s: &str) -> (t: String)
    ensures
        t@ == trimmed(s@),
{
    s.trim().to_owned()
}

/// A text in lower case.
pub uninterp spec fn lowercased(s: Seq<char>) -> Seq<char>;

/// `str::to_lowercase` gives the lower case of a text. Which characters have one is
/// left unsaid.
#[verifier::external_body]
pub(crate) fn lowercase_text(s: &str) -> (t: String)
    ensures
        t@ == lowercased(s@),
{
    s.to_lowercase()
}

/// A truth value written out.
pub open spec fn truth(b: bool) -> Seq<char> {
    if b {
        "true"@
    } else {
        "false"@
    }
}

/// Appends a truth value.
pub fn push_truth(out: &mut String, b: bool)
    ensures
        final(out)@ == old(out)@ + truth(b),
{
    if b {
        out.push_str("true");
    } else {
        out.push_str("false");
    }
}

/// An optional number as `Debug` writes it.
pub open spec fn quoted_number(n: Option<u32>) -> Seq<char> {
    match n {
        Some(v) => "Some("@ + decimal(v as nat) + ")"@,
        None => "None"@,
    }
}

/// Appends an optional number as `Debug` writes it.
pub fn push_quoted_number(out: &mut String, n: Option<u32>)
    ensures
        final(out)@ == old(out)@ + quoted_number(n),
{
    match n {
        Some(v) => {
            out.push_str("Some(");
            push_decimal(out, v as u64);
            out.push_str(")");
            assert(out@ == old(out)@ + ("Some("@ + decimal(v as nat) + ")"@));
        },
        None => {
            out.push_str("None");
        },
    }
}

/// An optional text as `Debug` writes it.
pub open spec fn quoted_option(s: Option<Seq<char>>) -> Seq<char> {
    match s {
        Some(t) => "Some("@ + quoted(t) + ")"@,
        None => "None"@,
    }
}

/// Appends an optional text as `Debug` writes it.
pub fn push_quoted_option(out: &mut String, s: &Option<String>)
    ensures
        final(out)@ == old(out)@ + quoted_option(crate::views::option_view(*s)),
{
    match s {
        Some(t) => {
            out.push_str("Some(");
            push_quoted(out, t.as_str());
            out.push_str(")");
            assert(out@ == old(out)@ + ("Some("@ + quoted(t@) + ")"@));
        },
        None => {
            out.push_str("None");
        },
    }
}

/// A text with another in front of it.
pub fn prefixed(prefix: &str, s: &str) -> (r: String)
    ensures
        r@ == prefix@ + s@,
{
    let mut r = prefix.to_owned();
    r.push_str(s);
    r
}

/// The text `part` occurs in `s`.
pub open spec fn occurs(s: Seq<char>, part: Seq<char>) -> bool {
    exists|i: int| 0 <= i <= s.len() - part.len() && occurs_at(s, part, i)
}

/// The text `part` stands in `s` at the place `i`.
pub open spec fn occurs_at(s: Seq<char>, part: Seq<char>, i: int) -> bool {
    s.subrange(i, i + part.len()) == part
}

/// Tests whether a text occurs in another.
pub fn contains_text(s: &str, part: &str) -> (b: bool)
    ensures
        b == occurs(s@, part@),
{
    let whole = chars_of(s);
    let wanted = chars_of(part);
    if wanted.len() > whole.len() {
        return false;
    }
    if wanted.len() == 0 {
        assert(s@.subrange(0, 0) == part@);
        assert(occurs_at(s@, part@, 0));
        return true;
    }
    let last: usize = whole.len() - wanted.len();
    let mut i: usize = 0;
    while i <= last
        invariant
            whole@ == s@,
            wanted@ == part@,
            0 < wanted@.len() <= whole@.len() <= usize::MAX,
            last == whole@.len() - wanted@.len(),
            i <= last + 1,
            forall|k: int| 0 <= k < i ==> !#[trigger] occurs_at(s@, part@, k),
        decreases last + 1 - i,
    {
        let mut j: usize = 0;
        while j < wanted.len() && whole[i + j] == wanted[j]
            invariant
                i <= last,
                last == whole@.len() - wanted@.len(),
                wanted@.len() <= whole@.len() <= usize::MAX,
                j <= wanted@.len(),
                forall|k: int| 0 <= k < j ==> whole@[i + k] == #[trigger] wanted@[k],
            decreases wanted@.len() - j,
        {
            j = j + 1;
        }
        if j == wanted.len() {
            assert(s@.subrange(i as int, i + part@.len()) == part@);
            assert(occurs_at(s@, part@, i as int));
            return true;
        }
        proof {
            if occurs_at(s@, part@, i as int) {
                assert(s@.subrange(i as int, i + part@.len())[j as int] == part@[j as int]);
            }
        }
        i = i + 1;
    }
    false
}

/// A text without its first `n` characters.
pub fn text_from(chars: &[char], n: usize) -> (s: String)
    requires
        n <= chars@.len(),
    ensures
        s@ == chars@.skip(n as int),
{
    string_of(&chars[n..chars.len()])
}

/// The first `n` characters of a text.
pub fn text_to(chars: &[char], n: usize) -> (s: String)
    requires
        n <= chars@.len(),
    ensures
        s@ == chars@.take(n as int),
{
    string_of(&chars[0..n])
}

/// The place of the first `c`.
pub fn first_place(chars: &[char], c: char) -> (i: Option<usize>)
    ensures
        match i {
            Some(k) => chars@.index_of_first(c) == Some(k as int) && k < chars@.len(),
            None => chars@.index_of_first(c) is None,
        },
{
    proof {
        chars@.index_of_first_ensures(c);
    }
    let mut i: usize = 0;
    while i < chars.len()
        invariant
            i <= chars@.len(),
            forall|j: int| 0 <= j < i ==> chars@[j] != c,
        decreases chars@.len() - i,
    {
        if chars[i] == c {
            proof {
                chars@.index_of_first_ensures(c);
            }
            return Some(i);
        }
        i = i + 1;
    }
    None
}

/// The place of the last `c`.
pub fn last_place(chars: &[char], c: char) -> (i: Option<usize>)
    ensures
        match i {
            Some(k) => chars@.index_of_last(c) == Some(k as int) && k < chars@.len(),
            None => chars@.index_of_last(c) is None,
        },
{
    proof {
        chars@.index_of_last_ensures(c);
    }
    let mut i: usize = chars.len();
    while i > 0
        invariant
            i <= chars@.len(),
            forall|j: int| i <= j < chars@.len() ==> chars@[j] != c,
        decreases i,
    {
        i = i - 1;
        if chars[i] == c {
            proof {
                chars@.index_of_last_ensures(c);
            }
            return Some(i);
        }
    }
    None
}

/// The character of a digit, in lower case.
pub open spec fn digit(d: int) -> char {
    if d < 10 {
        (48 + d) as char
    } else {
        (87 + d) as char
    }
}

/// The character of a digit, in upper case.
pub open spec fn upper_digit(d: int) -> char {
    if d < 10 {
        (48 + d) as char
    } else {
        (55 + d) as char
    }
}

/// A number in base ten, without leading zeros.
pub open spec fn decimal(n: nat) -> Seq<char>
    decreases n,
{
    if n < 10 {
        seq![digit(n as int)]
    } else {
        decimal(n / 10).push(digit((n % 10) as int))
    }
}

/// An integer in base ten, with a minus sign where it is negative.
pub open spec fn signed_decimal(n: int) -> Seq<char> {
    if n < 0 {
        seq!['-'] + decimal((-n) as nat)
    } else {
        decimal(n as nat)
    }
}

/// A number in base sixteen, lower case, without leading zeros.
pub open spec fn hexadecimal(n: nat) -> Seq<char>
    decreases n,
{
    if n < 16 {
        seq![digit(n as int)]
    } else {
        hexadecimal(n / 16).push(digit((n % 16) as int))
    }
}

/// A byte as two upper-case digits in base sixteen.
pub open spec fn hex_byte(b: u8) -> Seq<char> {
    seq![upper_digit((b / 16) as int), upper_digit((b % 16) as int)]
}

/// The character of a digit, in lower case.
fn digit_char(d: u8) -> (c: char)
    requires
        d < 16,
    ensures
        c == digit(d as int),
{
    if d < 10 {
        (48 + d) as char
    } else {
        (87 + d) as char
    }
}

/// The character of a digit, in upper case.
fn upper_digit_char(d: u8) -> (c: char)
    requires
        d < 16,
    ensures
        c == upper_digit(d as int),
{
    if d < 10 {
        (48 + d) as char
    } else {
        (55 + d) as char
    }
}

/// Appends a number in base ten.
pub fn push_decimal(out: &mut String, n: u64)
    ensures
        final(out)@ == old(out)@ + decimal(n as nat),
    decreases n,
{
    if n >= 10 {
        push_decimal(out, n / 10);
    }
    out.push(digit_char((n % 10) as u8));
}

/// Appends an integer in base ten.
pub fn push_signed(out: &mut String, n: i32)
    ensures
        final(out)@ == old(out)@ + signed_decimal(n as int),
{
    if n < 0 {
        out.push('-');
        push_decimal(out, (-(n as i64)) as u64);
    } else {
        push_decimal(out, n as u64);
    }
}

/// Appends a number in base sixteen.
pub fn push_hexadecimal(out: &mut String, n: u64)
    ensures
        final(out)@ == old(out)@ + hexadecimal(n as nat),
    decreases n,
{
    if n >= 16 {
        push_hexadecimal(out, n / 16);
    }
    out.push(digit_char((n % 16) as u8));
}

/// Appends a byte as two upper-case digits.
pub fn push_hex_byte(out: &mut String, b: u8)
    ensures
        final(out)@ == old(out)@ + hex_byte(b),
{
    out.push(upper_digit_char(b / 16));
    out.push(upper_digit_char(b % 16));
}

/// The characters of a string.
pub fn chars_of(s: &str) -> (v: Vec<char>)
    ensures
        v@ == s@,
{
    let mut v: Vec<char> = Vec::new();
    for c in iter: s.chars()
        invariant
            v@ == iter.seq().take(iter.index() as int),
            iter.seq() == s@,
    {
        v.push(c);
    }
    v
}

/// The string of the given characters.
pub fn string_of(chars: &[char]) -> (s: String)
    ensures
        s@ == chars@,
{
    let mut s = String::new();
    let mut i: usize = 0;
    while i < chars.len()
        invariant
            i <= chars@.len(),
            s@ == chars@.take(i as int),
        decreases chars@.len() - i,
    {
        s.push(chars[i]);
        i = i + 1;
    }
    s
}

/// Tests two strings for equality.
pub fn same_text(a: &str, b: &str) -> (same: bool)
    ensures
        same == (a@ == b@),
{
    a.to_owned() == b.to_owned()
}

/// A copy of an optional string.
pub fn copy_option(s: &Option<String>) -> (r: Option<String>)
    ensures
        r is Some <==> s is Some,
        s is Some ==> r->0@ == s->0@,
{
    match s {
        Some(t) => Some(t.clone()),
        None => None,
    }
}

/// The number that decimal digits stand for.
pub open spec fn decimal_value(s: Seq<char>) -> int
    decreases s.len(),
{
    if s.len() == 0 {
        0
    } else {
        decimal_value(s.drop_last()) * 10 + (s.last() as int - '0' as int)
    }
}

/// A number is written in decimal digits that stand for it, without a zero in front.
pub proof fn law_decimal_reads_back(n: nat)
    ensures
        decimal_value(decimal(n)) == n,
        decimal(n).len() > 0,
        decimal(n).len() > 1 <==> n >= 10,
        n >= 10 ==> decimal(n)[0] != '0',
        forall|i: int| 0 <= i < decimal(n).len() ==> '0' <= #[trigger] decimal(n)[i] <= '9',
    decreases n,
{
    if n < 10 {
        reveal_with_fuel(decimal_value, 2);
        assert(decimal(n).drop_last() =~= Seq::<char>::empty());
    } else {
        law_decimal_reads_back(n / 10);
        assert(decimal(n).drop_last() =~= decimal(n / 10));
        if n / 10 < 10 {
            assert(decimal(n / 10)[0] == digit((n / 10) as int));
        }
    }
}

/// A negative number has a minus in front of its digits, another one has none.
pub proof fn law_signed_reads_back(n: int)
    ensures
        n >= 0 ==> decimal_value(signed_decimal(n)) == n,
        n < 0 ==> signed_decimal(n)[0] == '-' && decimal_value(signed_decimal(n).skip(1)) == -n,
        n >= 0 ==> signed_decimal(n)[0] != '-',
{
    if n < 0 {
        law_decimal_reads_back((-n) as nat);
        assert(signed_decimal(n).skip(1) =~= decimal((-n) as nat));
    } else {
        law_decimal_reads_back(n as nat);
    }
}

/// What a hexadecimal digit of either case stands for.
pub open spec fn hex_value(c: char) -> int {
    if '0' <= c <= '9' {
        c as int - '0' as int
    } else if 'a' <= c <= 'f' {
        10 + (c as int - 'a' as int)
    } else if 'A' <= c <= 'F' {
        10 + (c as int - 'A' as int)
    } else {
        -1
    }
}

/// The number that hexadecimal digits stand for.
pub open spec fn hexadecimal_value(s: Seq<char>) -> int
    decreases s.len(),
{
    if s.len() == 0 {
        0
    } else {
        hexadecimal_value(s.drop_last()) * 16 + hex_value(s.last())
    }
}

/// A number is written in hexadecimal digits that stand for it, in lower case.
pub proof fn law_hexadecimal_reads_back(n: nat)
    ensures
        hexadecimal_value(hexadecimal(n)) == n,
        forall|i: int|
            0 <= i < hexadecimal(n).len() ==> !('A' <= #[trigger] hexadecimal(n)[i] <= 'F'),
    decreases n,
{
    if n < 16 {
        reveal_with_fuel(hexadecimal_value, 2);
        assert(hexadecimal(n).drop_last() =~= Seq::<char>::empty());
    } else {
        law_hexadecimal_reads_back(n / 16);
        assert(hexadecimal(n).drop_last() =~= hexadecimal(n / 16));
    }
}

/// A byte is written as two hexadecimal digits that stand for it, in upper case.
pub proof fn law_hex_byte_reads_back(b: u8)
    ensures
        hex_byte(b).len() == 2,
        16 * hex_value(hex_byte(b)[0]) + hex_value(hex_byte(b)[1]) == b,
        !('a' <= hex_byte(b)[0] <= 'f') && !('a' <= hex_byte(b)[1] <= 'f'),
{
}

/// A truth value is written as its name.
pub proof fn law_truth_is_written(b: bool)
    ensures
        truth(b) == "true"@ <==> b,
        truth(b) == "false"@ <==> !b,
{
    reveal_strlit("true");
    reveal_strlit("false");
    assert("true"@.len() == 4 && "false"@.len() == 5);
}

/// What stands between two texts occurs in the whole.
pub proof fn law_part_occurs(a: Seq<char>, part: Seq<char>, b: Seq<char>)
    ensures
        occurs(a + part + b, part),
{
    let s = a + part + b;
    assert(s.subrange(a.len() as int, (a.len() + part.len()) as int) =~= part);
    assert(occurs_at(s, part, a.len() as int));
}

/// What occurs in a part occurs in the whole.
pub proof fn law_part_of_part_occurs(a: Seq<char>, s: Seq<char>, b: Seq<char>, part: Seq<char>)
    requires
        occurs(s, part),
    ensures
        occurs(a + s + b, part),
{
    let i = choose|i: int| 0 <= i <= s.len() - part.len() && occurs_at(s, part, i);
    let whole = a + s + b;
    assert(whole.subrange(a.len() + i, a.len() + i + part.len()) =~= s.subrange(
        i,
        i + part.len(),
    ));
    assert(occurs_at(whole, part, a.len() + i));
}

/// White space at the start and at the end is cut off, and nothing else.
pub proof fn law_white_space_is_cut(before: Seq<char>, s: Seq<char>, after: Seq<char>)
    requires
        s.len() > 0,
        !is_white_space(s[0]),
        !is_white_space(s.last()),
        forall|i: int| 0 <= i < before.len() ==> is_white_space(#[trigger] before[i]),
        forall|i: int| 0 <= i < after.len() ==> is_white_space(#[trigger] after[i]),
    ensures
        trimmed(before + s + after) == s,
    decreases before.len() + after.len(),
{
    if before.len() > 0 {
        law_white_space_is_cut(before.drop_first(), s, after);
        assert((before + s + after).drop_first() =~= before.drop_first() + s + after);
    } else {
        let whole = before + s + after;
        assert(whole =~= s + after);
        assert(trimmed_start(whole) == whole);
        lemma_end_is_cut(s, after);
    }
}

/// White space at the end is cut off.
proof fn lemma_end_is_cut(s: Seq<char>, after: Seq<char>)
    requires
        s.len() > 0,
        !is_white_space(s.last()),
        forall|i: int| 0 <= i < after.len() ==> is_white_space(#[trigger] after[i]),
    ensures
        trimmed_end(s + after) == s,
    decreases after.len(),
{
    if after.len() > 0 {
        lemma_end_is_cut(s, after.drop_last());
        assert((s + after).drop_last() =~= s + after.drop_last());
    } else {
        assert(s + after =~= s);
    }
}

/// Of the characters of ASCII the space, the tab, the line feed, the vertical tab, the
/// form feed and the carriage return are white space, and no other is.
pub proof fn law_ascii_white_space(c: char)
    requires
        (c as u32) < 128,
    ensures
        is_white_space(c) <==> c == ' ' || c == '\t' || c == '\n' || c == '\u{B}' || c == '\u{C}'
            || c == '\r',
{
}

} // verus!
