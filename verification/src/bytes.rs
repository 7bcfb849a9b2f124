//! Little-endian integers in byte sequences.
use vstd::prelude::*;

verus! {

/// The two bytes of `x`, least significant first.
pub open spec fn le16(x: u16) -> Seq<u8> {
    seq![(x % 256) as u8, (x / 256) as u8]
}

/// The four bytes of `x`, least significant first.
pub open spec fn le32(x: u32) -> Seq<u8> {
    seq![
        (x % 256) as u8,
        (x / 256 % 256) as u8,
        (x / 65536 % 256) as u8,
        (x / 16777216) as u8,
    ]
}

/// The eight bytes of `x`, least significant first.
pub open spec fn le64(x: u64) -> Seq<u8> {
    le32((x % 0x1_0000_0000) as u32) + le32((x / 0x1_0000_0000) as u32)
}

/// The integer whose two bytes start at `at`.
pub open spec fn le16_at(s: Seq<u8>, at: int) -> u16 {
    (s[at] + 256 * s[at + 1]) as u16
}

/// The integer whose four bytes start at `at`.
pub open spec fn le32_at(s: Seq<u8>, at: int) -> u32 {
    (s[at] + 256 * s[at + 1] + 65536 * s[at + 2] + 16777216 * s[at + 3]) as u32
}

/// The integer whose eight bytes start at `at`.
pub open spec fn le64_at(s: Seq<u8>, at: int) -> u64 {
    join_u32(le32_at(s, at + 4), le32_at(s, at))
}

/// The 64-bit integer with the given upper and lower halves.
pub open spec fn join_u32(high: u32, low: u32) -> u64 {
    (high * 0x1_0000_0000 + low) as u64
}

/// The upper half of a 64-bit integer.
pub open spec fn high_u32(x: u64) -> u32 {
    (x / 0x1_0000_0000) as u32
}

/// The lower half of a 64-bit integer.
pub open spec fn low_u32(x: u64) -> u32 {
    (x % 0x1_0000_0000) as u32
}

/// Reading back the bytes that were written gives the integer again.
pub proof fn law_le16_round_trip(before: Seq<u8>, x: u16, after: Seq<u8>)
    ensures
        le16_at(before + le16(x) + after, before.len() as int) == x,
{
    let s = before + le16(x) + after;
    let n = before.len() as int;
    assert(s[n] == le16(x)[0]);
    assert(s[n + 1] == le16(x)[1]);
}

/// Reading back the bytes that were written gives the integer again.
pub proof fn law_le32_round_trip(before: Seq<u8>, x: u32, after: Seq<u8>)
    ensures
        le32_at(before + le32(x) + after, before.len() as int) == x,
{
    let s = before + le32(x) + after;
    let n = before.len() as int;
    assert(s[n] == le32(x)[0]);
    assert(s[n + 1] == le32(x)[1]);
    assert(s[n + 2] == le32(x)[2]);
    assert(s[n + 3] == le32(x)[3]);
}

/// Reading back the bytes that were written gives the integer again.
pub proof fn law_le64_round_trip(before: Seq<u8>, x: u64, after: Seq<u8>)
    ensures
        le64_at(before + le64(x) + after, before.len() as int) == x,
{
    let s = before + le64(x) + after;
    let low = low_u32(x);
    let high = high_u32(x);
    assert(s == before + le32(low) + (le32(high) + after));
    law_le32_round_trip(before, low, le32(high) + after);
    assert(s == (before + le32(low)) + le32(high) + after);
    law_le32_round_trip(before + le32(low), high, after);
}

/// A two-byte field is read by its own two bytes.
pub proof fn lemma_le16_field(s: Seq<u8>, at: int, x: u16)
    requires
        0 <= at,
        at + 2 <= s.len(),
        s.subrange(at, at + 2) == le16(x),
    ensures
        le16_at(s, at) == x,
{
    assert(s == s.take(at) + le16(x) + s.skip(at + 2));
    law_le16_round_trip(s.take(at), x, s.skip(at + 2));
}

/// A four-byte field is read by its own four bytes.
pub proof fn lemma_le32_field(s: Seq<u8>, at: int, x: u32)
    requires
        0 <= at,
        at + 4 <= s.len(),
        s.subrange(at, at + 4) == le32(x),
    ensures
        le32_at(s, at) == x,
{
    assert(s == s.take(at) + le32(x) + s.skip(at + 4));
    law_le32_round_trip(s.take(at), x, s.skip(at + 4));
}

/// A number in front of other bytes is read back.
pub proof fn lemma_le32_head(n: u32, rest: Seq<u8>)
    ensures
        (le32(n) + rest).len() == 4 + rest.len(),
        le32_at(le32(n) + rest, 0) == n,
{
    assert((le32(n) + rest).subrange(0, 4) =~= le32(n));
    lemma_le32_field(le32(n) + rest, 0, n);
}

/// A count that fits in 32 bits is read back from in front of other bytes.
pub proof fn lemma_count_head(n: nat, rest: Seq<u8>)
    requires
        n < 0x1_0000_0000,
    ensures
        le32_at(le32((n as int % 0x1_0000_0000) as u32) + rest, 0) == n,
{
    let x = (n as int % 0x1_0000_0000) as u32;
    assert(x == n) by {
        vstd::arithmetic::div_mod::lemma_small_mod(n, 0x1_0000_0000);
    }
    lemma_le32_head(x, rest);
}

/// An eight-byte field is read by its own eight bytes.
pub proof fn lemma_le64_field(s: Seq<u8>, at: int, x: u64)
    requires
        0 <= at,
        at + 8 <= s.len(),
        s.subrange(at, at + 8) == le64(x),
    ensures
        le64_at(s, at) == x,
{
    assert(s == s.take(at) + le64(x) + s.skip(at + 8));
    law_le64_round_trip(s.take(at), x, s.skip(at + 8));
}

/// Joining the halves of an integer gives the integer.
pub proof fn law_halves_join(x: u64)
    ensures
        join_u32(high_u32(x), low_u32(x)) == x,
{
}

/// Splitting a joined integer gives the halves.
pub proof fn law_join_splits(high: u32, low: u32)
    ensures
        high_u32(join_u32(high, low)) == high,
        low_u32(join_u32(high, low)) == low,
{
}

/// The first place at or after `from` that holds `v`, or the length of `s`
/// where there is none.
pub open spec fn index_from<T>(s: Seq<T>, v: T, from: int) -> int
    decreases s.len() - from,
{
    if from >= s.len() || s[from] == v {
        from
    } else {
        index_from(s, v, from + 1)
    }
}

/// The part of `s` before the first `v`: all of `s` where it holds none.
pub open spec fn before_first<T>(s: Seq<T>, v: T) -> Seq<T> {
    s.take(index_from(s, v, 0))
}

/// What `index_from` finds.
pub proof fn lemma_index_from<T>(s: Seq<T>, v: T, from: int)
    requires
        0 <= from <= s.len(),
    ensures
        from <= index_from(s, v, from) <= s.len(),
        index_from(s, v, from) < s.len() ==> s[index_from(s, v, from)] == v,
        forall|i: int| from <= i < index_from(s, v, from) ==> s[i] != v,
    decreases s.len() - from,
{
    if from < s.len() && s[from] != v {
        lemma_index_from(s, v, from + 1);
    }
}

/// A place before which `v` does not occur, and that holds `v` or ends the
/// sequence, is the place that `index_from` finds.
pub proof fn lemma_index_unique<T>(s: Seq<T>, v: T, n: int)
    requires
        0 <= n <= s.len(),
        n < s.len() ==> s[n] == v,
        forall|i: int| 0 <= i < n ==> s[i] != v,
    ensures
        index_from(s, v, 0) == n,
{
    lemma_index_from(s, v, 0);
    let m = index_from(s, v, 0);
    if m < n {
        assert(s[m] != v);
    } else if n < m {
        assert(s[n] != v);
    }
}

/// Where the first zero byte stands.
pub fn zero_index(data: &[u8]) -> (n: usize)
    ensures
        n == index_from(data@, 0u8, 0),
        n <= data@.len(),
{
    let mut n: usize = 0;
    while n < data.len() && data[n] != 0
        invariant
            n <= data@.len(),
            forall|i: int| 0 <= i < n ==> data@[i] != 0,
        decreases data@.len() - n,
    {
        n = n + 1;
    }
    proof {
        lemma_index_unique(data@, 0u8, n as int);
    }
    n
}

/// Reads a 16-bit integer.
pub fn u16_at(data: &[u8], at: usize) -> (x: u16)
    requires
        at + 2 <= data@.len(),
    ensures
        x == le16_at(data@, at as int),
{
    (data[at] as u16) + 256 * (data[at + 1] as u16)
}

/// Reads a 32-bit integer.
pub fn u32_at(data: &[u8], at: usize) -> (x: u32)
    requires
        at + 4 <= data@.len(),
    ensures
        x == le32_at(data@, at as int),
{
    (data[at] as u32) + 256 * (data[at + 1] as u32) + 65536 * (data[at + 2] as u32) + 16777216 * (
    data[at + 3] as u32)
}

/// Reads a 64-bit integer.
pub fn u64_at(data: &[u8], at: usize) -> (x: u64)
    requires
        at + 8 <= data@.len(),
    ensures
        x == le64_at(data@, at as int),
{
    assert(data.len() == data@.len());
    join_halves(u32_at(data, at + 4), u32_at(data, at))
}

/// Joins two halves to a 64-bit integer.
pub fn join_halves(high: u32, low: u32) -> (x: u64)
    ensures
        x == join_u32(high, low),
{
    (high as u64) * 0x1_0000_0000 + (low as u64)
}

/// The upper half of a 64-bit integer.
pub fn upper_half(x: u64) -> (high: u32)
    ensures
        high == high_u32(x),
{
    (x / 0x1_0000_0000) as u32
}

/// The lower half of a 64-bit integer.
pub fn lower_half(x: u64) -> (low: u32)
    ensures
        low == low_u32(x),
{
    (x % 0x1_0000_0000) as u32
}

/// The lower 32 bits of a length.
pub fn length_u32(n: usize) -> (x: u32)
    ensures
        x == n as int % 0x1_0000_0000,
{
    (n as u64 % 0x1_0000_0000) as u32
}

/// Appends a 16-bit integer.
pub fn push_u16(out: &mut Vec<u8>, x: u16)
    ensures
        final(out)@ == old(out)@ + le16(x),
{
    out.push((x % 256) as u8);
    out.push((x / 256) as u8);
}

/// Appends a 32-bit integer.
pub fn push_u32(out: &mut Vec<u8>, x: u32)
    ensures
        final(out)@ == old(out)@ + le32(x),
{
    out.push((x % 256) as u8);
    out.push((x / 256 % 256) as u8);
    out.push((x / 65536 % 256) as u8);
    out.push((x / 16777216) as u8);
}

/// Appends a 64-bit integer.
pub fn push_u64(out: &mut Vec<u8>, x: u64)
    ensures
        final(out)@ == old(out)@ + le64(x),
{
    push_u32(out, lower_half(x));
    push_u32(out, upper_half(x));
}

/// Appends bytes.
pub fn push_bytes(out: &mut Vec<u8>, data: &[u8])
    ensures
        final(out)@ == old(out)@ + data@,
{
    let ghost before = out@;
    out.extend_from_slice(data);
    assert(out@ == before + data@);
}

/// Appends `n` zero bytes.
pub fn push_zeros(out: &mut Vec<u8>, n: usize)
    ensures
        final(out)@ == old(out)@ + Seq::new(n as nat, |i: int| 0u8),
{
    let ghost before = out@;
    let mut i: usize = 0;
    while i < n
        invariant
            i <= n,
            out@ == before + Seq::new(i as nat, |j: int| 0u8),
        decreases n - i,
    {
        out.push(0);
        i = i + 1;
        assert(out@ == before + Seq::new(i as nat, |j: int| 0u8));
    }
}

/// A copy of the bytes.
pub fn copy_bytes(data: &[u8]) -> (out: Vec<u8>)
    ensures
        out@ == data@,
{
    let mut out: Vec<u8> = Vec::new();
    push_bytes(&mut out, data);
    assert(out@ == data@);
    out
}

/// A copy of `data[from..to]`.
pub fn copy_range(data: &[u8], from: usize, to: usize) -> (out: Vec<u8>)
    requires
        from <= to <= data@.len(),
    ensures
        out@ == data@.subrange(from as int, to as int),
{
    copy_bytes(&data[from..to])
}

/// Tests whether bytes are the same.
pub fn same_bytes(a: &[u8], b: &[u8]) -> (same: bool)
    ensures
        same == (a@ == b@),
{
    if a.len() != b.len() {
        return false;
    }
    let mut i: usize = 0;
    while i < a.len()
        invariant
            i <= a@.len() == b@.len(),
            forall|j: int| 0 <= j < i ==> a@[j] == b@[j],
        decreases a@.len() - i,
    {
        if a[i] != b[i] {
            return false;
        }
        i = i + 1;
    }
    assert(a@ =~= b@);
    true
}

/// Numbers are written with their low bytes first.
pub proof fn law_low_bytes_come_first(x: u16, y: u32)
    ensures
        le16(x).len() == 2,
        le16(x)[0] + 0x100 * le16(x)[1] == x,
        le32(y).len() == 4,
        le32(y)[0] + 0x100 * le32(y)[1] + 0x1_0000 * le32(y)[2] + 0x100_0000 * le32(y)[3] == y,
{
}

/// A number of eight bytes is written with its lower half first.
pub proof fn law_lower_half_comes_first(z: u64)
    ensures
        le64(z).len() == 8,
        le64(z).take(4) == le32((z % 0x1_0000_0000) as u32),
        le64(z).skip(4) == le32((z / 0x1_0000_0000) as u32),
{
    assert(le64(z).take(4) =~= le32((z % 0x1_0000_0000) as u32));
    assert(le64(z).skip(4) =~= le32((z / 0x1_0000_0000) as u32));
}

/// Numbers are read with their low bytes first.
pub proof fn law_low_bytes_are_read_first(s: Seq<u8>, at: int)
    ensures
        le16_at(s, at) == s[at] + 0x100 * s[at + 1],
        le32_at(s, at) == s[at] + 0x100 * s[at + 1] + 0x1_0000 * s[at + 2] + 0x100_0000 * s[at + 3],
        le64_at(s, at) == s[at] + 0x100 * s[at + 1] + 0x1_0000 * s[at + 2] + 0x100_0000 * s[at + 3]
            + 0x1_0000_0000 * (s[at + 4] + 0x100 * s[at + 5] + 0x1_0000 * s[at + 6] + 0x100_0000
            * s[at + 7]),
{
}

/// The halves of a number.
pub proof fn law_halves_of_a_number(x: u64, high: u32, low: u32)
    ensures
        0x1_0000_0000 * high_u32(x) + low_u32(x) == x,
        join_u32(high, low) == 0x1_0000_0000 * high + low,
{
}

/// What stands before the first place of a value does not hold it.
pub proof fn law_before_first<T>(a: Seq<T>, v: T, b: Seq<T>)
    requires
        !a.contains(v),
    ensures
        before_first(a + seq![v] + b, v) == a,
        before_first(a, v) == a,
{
    let s = a + seq![v] + b;
    let n = a.len() as int;
    assert forall|i: int| 0 <= i < n implies s[i] != v by {
        assert(s[i] == a[i]);
        assert(a.contains(a[i]));
    }
    assert(s[n] == v);
    lemma_index_unique(s, v, n);
    assert(s.take(n) =~= a);
    assert forall|i: int| 0 <= i < n implies a[i] != v by {
        assert(a.contains(a[i]));
    }
    lemma_index_unique(a, v, n);
    assert(a.take(n) =~= a);
}

} // verus!
