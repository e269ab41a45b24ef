//! The textual forms of IP addresses.
//!
//! `ipv4_text` and `ipv6_text` say which texts are address literals; `is_ipv4`
//! and `is_ipv6` decide it for a given text.
//!
//! An IPv4 literal is four decimal octets divided by `.`, each without a
//! leading zero. An IPv6 literal is eight hexadecimal groups divided by `:`,
//! where one `::` may stand for one or more groups of zeros and the last two
//! groups may be written as an IPv4 literal.
use vstd::prelude::*;

verus! {

/// An ASCII decimal digit.
pub open spec fn is_digit(c: char) -> bool {
    '0' <= c && c <= '9'
}

/// An ASCII hexadecimal digit, in either case.
pub open spec fn is_hex_digit(c: char) -> bool {
    is_digit(c) || ('a' <= c && c <= 'f') || ('A' <= c && c <= 'F')
}

/// The length of the longest prefix of `s` that is free of `sep`.
pub open spec fn field_len(s: Seq<char>, sep: char) -> nat
    decreases s.len(),
{
    if s.len() == 0 || s[0] == sep {
        0
    } else {
        1 + field_len(s.skip(1), sep)
    }
}

/// The pieces into which the occurrences of `sep` divide `s`, in their order.
/// A piece may be empty: the empty text is one empty piece.
pub open spec fn fields(s: Seq<char>, sep: char) -> Seq<Seq<char>>
    decreases s.len(),
{
    let n = field_len(s, sep);
    if n >= s.len() {
        seq![s]
    } else {
        seq![s.take(n as int)] + fields(s.skip(n + 1 as int), sep)
    }
}

/// The number that a run of decimal digits writes.
pub open spec fn number(s: Seq<char>) -> nat
    decreases s.len(),
{
    if s.len() == 0 {
        0
    } else {
        number(s.drop_last()) * 10 + (s.last() as nat - '0' as nat) as nat
    }
}

/// One to three decimal digits, without a leading zero, that write at most 255.
pub open spec fn octet_text(s: Seq<char>) -> bool {
    &&& 1 <= s.len() <= 3
    &&& forall|i: int| 0 <= i < s.len() ==> is_digit(#[trigger] s[i])
    &&& (s.len() > 1 ==> s[0] != '0')
    &&& number(s) <= 255
}

/// One to four hexadecimal digits.
pub open spec fn group_text(s: Seq<char>) -> bool {
    &&& 1 <= s.len() <= 4
    &&& forall|i: int| 0 <= i < s.len() ==> is_hex_digit(#[trigger] s[i])
}

/// Whether `s` is an IPv4 literal: exactly four octets divided by `.`.
pub open spec fn ipv4_text(s: Seq<char>) -> bool {
    let f = fields(s, '.');
    &&& f.len() == 4
    &&& forall|i: int| 0 <= i < 4 ==> octet_text(#[trigger] f[i])
}

/// How many 16-bit groups `s` writes as a list divided by `:`, if it is such a
/// list of at most eight. The empty text is the empty list. With `dotted`, the
/// last item may be an IPv4 literal, which counts for two groups.
pub open spec fn groups_written(s: Seq<char>, dotted: bool) -> Option<nat> {
    let f = fields(s, ':');
    if s.len() == 0 {
        Some(0)
    } else if f.len() > 8 {
        None
    } else if forall|i: int| 0 <= i < f.len() ==> group_text(#[trigger] f[i]) {
        Some(f.len())
    } else if dotted && ipv4_text(f.last()) && f.len() < 8 && forall|i: int|
        0 <= i < f.len() - 1 ==> group_text(#[trigger] f[i]) {
        Some(f.len() + 1)
    } else {
        None
    }
}

/// Whether `s` is an IPv6 literal whose `::` stands at `p`: groups before it,
/// groups (and perhaps a closing IPv4 literal) after it, at most seven in all.
pub open spec fn compressed_at(s: Seq<char>, p: int) -> bool {
    &&& 0 <= p
    &&& p + 2 <= s.len()
    &&& s[p] == ':'
    &&& s[p + 1] == ':'
    &&& groups_written(s.take(p), false) is Some
    &&& groups_written(s.skip(p + 2), true) is Some
    &&& groups_written(s.take(p), false)->0 + groups_written(s.skip(p + 2), true)->0 <= 7
}

/// Whether `s` is an IPv6 literal: eight groups written in full, or fewer
/// around one `::`.
pub open spec fn ipv6_text(s: Seq<char>) -> bool {
    groups_written(s, true) == Some(8nat) || exists|p: int| compressed_at(s, p)
}

/// Whether `s` is an IP address literal of either family.
pub open spec fn ip_text(s: Seq<char>) -> bool {
    ipv4_text(s) || ipv6_text(s)
}

/// A text with no separator before `k`, and the end or a separator at `k`,
/// has a first field of length `k`.
proof fn lemma_field_len(s: Seq<char>, sep: char, k: int)
    requires
        0 <= k <= s.len(),
        forall|i: int| 0 <= i < k ==> s[i] != sep,
        k < s.len() ==> s[k] == sep,
    ensures
        field_len(s, sep) == k,
    decreases k,
{
    if k > 0 {
        lemma_field_len(s.skip(1), sep, k - 1);
    }
}

/// A text always divides into at least one field.
proof fn lemma_fields_nonempty(s: Seq<char>, sep: char)
    ensures
        fields(s, sep).len() >= 1,
{
}

/// The views of the given slices.
pub open spec fn texts(parts: Seq<&[char]>) -> Seq<Seq<char>> {
    parts.map_values(|p: &[char]| p@)
}

/// Divides `s` at every occurrence of `sep`.
pub fn split<'a>(s: &'a [char], sep: char) -> (parts: Vec<&'a [char]>)
    ensures
        texts(parts@) == fields(s@, sep),
{
    let mut parts: Vec<&'a [char]> = Vec::new();
    let mut start: usize = 0;
    let mut i: usize = 0;
    proof {
        assert(s@.skip(0) == s@);
        assert(texts(parts@) + fields(s@, sep) == fields(s@, sep));
    }
    while i < s.len()
        invariant
            start <= i <= s.len(),
            forall|j: int| start <= j < i ==> s@[j] != sep,
            fields(s@, sep) == texts(parts@) + fields(s@.skip(start as int), sep),
        decreases s.len() - i,
    {
        if s[i] == sep {
            let part = &s[start..i];
            proof {
                let rest = s@.skip(start as int);
                lemma_field_len(rest, sep, i - start);
                assert(rest.take(i - start) == part@);
                assert(rest.skip(i - start + 1) == s@.skip(i + 1));
                assert(texts(parts@.push(part)) == texts(parts@).push(part@));
                assert(texts(parts@) + (seq![part@] + fields(s@.skip(i + 1), sep)) == texts(
                    parts@,
                ).push(part@) + fields(s@.skip(i + 1), sep));
            }
            parts.push(part);
            start = i + 1;
        }
        i += 1;
    }
    let part = &s[start..s.len()];
    proof {
        let rest = s@.skip(start as int);
        lemma_field_len(rest, sep, s.len() - start);
        assert(rest == part@);
        assert(texts(parts@.push(part)) == texts(parts@).push(part@));
        assert(texts(parts@) + seq![part@] == texts(parts@).push(part@));
    }
    parts.push(part);
    parts
}

/// Decides `octet_text`.
pub fn is_octet(s: &[char]) -> (yes: bool)
    ensures
        yes == octet_text(s@),
{
    let n = s.len();
    if n < 1 || n > 3 {
        return false;
    }
    let mut value: u32 = 0;
    let mut i: usize = 0;
    while i < n
        invariant
            n == s.len(),
            i <= n <= 3,
            forall|j: int| 0 <= j < i ==> is_digit(#[trigger] s@[j]),
            value == number(s@.take(i as int)),
            i == 0 ==> value == 0,
            i == 1 ==> value <= 9,
            i == 2 ==> value <= 99,
        decreases n - i,
    {
        let c = s[i];
        if c < '0' || c > '9' {
            return false;
        }
        proof {
            let next = s@.take(i + 1);
            assert(next.drop_last() == s@.take(i as int));
            assert(next.last() == c);
        }
        value = value * 10 + (c as u32 - '0' as u32);
        i += 1;
    }
    assert(s@.take(n as int) == s@);
    if n > 1 && s[0] == '0' {
        return false;
    }
    value <= 255
}

/// Decides `group_text`.
pub fn is_group(s: &[char]) -> (yes: bool)
    ensures
        yes == group_text(s@),
{
    let n = s.len();
    if n < 1 || n > 4 {
        return false;
    }
    let mut i: usize = 0;
    while i < n
        invariant
            n == s.len(),
            i <= n,
            forall|j: int| 0 <= j < i ==> is_hex_digit(#[trigger] s@[j]),
        decreases n - i,
    {
        let c = s[i];
        let hex = ('0' <= c && c <= '9') || ('a' <= c && c <= 'f') || ('A' <= c && c <= 'F');
        if !hex {
            return false;
        }
        i += 1;
    }
    true
}

/// Decides `ipv4_text`.
pub fn is_ipv4(s: &[char]) -> (yes: bool)
    ensures
        yes == ipv4_text(s@),
{
    let parts = split(s, '.');
    if parts.len() != 4 {
        return false;
    }
    let mut i: usize = 0;
    while i < 4
        invariant
            i <= 4,
            parts@.len() == 4,
            texts(parts@) == fields(s@, '.'),
            forall|j: int| 0 <= j < i ==> octet_text(#[trigger] fields(s@, '.')[j]),
        decreases 4 - i,
    {
        assert(texts(parts@)[i as int] == parts@[i as int]@);
        if !is_octet(parts[i]) {
            return false;
        }
        i += 1;
    }
    true
}

/// Computes `groups_written`.
pub fn groups(s: &[char], dotted: bool) -> (count: Option<usize>)
    ensures
        groups_written(s@, dotted) == match count {
            Some(n) => Some(n as nat),
            None => None,
        },
{
    if s.len() == 0 {
        return Some(0);
    }
    let parts = split(s, ':');
    let n = parts.len();
    if n > 8 {
        return None;
    }
    proof {
        lemma_fields_nonempty(s@, ':');
    }
    let ghost f = fields(s@, ':');
    let mut i: usize = 0;
    while i + 1 < n
        invariant
            s@.len() > 0,
            1 <= n <= 8,
            n == parts@.len(),
            i + 1 <= n,
            f == fields(s@, ':'),
            texts(parts@) == f,
            forall|j: int| 0 <= j < i ==> group_text(#[trigger] f[j]),
        decreases n - i,
    {
        assert(texts(parts@)[i as int] == parts@[i as int]@);
        if !is_group(parts[i]) {
            assert(!group_text(f[i as int]));
            return None;
        }
        i += 1;
    }
    assert(texts(parts@)[n - 1] == parts@[n - 1]@);
    assert(f.last() == f[n - 1]);
    if is_group(parts[n - 1]) {
        Some(n)
    } else if dotted && n < 8 && is_ipv4(parts[n - 1]) {
        Some(n + 1)
    } else {
        None
    }
}

/// Decides `ipv6_text`.
pub fn is_ipv6(s: &[char]) -> (yes: bool)
    ensures
        yes == ipv6_text(s@),
{
    let full = groups(s, true);
    if full.is_some() && full.unwrap() == 8 {
        return true;
    }
    let n = s.len();
    if n < 2 {
        return false;
    }
    let mut p: usize = 0;
    while p < n - 1
        invariant
            2 <= n == s.len(),
            p <= n - 1,
            !(groups_written(s@, true) == Some(8nat)),
            forall|q: int| 0 <= q < p ==> !compressed_at(s@, q),
        decreases n - p,
    {
        if s[p] == ':' && s[p + 1] == ':' {
            let head = groups(&s[0..p], false);
            let tail = groups(&s[p + 2..n], true);
            assert(s@.subrange(0, p as int) == s@.take(p as int));
            assert(s@.subrange(p + 2, n as int) == s@.skip(p + 2));
            if head.is_some() && tail.is_some() {
                if head.unwrap() + tail.unwrap() <= 7 {
                    assert(compressed_at(s@, p as int));
                    return true;
                }
            }
        }
        p += 1;
    }
    assert(forall|q: int| !compressed_at(s@, q));
    false
}

/// Decides `ip_text`.
pub fn is_ip(s: &[char]) -> (yes: bool)
    ensures
        yes == ip_text(s@),
{
    is_ipv4(s) || is_ipv6(s)
}

} // verus!
