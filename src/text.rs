//! Character-level helpers: splitting on a delimiter, substring search,
//! equality and decimal parsing, each with its mathematical meaning.

use vstd::prelude::*;

verus! {

/// The pieces of `s` between occurrences of `d`, as `str::split` gives them:
/// always at least one piece, empty pieces kept.
pub open spec fn split_seq(s: Seq<char>, d: char) -> Seq<Seq<char>>
    decreases s.len(),
{
    if s.len() == 0 {
        seq![Seq::<char>::empty()]
    } else {
        let prev = split_seq(s.drop_last(), d);
        if s.last() == d {
            prev.push(Seq::<char>::empty())
        } else {
            prev.update(prev.len() - 1, prev.last().push(s.last()))
        }
    }
}

/// Splitting never yields an empty list of pieces.
pub proof fn lemma_split_nonempty(s: Seq<char>, d: char)
    ensures
        split_seq(s, d).len() >= 1,
    decreases s.len(),
{
    if s.len() > 0 {
        lemma_split_nonempty(s.drop_last(), d);
    }
}

/// Whether `n` occurs in `h` as a contiguous run.
pub open spec fn has_substring(h: Seq<char>, n: Seq<char>) -> bool {
    exists|i: int| 0 <= i && i + n.len() <= h.len() && #[trigger] h.subrange(i, i + n.len()) == n
}

pub open spec fn is_digit(c: char) -> bool {
    '0' <= c && c <= '9'
}

/// The number written by the decimal digits of `s` (no sign, leading zeros allowed).
pub open spec fn digits_value(s: Seq<char>) -> int
    decreases s.len(),
{
    if s.len() == 0 {
        0
    } else {
        digits_value(s.drop_last()) * 10 + (s.last() as int - '0' as int)
    }
}

/// A version component: one or more decimal digits whose value fits in `i8`.
pub open spec fn component_of(s: Seq<char>) -> Option<i8> {
    if s.len() > 0 && (forall|k: int| 0 <= k < s.len() ==> is_digit(#[trigger] s[k]))
        && digits_value(s) <= 127 {
        Some(digits_value(s) as i8)
    } else {
        None
    }
}

/// Splits `s` at every `d`.
pub fn split_str(s: &str, d: char) -> (r: Vec<String>)
    ensures
        r@.map_values(|t: String| t@) == split_seq(s@, d),
{
    let n = s.unicode_len();
    let mut out: Vec<String> = Vec::new();
    let mut start: usize = 0;
    let mut i: usize = 0;
    assert(s@.take(0) =~= Seq::<char>::empty());
    assert(s@.subrange(0, 0) =~= Seq::<char>::empty());
    assert(out@.map_values(|t: String| t@).push(s@.subrange(0, 0)) =~= seq![Seq::<char>::empty()]);
    while i < n
        invariant
            n == s@.len(),
            start <= i <= n,
            split_seq(s@.take(i as int), d) == out@.map_values(|t: String| t@).push(
                s@.subrange(start as int, i as int),
            ),
        decreases n - i,
    {
        let c = s.get_char(i);
        let ghost prev = out@.map_values(|t: String| t@);
        let ghost before = split_seq(s@.take(i as int), d);
        assert(s@.take(i + 1).drop_last() =~= s@.take(i as int));
        assert(s@.take(i + 1).last() == c);
        proof {
            lemma_split_nonempty(s@.take(i as int), d);
        }
        if c == d {
            assert(split_seq(s@.take(i + 1), d) == before.push(Seq::<char>::empty()));
            let piece = s.substring_char(start, i).to_owned();
            out.push(piece);
            assert(out@.map_values(|t: String| t@) =~= prev.push(s@.subrange(start as int, i as int)));
            start = i + 1;
            assert(s@.subrange(start as int, i + 1) =~= Seq::<char>::empty());
            assert(split_seq(s@.take(i + 1), d) =~= out@.map_values(|t: String| t@).push(
                s@.subrange(start as int, i + 1),
            ));
        } else {
            assert(split_seq(s@.take(i + 1), d) == before.update(
                before.len() - 1,
                before.last().push(c),
            ));
            assert(s@.subrange(start as int, i + 1) =~= s@.subrange(start as int, i as int).push(c));
            assert(split_seq(s@.take(i + 1), d) =~= out@.map_values(|t: String| t@).push(
                s@.subrange(start as int, i + 1),
            ));
        }
        i = i + 1;
    }
    assert(s@.take(n as int) =~= s@);
    let last = s.substring_char(start, n).to_owned();
    let ghost prev = out@.map_values(|t: String| t@);
    out.push(last);
    assert(out@.map_values(|t: String| t@) =~= prev.push(s@.subrange(start as int, n as int)));
    out
}

/// Whether `a` and `b` hold the same characters.
pub fn str_eq(a: &str, b: &str) -> (r: bool)
    ensures
        r == (a@ == b@),
{
    let n = a.unicode_len();
    let m = b.unicode_len();
    if n != m {
        return false;
    }
    let mut i: usize = 0;
    while i < n
        invariant
            n == a@.len(),
            n == b@.len(),
            i <= n,
            forall|k: int| 0 <= k < i ==> a@[k] == b@[k],
        decreases n - i,
    {
        if a.get_char(i) != b.get_char(i) {
            return false;
        }
        i = i + 1;
    }
    assert(a@ =~= b@);
    true
}

/// Whether `n` occurs at position `at` of `h`.
fn occurs_at(h: &str, n: &str, at: usize) -> (r: bool)
    requires
        at + n@.len() <= h@.len(),
        h@.len() <= usize::MAX,
    ensures
        r == (h@.subrange(at as int, at + n@.len()) == n@),
{
    let m = n.unicode_len();
    let mut j: usize = 0;
    while j < m
        invariant
            m == n@.len(),
            at + m <= h@.len(),
            h@.len() <= usize::MAX,
            j <= m,
            forall|k: int| 0 <= k < j ==> h@[at + k] == n@[k],
        decreases m - j,
    {
        if h.get_char(at + j) != n.get_char(j) {
            assert(h@.subrange(at as int, at + m)[j as int] != n@[j as int]);
            return false;
        }
        j = j + 1;
    }
    assert(h@.subrange(at as int, at + m) =~= n@);
    true
}

/// Whether `n` occurs in `h`.
pub fn contains_str(h: &str, n: &str) -> (r: bool)
    ensures
        r == has_substring(h@, n@),
{
    let hl = h.unicode_len();
    let nl = n.unicode_len();
    if nl > hl {
        return false;
    }
    let last = hl - nl;
    let mut i: usize = 0;
    loop
        invariant
            hl == h@.len(),
            nl == n@.len(),
            last + nl == hl,
            i <= last,
            forall|k: int| 0 <= k < i ==> #[trigger] h@.subrange(k, k + nl) != n@,
        decreases last - i,
    {
        if occurs_at(h, n, i) {
            return true;
        }
        if i == last {
            return false;
        }
        i = i + 1;
    }
}

/// Reads a version component: decimal digits only, value at most 127.
pub fn parse_component(s: &str) -> (r: Option<i8>)
    ensures
        r == component_of(s@),
{
    let n = s.unicode_len();
    if n == 0 {
        return None;
    }
    let mut acc: u32 = 0;
    let mut i: usize = 0;
    while i < n
        invariant
            n == s@.len(),
            i <= n,
            forall|k: int| 0 <= k < i ==> is_digit(#[trigger] s@[k]),
            acc <= 128,
            acc < 128 ==> digits_value(s@.take(i as int)) == acc,
            acc == 128 ==> digits_value(s@.take(i as int)) >= 128,
        decreases n - i,
    {
        let c = s.get_char(i);
        if !('0' <= c && c <= '9') {
            return None;
        }
        assert(s@.take(i + 1).drop_last() =~= s@.take(i as int));
        let digit = (c as u32) - ('0' as u32);
        if acc < 128 {
            let next = acc * 10 + digit;
            acc = if next > 128 { 128 } else { next };
        }
        i = i + 1;
    }
    assert(s@.take(n as int) =~= s@);
    if acc < 128 {
        Some(acc as i8)
    } else {
        None
    }
}

} // verus!
