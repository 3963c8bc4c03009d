//! Byte-string primitives shared by the parsing and rewriting logic.
//!
//! All text handled by this library (paths, URLs, file contents, command
//! output) is modelled as bytes, so every contract here speaks of `Seq<u8>`.

use vstd::prelude::*;

verus! {

/// True when `pat` occurs in `s` starting at position `i`.
pub open spec fn matches_at(s: Seq<u8>, pat: Seq<u8>, i: int) -> bool {
    &&& 0 <= i
    &&& i + pat.len() <= s.len()
    &&& s.subrange(i, i + pat.len()) == pat
}

/// True when `pat` occurs somewhere in `s`.
pub open spec fn contains_seq(s: Seq<u8>, pat: Seq<u8>) -> bool {
    exists|i: int| matches_at(s, pat, i)
}

/// True when `pat` is a prefix of `s`.
pub open spec fn has_prefix(s: Seq<u8>, pat: Seq<u8>) -> bool {
    matches_at(s, pat, 0)
}

/// True when `pat` is a suffix of `s`.
pub open spec fn has_suffix(s: Seq<u8>, pat: Seq<u8>) -> bool {
    matches_at(s, pat, s.len() - pat.len())
}

/// Whether `pat` occurs in `s` at position `i`, decided byte by byte.
pub fn is_match_at(s: &[u8], pat: &[u8], i: usize) -> (r: bool)
    requires
        i + pat@.len() <= s@.len(),
    ensures
        r == matches_at(s@, pat@, i as int),
{
    let n = s.len();
    let m = pat.len();
    let mut j: usize = 0;
    while j < m
        invariant
            0 <= j <= m,
            m == pat@.len(),
            n == s@.len(),
            i + m <= n,
            forall|k: int| 0 <= k < j ==> s@[i + k] == pat@[k],
        decreases m - j,
    {
        if s[i + j] != pat[j] {
            proof {
                assert(s@.subrange(i as int, i + pat@.len())[j as int] != pat@[j as int]);
            }
            return false;
        }
        j += 1;
    }
    proof {
        assert(s@.subrange(i as int, i + pat@.len()) =~= pat@);
    }
    true
}

/// Whether `s` starts with `pat`.
pub fn starts_with(s: &[u8], pat: &[u8]) -> (r: bool)
    ensures
        r == has_prefix(s@, pat@),
{
    if pat.len() > s.len() {
        return false;
    }
    is_match_at(s, pat, 0)
}

/// Whether `s` ends with `pat`.
pub fn ends_with(s: &[u8], pat: &[u8]) -> (r: bool)
    ensures
        r == has_suffix(s@, pat@),
{
    if pat.len() > s.len() {
        return false;
    }
    is_match_at(s, pat, s.len() - pat.len())
}

/// Position of the first occurrence of `pat` in `s`, if any.
pub fn find_first(s: &[u8], pat: &[u8]) -> (r: Option<usize>)
    ensures
        match r {
            Some(i) => {
                &&& matches_at(s@, pat@, i as int)
                &&& forall|k: int| 0 <= k < i ==> !matches_at(s@, pat@, k)
            },
            None => !contains_seq(s@, pat@),
        },
{
    let n = s.len();
    let m = pat.len();
    if m > n {
        return None;
    }
    if m == 0 {
        proof {
            assert(matches_at(s@, pat@, 0)) by {
                assert(s@.subrange(0, 0) =~= pat@);
            }
        }
        return Some(0);
    }
    let mut i: usize = 0;
    while i <= n - m
        invariant
            0 <= i <= n - m + 1,
            1 <= m <= n,
            n == s@.len(),
            m == pat@.len(),
            forall|k: int| 0 <= k < i ==> !matches_at(s@, pat@, k),
        decreases n - m - i + 1,
    {
        if is_match_at(s, pat, i) {
            return Some(i);
        }
        i += 1;
    }
    proof {
        assert(forall|k: int| matches_at(s@, pat@, k) ==> 0 <= k <= n - m);
    }
    None
}

/// Whether `pat` occurs anywhere in `s`.
pub fn contains(s: &[u8], pat: &[u8]) -> (r: bool)
    ensures
        r == contains_seq(s@, pat@),
{
    find_first(s, pat).is_some()
}

/// Position of the first occurrence of byte `b` in `s` at or after `from`.
pub fn find_byte_from(s: &[u8], b: u8, from: usize) -> (r: Option<usize>)
    requires
        from <= s@.len(),
    ensures
        match r {
            Some(i) => {
                &&& from <= i < s@.len()
                &&& s@[i as int] == b
                &&& forall|k: int| from <= k < i ==> s@[k] != b
            },
            None => forall|k: int| from <= k < s@.len() ==> s@[k] != b,
        },
{
    let n = s.len();
    let mut i: usize = from;
    while i < n
        invariant
            from <= i <= n,
            n == s@.len(),
            forall|k: int| from <= k < i ==> s@[k] != b,
        decreases n - i,
    {
        if s[i] == b {
            return Some(i);
        }
        i += 1;
    }
    None
}

/// The position of the first occurrence of byte `b` in `s`, if any.
pub open spec fn index_of_first(s: Seq<u8>, b: u8) -> Option<int>
    decreases s.len(),
{
    if s.len() == 0 {
        None
    } else if s[0] == b {
        Some(0int)
    } else {
        match index_of_first(s.skip(1), b) {
            Some(i) => Some(i + 1),
            None => None,
        }
    }
}

/// A first occurrence, found any which way, settles `index_of_first`.
pub proof fn lemma_index_of_first_is(s: Seq<u8>, b: u8, i: int)
    requires
        0 <= i < s.len(),
        s[i] == b,
        forall|k: int| 0 <= k < i ==> s[k] != b,
    ensures
        index_of_first(s, b) == Some(i),
    decreases i,
{
    if i > 0 {
        lemma_index_of_first_is(s.skip(1), b, i - 1);
    }
}

/// No occurrence at all settles `index_of_first` as `None`.
pub proof fn lemma_index_of_first_none(s: Seq<u8>, b: u8)
    requires
        forall|k: int| 0 <= k < s.len() ==> s[k] != b,
    ensures
        index_of_first(s, b) is None,
    decreases s.len(),
{
    if s.len() > 0 {
        lemma_index_of_first_none(s.skip(1), b);
    }
}

/// Whether two byte strings hold the same bytes.
pub fn bytes_eq(a: &[u8], b: &[u8]) -> (r: bool)
    ensures
        r == (a@ == b@),
{
    if a.len() != b.len() {
        proof {
            assert(a@ != b@);
        }
        return false;
    }
    let r = is_match_at(a, b, 0);
    proof {
        assert(a@.subrange(0, b@.len() as int) =~= a@);
    }
    r
}

/// Position of the last occurrence of byte `b` in `s`.
pub fn rfind_byte(s: &[u8], b: u8) -> (r: Option<usize>)
    ensures
        match r {
            Some(i) => {
                &&& i < s@.len()
                &&& s@[i as int] == b
                &&& forall|k: int| i < k < s@.len() ==> s@[k] != b
            },
            None => forall|k: int| 0 <= k < s@.len() ==> s@[k] != b,
        },
{
    let n = s.len();
    let mut i: usize = n;
    while i > 0
        invariant
            0 <= i <= n,
            n == s@.len(),
            forall|k: int| i <= k < n ==> s@[k] != b,
        decreases i,
    {
        i -= 1;
        if s[i] == b {
            return Some(i);
        }
    }
    None
}

/// Copy of `s[lo..hi]` as an owned vector.
pub fn copy_range(s: &[u8], lo: usize, hi: usize) -> (r: Vec<u8>)
    requires
        lo <= hi <= s@.len(),
    ensures
        r@ == s@.subrange(lo as int, hi as int),
{
    let mut out: Vec<u8> = Vec::new();
    let mut i: usize = lo;
    while i < hi
        invariant
            lo <= i <= hi <= s@.len(),
            out@ == s@.subrange(lo as int, i as int),
        decreases hi - i,
    {
        out.push(s[i]);
        proof {
            assert(out@ =~= s@.subrange(lo as int, i + 1 as int));
        }
        i += 1;
    }
    out
}

/// Appends all of `src` to `dst`.
pub fn push_all(dst: &mut Vec<u8>, src: &[u8])
    ensures
        final(dst)@ == old(dst)@ + src@,
{
    let n = src.len();
    let mut i: usize = 0;
    while i < n
        invariant
            0 <= i <= n,
            n == src@.len(),
            dst@ == old(dst)@ + src@.subrange(0, i as int),
        decreases n - i,
    {
        dst.push(src[i]);
        proof {
            assert(dst@ =~= old(dst)@ + src@.subrange(0, i + 1 as int));
        }
        i += 1;
    }
    proof {
        assert(dst@ =~= old(dst)@ + src@);
    }
}

/// `s` with every occurrence of `f` replaced by `t`, scanning left to right
/// and never rescanning replaced text, as `str::replace` does.
pub open spec fn replace_all(s: Seq<u8>, f: Seq<u8>, t: Seq<u8>) -> Seq<u8>
    decreases s.len(),
{
    if f.len() == 0 {
        s
    } else if s.len() >= f.len() && s.subrange(0, f.len() as int) == f {
        t + replace_all(s.skip(f.len() as int), f, t)
    } else if s.len() == 0 {
        Seq::empty()
    } else {
        seq![s[0]] + replace_all(s.skip(1), f, t)
    }
}

/// Replaces every occurrence of `f` in `s` by `t`, left to right.
pub fn replace_all_bytes(s: &[u8], f: &[u8], t: &[u8]) -> (r: Vec<u8>)
    requires
        f@.len() > 0,
    ensures
        r@ == replace_all(s@, f@, t@),
{
    let n = s.len();
    let m = f.len();
    let mut out: Vec<u8> = Vec::new();
    let mut i: usize = 0;
    proof {
        assert(s@.skip(0) =~= s@);
        assert(Seq::<u8>::empty() + replace_all(s@, f@, t@) =~= replace_all(s@, f@, t@));
    }
    while i < n
        invariant
            0 <= i <= n,
            n == s@.len(),
            m == f@.len(),
            1 <= m,
            replace_all(s@, f@, t@) == out@ + replace_all(s@.skip(i as int), f@, t@),
        decreases n - i,
    {
        let ghost rest = s@.skip(i as int);
        if n - i >= m && is_match_at(s, f, i) {
            push_all(&mut out, t);
            proof {
                assert(rest.subrange(0, m as int) =~= s@.subrange(i as int, i + m));
                assert(rest.skip(m as int) =~= s@.skip(i + m));
                assert(replace_all(rest, f@, t@) == t@ + replace_all(s@.skip(i + m), f@, t@));
                assert(out@ + replace_all(s@.skip(i + m), f@, t@) =~= replace_all(s@, f@, t@));
            }
            i += m;
        } else {
            out.push(s[i]);
            proof {
                if rest.len() >= m {
                    assert(!matches_at(s@, f@, i as int));
                    assert(rest.subrange(0, m as int) =~= s@.subrange(i as int, i + m));
                }
                assert(rest.skip(1) =~= s@.skip(i + 1));
                assert(replace_all(rest, f@, t@) == seq![s@[i as int]] + replace_all(
                    s@.skip(i + 1),
                    f@,
                    t@,
                ));
                assert(out@ + replace_all(s@.skip(i + 1), f@, t@) =~= replace_all(s@, f@, t@));
            }
            i += 1;
        }
    }
    proof {
        assert(s@.skip(n as int) =~= Seq::<u8>::empty());
        assert(replace_all(s@.skip(n as int), f@, t@) =~= Seq::<u8>::empty());
        assert(out@ =~= replace_all(s@, f@, t@));
    }
    out
}

/// Replacement by an equally long pattern keeps the length of the text.
pub proof fn lemma_replace_all_len(s: Seq<u8>, f: Seq<u8>, t: Seq<u8>)
    requires
        f.len() == t.len(),
        f.len() > 0,
    ensures
        replace_all(s, f, t).len() == s.len(),
    decreases s.len(),
{
    if s.len() >= f.len() && s.subrange(0, f.len() as int) == f {
        lemma_replace_all_len(s.skip(f.len() as int), f, t);
    } else if s.len() > 0 {
        lemma_replace_all_len(s.skip(1), f, t);
    }
}

/// When `f` and `t` agree everywhere except at one position `d`, the
/// replacement changes a byte only from `f[d]` to `t[d]`.
pub proof fn lemma_replace_all_pointwise(s: Seq<u8>, f: Seq<u8>, t: Seq<u8>, d: int)
    requires
        f.len() == t.len(),
        f.len() > 0,
        0 <= d < f.len(),
        forall|j: int| 0 <= j < f.len() && j != d ==> f[j] == t[j],
    ensures
        replace_all(s, f, t).len() == s.len(),
        forall|k: int|
            0 <= k < s.len() ==> {
                ||| replace_all(s, f, t)[k] == s[k]
                ||| (s[k] == f[d] && replace_all(s, f, t)[k] == t[d])
            },
    decreases s.len(),
{
    lemma_replace_all_len(s, f, t);
    if s.len() >= f.len() && s.subrange(0, f.len() as int) == f {
        let rest = s.skip(f.len() as int);
        lemma_replace_all_pointwise(rest, f, t, d);
        lemma_replace_all_len(rest, f, t);
        assert forall|k: int| 0 <= k < s.len() implies {
            ||| replace_all(s, f, t)[k] == s[k]
            ||| (s[k] == f[d] && replace_all(s, f, t)[k] == t[d])
        } by {
            if k < f.len() {
                assert(s[k] == s.subrange(0, f.len() as int)[k]);
                assert(replace_all(s, f, t)[k] == t[k]);
            } else {
                assert(replace_all(s, f, t)[k] == replace_all(rest, f, t)[k - f.len()]);
                assert(s[k] == rest[k - f.len()]);
            }
        }
    } else if s.len() > 0 {
        let rest = s.skip(1);
        lemma_replace_all_pointwise(rest, f, t, d);
        lemma_replace_all_len(rest, f, t);
        assert forall|k: int| 0 <= k < s.len() implies {
            ||| replace_all(s, f, t)[k] == s[k]
            ||| (s[k] == f[d] && replace_all(s, f, t)[k] == t[d])
        } by {
            if k > 0 {
                assert(replace_all(s, f, t)[k] == replace_all(rest, f, t)[k - 1]);
                assert(s[k] == rest[k - 1]);
            }
        }
    }
}

/// What stands after the first newline of `s`, if `s` has one.
pub open spec fn after_first_newline(s: Seq<u8>) -> Option<Seq<u8>>
    decreases s.len(),
{
    if s.len() == 0 {
        None
    } else if s[0] == 10 {
        Some(s.skip(1))
    } else {
        after_first_newline(s.skip(1))
    }
}

/// The bytes of `s` before its first newline, or all of `s`.
pub open spec fn first_line_raw(s: Seq<u8>) -> Seq<u8>
    decreases s.len(),
{
    if s.len() == 0 {
        Seq::empty()
    } else if s[0] == 10 {
        Seq::empty()
    } else {
        seq![s[0]] + first_line_raw(s.skip(1))
    }
}

/// A line with one trailing carriage return removed, as the line iterator of
/// the standard library reports lines.
pub open spec fn strip_cr(l: Seq<u8>) -> Seq<u8> {
    if l.len() > 0 && l[l.len() - 1] == 13 {
        l.take(l.len() - 1)
    } else {
        l
    }
}

/// The third line of `s`, when `s` has one.
pub open spec fn third_line(s: Seq<u8>) -> Option<Seq<u8>> {
    match after_first_newline(s) {
        None => None,
        Some(r1) => match after_first_newline(r1) {
            None => None,
            Some(r2) => if r2.len() == 0 {
                None
            } else {
                Some(strip_cr(first_line_raw(r2)))
            },
        },
    }
}

pub proof fn lemma_after_first_newline_at(s: Seq<u8>, i: int)
    requires
        0 <= i < s.len(),
        s[i] == 10,
        forall|k: int| 0 <= k < i ==> s[k] != 10,
    ensures
        after_first_newline(s) == Some(s.skip(i + 1)),
    decreases i,
{
    if i > 0 {
        lemma_after_first_newline_at(s.skip(1), i - 1);
        assert(s.skip(1).skip(i) =~= s.skip(i + 1));
    }
}

pub proof fn lemma_after_first_newline_none(s: Seq<u8>)
    requires
        forall|k: int| 0 <= k < s.len() ==> s[k] != 10,
    ensures
        after_first_newline(s) is None,
    decreases s.len(),
{
    if s.len() > 0 {
        lemma_after_first_newline_none(s.skip(1));
    }
}

pub proof fn lemma_first_line_raw_at(s: Seq<u8>, i: int)
    requires
        0 <= i < s.len(),
        s[i] == 10,
        forall|k: int| 0 <= k < i ==> s[k] != 10,
    ensures
        first_line_raw(s) == s.take(i),
    decreases i,
{
    if i == 0 {
        assert(s.take(0) =~= Seq::<u8>::empty());
    } else {
        lemma_first_line_raw_at(s.skip(1), i - 1);
        assert(seq![s[0]] + s.skip(1).take(i - 1) =~= s.take(i));
    }
}

pub proof fn lemma_first_line_raw_none(s: Seq<u8>)
    requires
        forall|k: int| 0 <= k < s.len() ==> s[k] != 10,
    ensures
        first_line_raw(s) == s,
    decreases s.len(),
{
    if s.len() > 0 {
        lemma_first_line_raw_none(s.skip(1));
        assert(seq![s[0]] + s.skip(1) =~= s);
    }
}

/// The lines of a text, split at newlines, each with one trailing carriage
/// return removed, and with no empty line reported after a final newline —
/// as the line iterator of the standard library reports them.
pub open spec fn lines_spec(s: Seq<u8>) -> Seq<Seq<u8>>
    decreases s.len(),
    via lines_spec_decreases
{
    if s.len() == 0 {
        Seq::empty()
    } else {
        match after_first_newline(s) {
            None => seq![strip_cr(first_line_raw(s))],
            Some(r) => seq![strip_cr(first_line_raw(s))] + lines_spec(r),
        }
    }
}

#[via_fn]
proof fn lines_spec_decreases(s: Seq<u8>) {
    lemma_after_first_newline_shrinks(s);
}

/// What stands after the first newline is shorter than the whole.
pub proof fn lemma_after_first_newline_shrinks(s: Seq<u8>)
    ensures
        match after_first_newline(s) {
            Some(r) => r.len() < s.len(),
            None => true,
        },
    decreases s.len(),
{
    if s.len() > 0 && s[0] != 10 {
        lemma_after_first_newline_shrinks(s.skip(1));
    }
}

/// The view of an optional borrowed byte string.
pub open spec fn opt_view(o: Option<&Vec<u8>>) -> Option<Seq<u8>> {
    match o {
        Some(v) => Some(v@),
        None => None,
    }
}

/// The view of an optional owned byte string.
pub open spec fn opt_view_owned(o: Option<Vec<u8>>) -> Option<Seq<u8>> {
    match o {
        Some(v) => Some(v@),
        None => None,
    }
}

} // verus!
