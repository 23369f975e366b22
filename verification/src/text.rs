//! Character-sequence utilities shared by the parser and the pretty-printer:
//! case-insensitive comparison, substring search, trimming, and line
//! splitting, each an executable function proved against a spec function.

use vstd::prelude::*;
use vstd::string::*;

verus! {

/// Unicode scalar value of `c`, with ASCII uppercase letters mapped to
/// their lowercase counterparts.
pub open spec fn lower_code(c: char) -> u32 {
    if 65 <= c as u32 && c as u32 <= 90 {
        (c as u32 + 32) as u32
    } else {
        c as u32
    }
}

/// ASCII-case-insensitive equality of two character sequences.
pub open spec fn eq_icase(a: Seq<char>, b: Seq<char>) -> bool
    decreases a.len(),
{
    if a.len() != b.len() {
        false
    } else if a.len() == 0 {
        true
    } else {
        lower_code(a[0]) == lower_code(b[0]) && eq_icase(
            a.subrange(1, a.len() as int),
            b.subrange(1, b.len() as int),
        )
    }
}

proof fn lemma_eq_icase_unfold_at(a: Seq<char>, b: Seq<char>, i: int)
    requires
        a.len() == b.len(),
        0 <= i < a.len(),
    ensures
        eq_icase(a.subrange(i, a.len() as int), b.subrange(i, b.len() as int)) == (lower_code(a[i])
            == lower_code(b[i]) && eq_icase(
            a.subrange(i + 1, a.len() as int),
            b.subrange(i + 1, b.len() as int),
        )),
{
    let x = a.subrange(i, a.len() as int);
    let y = b.subrange(i, b.len() as int);
    assert(x[0] == a[i]);
    assert(y[0] == b[i]);
    assert(x.subrange(1, x.len() as int) =~= a.subrange(i + 1, a.len() as int));
    assert(y.subrange(1, y.len() as int) =~= b.subrange(i + 1, b.len() as int));
}

/// Compares two strings for equality, ignoring ASCII case.
pub fn eq_ignore_case(a: &str, b: &str) -> (r: bool)
    ensures
        r == eq_icase(a@, b@),
{
    let alen = a.unicode_len();
    let blen = b.unicode_len();
    if alen != blen {
        return false;
    }
    let mut i: usize = 0;
    proof {
        assert(a@.subrange(0, alen as int) =~= a@);
        assert(b@.subrange(0, blen as int) =~= b@);
    }
    while i < alen
        invariant
            alen == a@.len(),
            alen == b@.len(),
            blen == alen,
            0 <= i <= alen,
            eq_icase(a@, b@) == eq_icase(
                a@.subrange(i as int, alen as int),
                b@.subrange(i as int, blen as int),
            ),
        decreases alen - i,
    {
        let ca = a.get_char(i);
        let cb = b.get_char(i);
        let code_a: u32 = ca as u32;
        let code_b: u32 = cb as u32;
        let la: u32 = if 65 <= code_a && code_a <= 90 {
            code_a + 32
        } else {
            code_a
        };
        let lb: u32 = if 65 <= code_b && code_b <= 90 {
            code_b + 32
        } else {
            code_b
        };
        proof {
            lemma_eq_icase_unfold_at(a@, b@, i as int);
        }
        if la != lb {
            return false;
        }
        i = i + 1;
    }
    proof {
        assert(a@.subrange(alen as int, alen as int) =~= Seq::<char>::empty());
        assert(b@.subrange(alen as int, blen as int) =~= Seq::<char>::empty());
    }
    true
}

/// Case-insensitive equality is reflexive.
pub proof fn lemma_eq_icase_refl(a: Seq<char>)
    ensures
        eq_icase(a, a),
    decreases a.len(),
{
    if a.len() > 0 {
        lemma_eq_icase_refl(a.subrange(1, a.len() as int));
    }
}

/// Case-insensitive equality is symmetric.
pub proof fn lemma_eq_icase_symm(a: Seq<char>, b: Seq<char>)
    ensures
        eq_icase(a, b) == eq_icase(b, a),
    decreases a.len(),
{
    if a.len() == b.len() && a.len() > 0 {
        lemma_eq_icase_symm(a.subrange(1, a.len() as int), b.subrange(1, b.len() as int));
    }
}

/// Case-insensitive equality is transitive.
pub proof fn lemma_eq_icase_trans(a: Seq<char>, b: Seq<char>, c: Seq<char>)
    requires
        eq_icase(a, b),
        eq_icase(b, c),
    ensures
        eq_icase(a, c),
    decreases a.len(),
{
    if a.len() > 0 {
        lemma_eq_icase_trans(
            a.subrange(1, a.len() as int),
            b.subrange(1, b.len() as int),
            c.subrange(1, c.len() as int),
        );
    }
}

/// True when `c` occurs in `s`.
pub open spec fn contains_char(s: Seq<char>, c: char) -> bool {
    exists|i: int| 0 <= i < s.len() && s[i] == c
}

/// Whether `needle` occurs at position `i` of `hay`.
pub open spec fn matches_at(hay: Seq<char>, needle: Seq<char>, i: int) -> bool {
    0 <= i && i + needle.len() <= hay.len() && hay.subrange(i, i + needle.len() as int) == needle
}

/// True when `needle` occurs somewhere in `hay`.
pub open spec fn contains_seq(hay: Seq<char>, needle: Seq<char>) -> bool {
    exists|i: int| matches_at(hay, needle, i)
}

/// Whether `needle` occurs at position `i` of `hay`, checked character by
/// character.
fn matches_at_exec(hay: &str, needle: &str, i: usize) -> (r: bool)
    requires
        i + needle@.len() <= hay@.len(),
    ensures
        r == matches_at(hay@, needle@, i as int),
{
    let hlen = hay.unicode_len();
    let nlen = needle.unicode_len();
    let mut k: usize = 0;
    while k < nlen
        invariant
            hlen == hay@.len(),
            nlen == needle@.len(),
            i + nlen <= hlen,
            0 <= k <= nlen,
            forall|j: int| 0 <= j < k ==> hay@[i + j] == needle@[j],
        decreases nlen - k,
    {
        if hay.get_char(i + k) != needle.get_char(k) {
            proof {
                let sub = hay@.subrange(i as int, i + nlen as int);
                assert(sub[k as int] == hay@[i + k]);
                assert(sub != needle@);
            }
            return false;
        }
        k = k + 1;
    }
    proof {
        assert(hay@.subrange(i as int, i + nlen as int) =~= needle@);
    }
    true
}

/// Substring search: whether `needle` occurs anywhere in `hay`.
pub fn contains_sub(hay: &str, needle: &str) -> (r: bool)
    ensures
        r == contains_seq(hay@, needle@),
{
    let hlen = hay.unicode_len();
    let nlen = needle.unicode_len();
    if nlen > hlen {
        return false;
    }
    if nlen == 0 {
        proof {
            assert(hay@.subrange(0, 0) =~= needle@);
            assert(matches_at(hay@, needle@, 0));
        }
        return true;
    }
    let mut i: usize = 0;
    while i <= hlen - nlen
        invariant
            hlen == hay@.len(),
            nlen == needle@.len(),
            1 <= nlen <= hlen,
            0 <= i <= hlen - nlen + 1,
            forall|j: int| 0 <= j < i ==> !matches_at(hay@, needle@, j),
        decreases hlen - i,
    {
        if matches_at_exec(hay, needle, i) {
            return true;
        }
        i = i + 1;
    }
    false
}

/// Index of the first occurrence of `c` in `s`, or `s.len()` when `c` does
/// not occur.
pub open spec fn first_index_of(s: Seq<char>, c: char) -> int
    decreases s.len(),
{
    if s.len() == 0 {
        0
    } else if s[0] == c {
        0
    } else {
        1 + first_index_of(s.subrange(1, s.len() as int), c)
    }
}

pub proof fn lemma_first_index_of(s: Seq<char>, c: char)
    ensures
        0 <= first_index_of(s, c) <= s.len(),
        forall|j: int| 0 <= j < first_index_of(s, c) ==> s[j] != c,
        first_index_of(s, c) < s.len() ==> s[first_index_of(s, c)] == c,
        first_index_of(s, c) == s.len() ==> !contains_char(s, c),
    decreases s.len(),
{
    if s.len() == 0 {
    } else if s[0] == c {
    } else {
        let rest = s.subrange(1, s.len() as int);
        lemma_first_index_of(rest, c);
        let k = first_index_of(s, c);
        assert forall|j: int| 0 <= j < k implies s[j] != c by {
            if j > 0 {
                assert(rest[j - 1] == s[j]);
                assert(rest[j - 1] != c);
            }
        }
        if k < s.len() {
            assert(rest[k - 1] == s[k]);
        }
        if k == s.len() {
            assert forall|i: int| 0 <= i < s.len() implies s[i] != c by {
                if i > 0 {
                    assert(rest[i - 1] == s[i]);
                }
            }
        }
    }
}

/// Finds the first occurrence of `c`, returning `s.len()` when absent.
pub fn find_char(s: &str, c: char) -> (r: usize)
    ensures
        r == first_index_of(s@, c),
{
    let len = s.unicode_len();
    let mut i: usize = 0;
    proof {
        lemma_first_index_of(s@, c);
    }
    while i < len
        invariant
            len == s@.len(),
            0 <= i <= len,
            forall|j: int| 0 <= j < i ==> s@[j] != c,
            0 <= first_index_of(s@, c) <= len,
            forall|j: int| 0 <= j < first_index_of(s@, c) ==> s@[j] != c,
            first_index_of(s@, c) < len ==> s@[first_index_of(s@, c)] == c,
            first_index_of(s@, c) == len ==> !contains_char(s@, c),
        decreases len - i,
    {
        if s.get_char(i) == c {
            proof {
                let k = first_index_of(s@, c);
                if k < i {
                    assert(s@[k] != c);
                } else if k > i {
                    assert(s@[i as int] != c);
                }
            }
            return i;
        }
        i = i + 1;
    }
    proof {
        let k = first_index_of(s@, c);
        if k < len {
            assert(s@[k] != c);
        }
    }
    i
}

/// ASCII whitespace as the parser understands it: the characters that may
/// pad a line without meaning.
pub open spec fn is_ws(c: char) -> bool {
    c == ' ' || c == '\t' || c == '\r'
}

/// Index of the first character that is not whitespace, or `s.len()`.
pub open spec fn first_non_ws(s: Seq<char>) -> int
    decreases s.len(),
{
    if s.len() == 0 {
        0
    } else if !is_ws(s[0]) {
        0
    } else {
        1 + first_non_ws(s.subrange(1, s.len() as int))
    }
}

pub proof fn lemma_first_non_ws(s: Seq<char>)
    ensures
        0 <= first_non_ws(s) <= s.len(),
        forall|j: int| 0 <= j < first_non_ws(s) ==> is_ws(s[j]),
        first_non_ws(s) < s.len() ==> !is_ws(s[first_non_ws(s)]),
    decreases s.len(),
{
    if s.len() == 0 || !is_ws(s[0]) {
    } else {
        let rest = s.subrange(1, s.len() as int);
        lemma_first_non_ws(rest);
        let k = first_non_ws(s);
        assert forall|j: int| 0 <= j < k implies is_ws(s[j]) by {
            if j > 0 {
                assert(rest[j - 1] == s[j]);
                assert(is_ws(rest[j - 1]));
            }
        }
        if k < s.len() {
            assert(rest[k - 1] == s[k]);
        }
    }
}

/// One past the index of the last character that is not whitespace, or `0`.
pub open spec fn last_non_ws_end(s: Seq<char>) -> int
    decreases s.len(),
{
    if s.len() == 0 {
        0
    } else if !is_ws(s[s.len() - 1]) {
        s.len() as int
    } else {
        last_non_ws_end(s.subrange(0, s.len() - 1))
    }
}

pub proof fn lemma_last_non_ws_end(s: Seq<char>)
    ensures
        0 <= last_non_ws_end(s) <= s.len(),
        forall|j: int| last_non_ws_end(s) <= j < s.len() ==> is_ws(s[j]),
        last_non_ws_end(s) > 0 ==> !is_ws(s[last_non_ws_end(s) - 1]),
    decreases s.len(),
{
    if s.len() == 0 || !is_ws(s[s.len() - 1]) {
    } else {
        let rest = s.subrange(0, s.len() - 1);
        lemma_last_non_ws_end(rest);
        let e = last_non_ws_end(s);
        assert forall|j: int| e <= j < s.len() implies is_ws(s[j]) by {
            if j < s.len() - 1 {
                assert(rest[j] == s[j]);
                assert(is_ws(rest[j]));
            }
        }
        if e > 0 {
            assert(rest[e - 1] == s[e - 1]);
        }
    }
}

/// `s` with leading and trailing whitespace removed.
pub open spec fn trim_spec(s: Seq<char>) -> Seq<char> {
    if first_non_ws(s) >= last_non_ws_end(s) {
        Seq::<char>::empty()
    } else {
        s.subrange(first_non_ws(s), last_non_ws_end(s))
    }
}

/// Whitespace test on a single character.
pub fn char_is_ws(c: char) -> (r: bool)
    ensures
        r == is_ws(c),
{
    c == ' ' || c == '\t' || c == '\r'
}

/// Removes leading and trailing whitespace.
pub fn trim(s: &str) -> (r: &str)
    ensures
        r@ == trim_spec(s@),
{
    let len = s.unicode_len();
    proof {
        lemma_first_non_ws(s@);
        lemma_last_non_ws_end(s@);
    }
    let mut lo: usize = 0;
    while lo < len && char_is_ws(s.get_char(lo))
        invariant
            len == s@.len(),
            0 <= lo <= len,
            forall|j: int| 0 <= j < lo ==> is_ws(s@[j]),
        decreases len - lo,
    {
        lo = lo + 1;
    }
    proof {
        let f = first_non_ws(s@);
        if f < lo {
            assert(is_ws(s@[f]));
        } else if lo < f {
            assert(is_ws(s@[lo as int]));
        }
        assert(lo == f);
    }
    let mut hi: usize = len;
    while hi > 0 && char_is_ws(s.get_char(hi - 1))
        invariant
            len == s@.len(),
            0 <= hi <= len,
            forall|j: int| hi <= j < len ==> is_ws(s@[j]),
        decreases hi,
    {
        hi = hi - 1;
    }
    proof {
        let e = last_non_ws_end(s@);
        if e < hi {
            assert(is_ws(s@[hi - 1]));
        } else if hi < e {
            assert(is_ws(s@[e - 1]));
        }
        assert(hi == e);
    }
    if lo >= hi {
        let r = s.substring_char(0, 0);
        proof {
            assert(r@ =~= trim_spec(s@));
        }
        r
    } else {
        s.substring_char(lo, hi)
    }
}

/// The lines of `s`: maximal runs of characters between newline separators.
/// Splitting the empty text gives one empty line, as `str::split` does.
pub open spec fn split_lines_spec(s: Seq<char>) -> Seq<Seq<char>>
    decreases s.len(),
{
    let k = first_index_of(s, '\n');
    if 0 <= k < s.len() {
        seq![s.subrange(0, k)] + split_lines_spec(s.subrange(k + 1, s.len() as int))
    } else {
        seq![s]
    }
}

/// Splits `s` at newline characters.
pub fn split_lines(s: &str) -> (r: Vec<String>)
    ensures
        r.deep_view() == split_lines_spec(s@),
    decreases s@.len(),
{
    let len = s.unicode_len();
    let k = find_char(s, '\n');
    proof {
        lemma_first_index_of(s@, '\n');
    }
    if k == len {
        let mut r: Vec<String> = Vec::new();
        r.push(s.to_owned());
        proof {
            assert(r.deep_view() =~= split_lines_spec(s@));
        }
        r
    } else {
        let first = s.substring_char(0, k).to_owned();
        let rest = s.substring_char(k + 1, len);
        let mut r = split_lines(rest);
        r.insert(0, first);
        proof {
            assert(r.deep_view() =~= split_lines_spec(s@));
        }
        r
    }
}

pub proof fn lemma_not_contains_char(s: Seq<char>, c: char)
    requires
        !contains_char(s, c),
    ensures
        forall|i: int| 0 <= i < s.len() ==> s[i] != c,
{
    assert forall|i: int| 0 <= i < s.len() implies s[i] != c by {
        if s[i] == c {
            assert(contains_char(s, c));
        }
    }
}

/// The first occurrence in a concatenation whose front lacks the
/// character lies past the front.
pub proof fn lemma_first_index_concat(a: Seq<char>, b: Seq<char>, c: char)
    requires
        !contains_char(a, c),
    ensures
        first_index_of(a + b, c) == a.len() + first_index_of(b, c),
    decreases a.len(),
{
    if a.len() == 0 {
        assert(a + b =~= b);
    } else {
        if a[0] == c {
            assert(contains_char(a, c));
        }
        assert((a + b)[0] == a[0]);
        let rest = a.subrange(1, a.len() as int);
        assert(!contains_char(rest, c)) by {
            if contains_char(rest, c) {
                let i = choose|i: int| 0 <= i < rest.len() && rest[i] == c;
                assert(a[i + 1] == c);
                assert(contains_char(a, c));
            }
        }
        assert((a + b).subrange(1, (a + b).len() as int) =~= rest + b);
        lemma_first_index_concat(rest, b, c);
    }
}

/// A needle that lacks a separator character occurs in
/// `front + separator + back` exactly when it occurs in one of the parts.
pub proof fn lemma_contains_around_sep(a: Seq<char>, b: Seq<char>, needle: Seq<char>, sep: char)
    requires
        needle.len() > 0,
        !contains_char(needle, sep),
    ensures
        contains_seq(a + seq![sep] + b, needle) <==> contains_seq(a, needle) || contains_seq(
            b,
            needle,
        ),
{
    let full = a + seq![sep] + b;
    let n = needle.len() as int;
    if contains_seq(a, needle) {
        let i = choose|i: int| matches_at(a, needle, i);
        assert(full.subrange(i, i + n) =~= a.subrange(i, i + n));
        assert(matches_at(full, needle, i));
    }
    if contains_seq(b, needle) {
        let i = choose|i: int| matches_at(b, needle, i);
        let p = a.len() + 1 + i;
        assert(full.subrange(p, p + n) =~= b.subrange(i, i + n));
        assert(matches_at(full, needle, p));
    }
    if contains_seq(full, needle) && !contains_seq(a, needle) && !contains_seq(b, needle) {
        let p = choose|p: int| matches_at(full, needle, p);
        if p + n <= a.len() {
            assert(full.subrange(p, p + n) =~= a.subrange(p, p + n));
            assert(matches_at(a, needle, p));
        } else if p > a.len() {
            let q = p - a.len() - 1;
            assert(full.subrange(p, p + n) =~= b.subrange(q, q + n));
            assert(matches_at(b, needle, q));
        } else {
            let k = a.len() as int - p;
            assert(full.subrange(p, p + n)[k] == full[a.len() as int]);
            assert(needle[k] == sep);
            assert(contains_char(needle, sep));
        }
    }
}

/// A needle of non-whitespace characters survives trimming: it occurs in
/// a line exactly when it occurs in the trimmed line.
pub proof fn lemma_contains_trim(l: Seq<char>, needle: Seq<char>)
    requires
        needle.len() > 0,
        forall|i: int| 0 <= i < needle.len() ==> !is_ws(needle[i]),
    ensures
        contains_seq(trim_spec(l), needle) <==> contains_seq(l, needle),
{
    lemma_first_non_ws(l);
    lemma_last_non_ws_end(l);
    let f = first_non_ws(l);
    let e = last_non_ws_end(l);
    let n = needle.len() as int;
    if f >= e {
        assert(forall|i: int| 0 <= i < l.len() ==> is_ws(l[i]));
        if contains_seq(l, needle) {
            let p = choose|p: int| matches_at(l, needle, p);
            assert(l.subrange(p, p + n)[0] == l[p]);
            assert(!is_ws(needle[0]));
            assert(is_ws(l[p]));
        }
        if contains_seq(trim_spec(l), needle) {
            let p = choose|p: int| matches_at(trim_spec(l), needle, p);
            assert(trim_spec(l).len() == 0);
        }
    } else {
        let t = l.subrange(f, e);
        if contains_seq(t, needle) {
            let p = choose|p: int| matches_at(t, needle, p);
            assert(l.subrange(f + p, f + p + n) =~= t.subrange(p, p + n));
            assert(matches_at(l, needle, f + p));
        }
        if contains_seq(l, needle) {
            let p = choose|p: int| matches_at(l, needle, p);
            assert(l.subrange(p, p + n)[0] == l[p]);
            assert(needle[0] == l[p]);
            assert(p >= f) by {
                if p < f {
                    assert(is_ws(l[p]));
                }
            }
            assert(l.subrange(p, p + n)[n - 1] == l[p + n - 1]);
            assert(needle[n - 1] == l[p + n - 1]);
            assert(p + n <= e) by {
                if p + n - 1 >= e {
                    assert(is_ws(l[p + n - 1]));
                }
            }
            assert(t.subrange(p - f, p - f + n) =~= l.subrange(p, p + n));
            assert(matches_at(t, needle, p - f));
        }
    }
}

/// Trimming text that starts and ends with non-whitespace changes
/// nothing.
pub proof fn lemma_trim_identity(s: Seq<char>)
    requires
        s.len() > 0,
        !is_ws(s[0]),
        !is_ws(s[s.len() - 1]),
    ensures
        trim_spec(s) == s,
{
    assert(first_non_ws(s) == 0);
    assert(last_non_ws_end(s) == s.len());
    assert(s.subrange(0, s.len() as int) =~= s);
}

/// Whether a text is free of newline characters, so that it stays one
/// line under splitting.
pub open spec fn no_newline(s: Seq<char>) -> bool {
    !contains_char(s, '\n')
}

/// Lines joined by newline separators: the inverse of line splitting for
/// newline-free lines.
pub open spec fn join_lines(ls: Seq<Seq<char>>) -> Seq<char>
    decreases ls.len(),
{
    if ls.len() == 0 {
        Seq::empty()
    } else if ls.len() == 1 {
        ls[0]
    } else {
        ls[0] + seq!['\n'] + join_lines(ls.subrange(1, ls.len() as int))
    }
}

/// Splitting a join of newline-free lines gives the lines back.
pub proof fn lemma_split_join(ls: Seq<Seq<char>>)
    requires
        ls.len() >= 1,
        forall|i: int| 0 <= i < ls.len() ==> no_newline(#[trigger] ls[i]),
    ensures
        split_lines_spec(join_lines(ls)) == ls,
    decreases ls.len(),
{
    lemma_first_index_of(ls[0], '\n');
    lemma_not_contains_char(ls[0], '\n');
    if ls.len() == 1 {
        let s = join_lines(ls);
        assert(s == ls[0]);
        if first_index_of(s, '\n') < s.len() {
            assert(s[first_index_of(s, '\n')] == '\n');
        }
        assert(split_lines_spec(s) =~= ls);
    } else {
        let rest = ls.subrange(1, ls.len() as int);
        let jr = join_lines(rest);
        let tail = seq!['\n'] + jr;
        let s = join_lines(ls);
        assert(s == ls[0] + tail);
        assert(tail[0] == '\n');
        lemma_first_index_concat(ls[0], tail, '\n');
        let k = first_index_of(s, '\n');
        assert(k == ls[0].len());
        assert(0 <= k < s.len());
        assert(s.subrange(0, k) =~= ls[0]);
        assert(s.subrange(k + 1, s.len() as int) =~= jr);
        lemma_split_join(rest);
        assert(split_lines_spec(s) == seq![ls[0]] + rest);
        assert(seq![ls[0]] + rest =~= ls);
    }
}

/// Appending one more line to a join appends a separator and the line.
pub proof fn lemma_join_push(ls: Seq<Seq<char>>, x: Seq<char>)
    requires
        ls.len() >= 1,
    ensures
        join_lines(ls.push(x)) == join_lines(ls) + seq!['\n'] + x,
    decreases ls.len(),
{
    let p = ls.push(x);
    if ls.len() == 1 {
        assert(p.subrange(1, p.len() as int) =~= seq![x]);
        assert(join_lines(p.subrange(1, p.len() as int)) == x);
        assert(p[0] == ls[0]);
    } else {
        let rest = ls.subrange(1, ls.len() as int);
        assert(p.subrange(1, p.len() as int) =~= rest.push(x));
        lemma_join_push(rest, x);
        assert(p[0] == ls[0]);
        assert((ls[0] + seq!['\n'] + (join_lines(rest) + seq!['\n'] + x)) =~= ((ls[0] + seq!['\n']
            + join_lines(rest)) + seq!['\n'] + x));
    }
}

} // verus!
