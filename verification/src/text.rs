//! Verified text helpers: trimming, searching, comparing and line splitting
//! over `&str`, with their mathematical counterparts on `Seq<char>`.

use vstd::prelude::*;
use vstd::string::*;

verus! {

/// ASCII whitespace, as trimming here understands it.
pub open spec fn is_space(c: char) -> bool {
    c == ' ' || c == '\t' || c == '\r' || c == '\n'
}

/// `s` without its leading whitespace.
pub open spec fn trim_start_spec(s: Seq<char>) -> Seq<char>
    decreases s.len(),
{
    if s.len() > 0 && is_space(s[0]) {
        trim_start_spec(s.drop_first())
    } else {
        s
    }
}

/// `s` without its trailing whitespace.
pub open spec fn trim_end_spec(s: Seq<char>) -> Seq<char>
    decreases s.len(),
{
    if s.len() > 0 && is_space(s.last()) {
        trim_end_spec(s.drop_last())
    } else {
        s
    }
}

/// `s` without leading and trailing whitespace.
pub open spec fn trim_spec(s: Seq<char>) -> Seq<char> {
    trim_end_spec(trim_start_spec(s))
}

/// Index of the first occurrence of `c` in `s`, if any.
pub open spec fn find_char_spec(s: Seq<char>, c: char) -> Option<int>
    decreases s.len(),
{
    if s.len() == 0 {
        None
    } else if s[0] == c {
        Some(0int)
    } else {
        match find_char_spec(s.drop_first(), c) {
            Some(i) => Some(i + 1),
            None => None,
        }
    }
}

/// Index of the last occurrence of `c` in `s`, if any.
pub open spec fn find_last_char_spec(s: Seq<char>, c: char) -> Option<int>
    decreases s.len(),
{
    if s.len() == 0 {
        None
    } else if s.last() == c {
        Some(s.len() - 1)
    } else {
        find_last_char_spec(s.drop_last(), c)
    }
}

/// A line with a single trailing carriage return removed.
pub open spec fn strip_cr(l: Seq<char>) -> Seq<char> {
    if l.len() > 0 && l.last() == '\r' {
        l.drop_last()
    } else {
        l
    }
}

/// The lines of `s`: pieces separated by `'\n'`, each terminated piece with a
/// trailing `'\r'` removed, and no final empty piece when `s` ends in `'\n'`.
pub open spec fn lines_spec(s: Seq<char>) -> Seq<Seq<char>>
    decreases s.len(),
    via lines_spec_decreases
{
    if s.len() == 0 {
        Seq::empty()
    } else {
        match find_char_spec(s, '\n') {
            None => seq![s],
            Some(i) => seq![strip_cr(s.subrange(0, i))] + lines_spec(
                s.subrange(i + 1, s.len() as int),
            ),
        }
    }
}

#[via_fn]
proof fn lines_spec_decreases(s: Seq<char>) {
    if s.len() > 0 {
        lemma_find_char_spec_props(s, '\n');
    }
}

/// Where `c` first occurs in `s`, and that nothing before it is `c`.
pub proof fn lemma_find_char_spec_props(s: Seq<char>, c: char)
    ensures
        match find_char_spec(s, c) {
            Some(i) => 0 <= i < s.len() && s[i] == c && forall|j: int| 0 <= j < i ==> s[j] != c,
            None => forall|j: int| 0 <= j < s.len() ==> s[j] != c,
        },
    decreases s.len(),
{
    if s.len() == 0 {
    } else if s[0] == c {
    } else {
        let t = s.drop_first();
        lemma_find_char_spec_props(t, c);
        assert(forall|j: int| 1 <= j < s.len() ==> #[trigger] s[j] == t[j - 1]);
    }
}

/// `p` is a prefix of `s`.
pub open spec fn starts_with_spec(s: Seq<char>, p: Seq<char>) -> bool {
    p.len() <= s.len() && s.subrange(0, p.len() as int) == p
}

/// `p` occurs somewhere in `s`.
pub open spec fn contains_spec(s: Seq<char>, p: Seq<char>) -> bool {
    exists|i: int|
        0 <= i && i + p.len() <= s.len() && #[trigger] s.subrange(i, i + p.len() as int) == p
}

/// The given lines joined back into one text, each line followed by `'\n'`.
pub open spec fn join_lines_nl(lines: Seq<Seq<char>>) -> Seq<char>
    decreases lines.len(),
{
    if lines.len() == 0 {
        Seq::empty()
    } else {
        lines.first() + seq!['\n'] + join_lines_nl(lines.drop_first())
    }
}

pub proof fn lemma_trim_start_skip(s: Seq<char>, i: int)
    requires
        0 <= i <= s.len(),
        forall|j: int| 0 <= j < i ==> is_space(s[j]),
        i == s.len() || !is_space(s[i]),
    ensures
        trim_start_spec(s) == s.subrange(i, s.len() as int),
    decreases i,
{
    if i == 0 {
        assert(s =~= s.subrange(0, s.len() as int));
    } else {
        let t = s.drop_first();
        assert(is_space(s[0]));
        assert(forall|j: int| 0 <= j < i - 1 ==> is_space(#[trigger] t[j]));
        lemma_trim_start_skip(t, i - 1);
        assert(t.subrange(i - 1, t.len() as int) =~= s.subrange(i, s.len() as int));
    }
}

pub proof fn lemma_trim_end_skip(s: Seq<char>, i: int)
    requires
        0 <= i <= s.len(),
        forall|j: int| i <= j < s.len() ==> is_space(s[j]),
        i == 0 || !is_space(s[i - 1]),
    ensures
        trim_end_spec(s) == s.subrange(0, i),
    decreases s.len() - i,
{
    if i == s.len() {
        assert(s =~= s.subrange(0, s.len() as int));
    } else {
        let t = s.drop_last();
        assert(is_space(s.last()));
        assert(forall|j: int| i <= j < t.len() ==> is_space(#[trigger] t[j]));
        lemma_trim_end_skip(t, i);
        assert(t.subrange(0, i) =~= s.subrange(0, i));
    }
}

pub proof fn lemma_find_char_witness(s: Seq<char>, c: char, i: int)
    requires
        0 <= i < s.len(),
        s[i] == c,
        forall|j: int| 0 <= j < i ==> s[j] != c,
    ensures
        find_char_spec(s, c) == Some(i),
    decreases i,
{
    if i == 0 {
    } else {
        let t = s.drop_first();
        assert(forall|j: int| 0 <= j < i - 1 ==> #[trigger] t[j] != c);
        lemma_find_char_witness(t, c, i - 1);
    }
}

pub proof fn lemma_find_char_none(s: Seq<char>, c: char)
    requires
        forall|j: int| 0 <= j < s.len() ==> s[j] != c,
    ensures
        find_char_spec(s, c) is None,
    decreases s.len(),
{
    if s.len() == 0 {
    } else {
        let t = s.drop_first();
        assert(forall|j: int| 0 <= j < t.len() ==> #[trigger] t[j] != c);
        lemma_find_char_none(t, c);
    }
}

pub proof fn lemma_find_last_char_witness(s: Seq<char>, c: char, i: int)
    requires
        0 <= i < s.len(),
        s[i] == c,
        forall|j: int| i < j < s.len() ==> s[j] != c,
    ensures
        find_last_char_spec(s, c) == Some(i),
    decreases s.len(),
{
    if i == s.len() - 1 {
    } else {
        let t = s.drop_last();
        assert(forall|j: int| i < j < t.len() ==> #[trigger] t[j] != c);
        lemma_find_last_char_witness(t, c, i);
    }
}

pub proof fn lemma_find_last_char_none(s: Seq<char>, c: char)
    requires
        forall|j: int| 0 <= j < s.len() ==> s[j] != c,
    ensures
        find_last_char_spec(s, c) is None,
    decreases s.len(),
{
    if s.len() == 0 {
    } else {
        let t = s.drop_last();
        assert(forall|j: int| 0 <= j < t.len() ==> #[trigger] t[j] != c);
        lemma_find_last_char_none(t, c);
    }
}

pub proof fn lemma_join_lines_push(lines: Seq<Seq<char>>, l: Seq<char>)
    ensures
        join_lines_nl(lines.push(l)) == join_lines_nl(lines) + l + seq!['\n'],
    decreases lines.len(),
{
    let whole = lines.push(l);
    if lines.len() == 0 {
        assert(whole.first() == l);
        assert(whole.drop_first() =~= Seq::<Seq<char>>::empty());
        assert(join_lines_nl(Seq::<Seq<char>>::empty()) == Seq::<char>::empty());
        assert(join_lines_nl(whole) == whole.first() + seq!['\n'] + join_lines_nl(
            whole.drop_first(),
        ));
        assert(join_lines_nl(whole) =~= join_lines_nl(lines) + l + seq!['\n']);
    } else {
        lemma_join_lines_push(lines.drop_first(), l);
        assert(whole.drop_first() =~= lines.drop_first().push(l));
        assert(whole.first() == lines.first());
        assert(join_lines_nl(whole) =~= join_lines_nl(lines) + l + seq!['\n']);
    }
}

/// Whether `c` is whitespace, executably.
pub fn char_is_space(c: char) -> (r: bool)
    ensures
        r == is_space(c),
{
    c == ' ' || c == '\t' || c == '\r' || c == '\n'
}

/// First index of `c` within `s[lo..hi]`, if any.
pub fn find_char(s: &str, lo: usize, hi: usize, c: char) -> (r: Option<usize>)
    requires
        lo <= hi <= s@.len(),
    ensures
        match r {
            Some(i) => lo <= i < hi && s@[i as int] == c && forall|j: int|
                lo <= j < i ==> s@[j] != c,
            None => forall|j: int| lo <= j < hi ==> s@[j] != c,
        },
{
    let mut i: usize = lo;
    while i < hi
        invariant
            lo <= i <= hi <= s@.len(),
            forall|j: int| lo <= j < i ==> s@[j] != c,
        decreases hi - i,
    {
        if s.get_char(i) == c {
            return Some(i);
        }
        i += 1;
    }
    None
}

/// Last index of `c` within `s[lo..hi]`, if any.
pub fn rfind_char(s: &str, lo: usize, hi: usize, c: char) -> (r: Option<usize>)
    requires
        lo <= hi <= s@.len(),
    ensures
        match r {
            Some(i) => lo <= i < hi && s@[i as int] == c && forall|j: int|
                i < j < hi ==> s@[j] != c,
            None => forall|j: int| lo <= j < hi ==> s@[j] != c,
        },
{
    let mut i: usize = hi;
    while i > lo
        invariant
            lo <= i <= hi <= s@.len(),
            forall|j: int| i <= j < hi ==> s@[j] != c,
        decreases i,
    {
        if s.get_char(i - 1) == c {
            return Some(i - 1);
        }
        i -= 1;
    }
    None
}

/// Whether `s[lo..hi]` equals `t`.
pub fn range_eq(s: &str, lo: usize, hi: usize, t: &str) -> (r: bool)
    requires
        lo <= hi <= s@.len(),
    ensures
        r == (s@.subrange(lo as int, hi as int) == t@),
{
    let n = t.unicode_len();
    if hi - lo != n {
        assert(s@.subrange(lo as int, hi as int).len() != t@.len());
        return false;
    }
    let mut i: usize = 0;
    while i < n
        invariant
            lo + n == hi,
            hi <= s@.len(),
            n == t@.len(),
            i <= n,
            forall|j: int| 0 <= j < i ==> s@[lo + j] == t@[j],
        decreases n - i,
    {
        if s.get_char(lo + i) != t.get_char(i) {
            assert(s@.subrange(lo as int, hi as int)[i as int] != t@[i as int]);
            return false;
        }
        i += 1;
    }
    assert(s@.subrange(lo as int, hi as int) =~= t@);
    true
}

/// Whether two strings hold the same characters.
pub fn str_eq(a: &str, b: &str) -> (r: bool)
    ensures
        r == (a@ == b@),
{
    let n = a.unicode_len();
    let r = range_eq(a, 0, n, b);
    proof {
        assert(a@.subrange(0, n as int) =~= a@);
    }
    r
}

/// Whether `s[lo..hi]` starts with `p`.
pub fn range_starts_with(s: &str, lo: usize, hi: usize, p: &str) -> (r: bool)
    requires
        lo <= hi <= s@.len(),
    ensures
        r == starts_with_spec(s@.subrange(lo as int, hi as int), p@),
{
    let m = p.unicode_len();
    if hi - lo < m {
        assert(s@.subrange(lo as int, hi as int).len() < p@.len());
        return false;
    }
    let r = range_eq(s, lo, lo + m, p);
    proof {
        assert(s@.subrange(lo as int, (lo + m) as int) =~= s@.subrange(lo as int, hi as int)
            .subrange(0, m as int));
    }
    r
}

/// Whether `p` occurs in `s`.
pub fn contains_sub(s: &str, p: &str) -> (r: bool)
    ensures
        r == contains_spec(s@, p@),
{
    let n = s.unicode_len();
    let m = p.unicode_len();
    if m > n {
        assert(!contains_spec(s@, p@));
        return false;
    }
    let bound = n - m;
    let mut i: usize = 0;
    while i < bound
        invariant
            m <= n,
            n == s@.len(),
            m == p@.len(),
            bound == n - m,
            i <= bound,
            forall|j: int| 0 <= j < i ==> #[trigger] s@.subrange(j, j + p@.len() as int) != p@,
        decreases bound - i,
    {
        if range_eq(s, i, i + m, p) {
            assert(contains_spec(s@, p@));
            return true;
        }
        i += 1;
    }
    if range_eq(s, bound, bound + m, p) {
        assert(contains_spec(s@, p@));
        return true;
    }
    assert(forall|j: int|
        0 <= j && j + p@.len() <= s@.len() ==> #[trigger] s@.subrange(j, j + p@.len() as int)
            != p@);
    false
}

/// The characters of `s[lo..hi]` as a fresh `String`.
pub fn extract_range(s: &str, lo: usize, hi: usize) -> (r: String)
    requires
        lo <= hi <= s@.len(),
    ensures
        r@ == s@.subrange(lo as int, hi as int),
{
    s.substring_char(lo, hi).to_owned()
}

/// Index of the first non-whitespace character of `s[lo..hi]`, or `hi`.
pub fn first_non_space(s: &str, lo: usize, hi: usize) -> (r: usize)
    requires
        lo <= hi <= s@.len(),
    ensures
        lo <= r <= hi,
        forall|j: int| lo <= j < r ==> is_space(s@[j]),
        r == hi || !is_space(s@[r as int]),
{
    let mut a: usize = lo;
    while a < hi && char_is_space(s.get_char(a))
        invariant
            lo <= a <= hi <= s@.len(),
            forall|j: int| lo <= j < a ==> is_space(s@[j]),
        decreases hi - a,
    {
        a += 1;
    }
    a
}

/// Bounds of `s[lo..hi]` with surrounding whitespace dropped.
pub fn trim_bounds(s: &str, lo: usize, hi: usize) -> (r: (usize, usize))
    requires
        lo <= hi <= s@.len(),
    ensures
        lo <= r.0 <= r.1 <= hi,
        s@.subrange(r.0 as int, r.1 as int) == trim_spec(s@.subrange(lo as int, hi as int)),
{
    let ghost sub = s@.subrange(lo as int, hi as int);
    let mut a: usize = lo;
    while a < hi && char_is_space(s.get_char(a))
        invariant
            lo <= a <= hi <= s@.len(),
            forall|j: int| lo <= j < a ==> is_space(s@[j]),
        decreases hi - a,
    {
        a += 1;
    }
    proof {
        assert(forall|j: int| 0 <= j < a - lo ==> is_space(#[trigger] sub[j]));
        lemma_trim_start_skip(sub, a - lo);
        assert(sub.subrange(a - lo, sub.len() as int) =~= s@.subrange(a as int, hi as int));
    }
    if a == hi {
        proof {
            assert(trim_start_spec(sub) =~= Seq::<char>::empty());
            assert(trim_spec(sub) =~= Seq::<char>::empty());
            assert(s@.subrange(a as int, a as int) =~= Seq::<char>::empty());
        }
        return (hi, hi);
    }
    let ghost mid = s@.subrange(a as int, hi as int);
    let mut b: usize = hi;
    while b > a && char_is_space(s.get_char(b - 1))
        invariant
            lo <= a,
            a < b,
            b <= hi <= s@.len(),
            !is_space(s@[a as int]),
            forall|j: int| b <= j < hi ==> is_space(s@[j]),
        decreases b,
    {
        proof {
            assert(is_space(s@[b - 1]));
            assert(b - 1 != a);
        }
        b -= 1;
    }
    proof {
        assert(a < b);
        assert(forall|j: int| b - a <= j < mid.len() ==> is_space(#[trigger] mid[j]));
        assert(!is_space(mid[b - a - 1]));
        lemma_trim_end_skip(mid, b - a);
        assert(mid.subrange(0, b - a) =~= s@.subrange(a as int, b as int));
    }
    (a, b)
}

/// `s` with surrounding whitespace dropped, as a fresh `String`.
pub fn trim_str(s: &str) -> (r: String)
    ensures
        r@ == trim_spec(s@),
{
    let n = s.unicode_len();
    let (a, b) = trim_bounds(s, 0, n);
    proof {
        assert(s@.subrange(0, n as int) =~= s@);
    }
    extract_range(s, a, b)
}

/// The lines of `s`, as fresh `String`s.
pub fn split_lines(s: &str) -> (r: Vec<String>)
    ensures
        r.deep_view() == lines_spec(s@),
{
    let n = s.unicode_len();
    let mut r: Vec<String> = Vec::new();
    let mut pos: usize = 0;
    proof {
        assert(s@.subrange(0, n as int) =~= s@);
        assert(r.deep_view() =~= Seq::<Seq<char>>::empty());
        assert(r.deep_view() + lines_spec(s@) =~= lines_spec(s@));
    }
    while pos < n
        invariant
            pos <= n,
            n == s@.len(),
            lines_spec(s@) == r.deep_view() + lines_spec(s@.subrange(pos as int, n as int)),
        decreases n - pos,
    {
        let ghost rest = s@.subrange(pos as int, n as int);
        let ghost old_r = r;
        match find_char(s, pos, n, '\n') {
            Some(i) => {
                proof {
                    assert(rest[i - pos] == '\n');
                    assert(forall|j: int| 0 <= j < i - pos ==> #[trigger] rest[j] != '\n');
                    lemma_find_char_witness(rest, '\n', i - pos);
                }
                let line_hi = if i > pos && s.get_char(i - 1) == '\r' {
                    i - 1
                } else {
                    i
                };
                let piece = extract_range(s, pos, line_hi);
                proof {
                    assert(rest.subrange(0, i - pos) =~= s@.subrange(pos as int, i as int));
                    assert(strip_cr(rest.subrange(0, i - pos)) =~= s@.subrange(
                        pos as int,
                        line_hi as int,
                    ));
                    assert(rest.subrange(i - pos + 1, rest.len() as int) =~= s@.subrange(
                        i + 1,
                        n as int,
                    ));
                }
                r.push(piece);
                pos = i + 1;
                proof {
                    assert(r.deep_view() =~= old_r.deep_view().push(piece@));
                    assert(lines_spec(rest) =~= seq![piece@] + lines_spec(
                        s@.subrange(pos as int, n as int),
                    ));
                    assert(r.deep_view() + lines_spec(s@.subrange(pos as int, n as int)) =~=
                        old_r.deep_view() + lines_spec(rest));
                }
            },
            None => {
                proof {
                    assert(forall|j: int| 0 <= j < rest.len() ==> #[trigger] rest[j] != '\n');
                    lemma_find_char_none(rest, '\n');
                }
                let piece = extract_range(s, pos, n);
                proof {
                    assert(piece@ =~= rest);
                }
                r.push(piece);
                pos = n;
                proof {
                    assert(r.deep_view() =~= old_r.deep_view().push(piece@));
                    assert(lines_spec(rest) =~= seq![rest]);
                    assert(s@.subrange(pos as int, n as int) =~= Seq::<char>::empty());
                    assert(r.deep_view() + lines_spec(s@.subrange(pos as int, n as int)) =~=
                        old_r.deep_view() + lines_spec(rest));
                }
            },
        }
    }
    proof {
        assert(s@.subrange(pos as int, n as int) =~= Seq::<char>::empty());
        assert(lines_spec(s@) =~= r.deep_view());
    }
    r
}

} // verus!
