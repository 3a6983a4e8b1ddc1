//! Character-level string utilities used by the manifest resolver.
//!
//! Every executable function here carries an exact contract phrased over
//! `Seq<char>` views, so that the resolver's own contracts can be stated
//! directly over the mathematical content of the strings involved.

use vstd::prelude::*;

verus! {

/// Characters treated as blank when a manifest line is trimmed.
pub open spec fn is_space(c: char) -> bool {
    c == ' ' || c == '\t' || c == '\r' || c == '\n' || c == '\u{b}' || c == '\u{c}'
}

/// `p` is a prefix of `s`.
pub open spec fn has_prefix(s: Seq<char>, p: Seq<char>) -> bool {
    p.len() <= s.len() && s.subrange(0, p.len() as int) == p
}

/// Index of the first occurrence of `c` in `s` at or after `from`;
/// `s.len()` when there is none.
pub open spec fn find_from(s: Seq<char>, c: char, from: int) -> int
    decreases s.len() - from when 0 <= from <= s.len()
{
    if from >= s.len() {
        s.len() as int
    } else if s[from] == c {
        from
    } else {
        find_from(s, c, from + 1)
    }
}

/// `find_from` returns exactly the first occurrence.
pub proof fn lemma_find_from_is(s: Seq<char>, c: char, from: int, j: int)
    requires
        0 <= from <= j < s.len(),
        s[j] == c,
        forall|k: int| from <= k < j ==> s[k] != c,
    ensures
        find_from(s, c, from) == j,
    decreases j - from,
{
    if from < j {
        lemma_find_from_is(s, c, from + 1, j);
    }
}

/// `find_from` returns `s.len()` exactly when there is no occurrence.
pub proof fn lemma_find_from_none(s: Seq<char>, c: char, from: int)
    requires
        0 <= from <= s.len(),
        forall|k: int| from <= k < s.len() ==> s[k] != c,
    ensures
        find_from(s, c, from) == s.len(),
    decreases s.len() - from,
{
    if from < s.len() {
        lemma_find_from_none(s, c, from + 1);
    }
}

/// First occurrence of `c` in `s` at or after `from`, as executable code.
pub fn find_char(s: &str, c: char, from: usize) -> (r: usize)
    requires
        from <= s@.len(),
    ensures
        r as int == find_from(s@, c, from as int),
        r <= s@.len(),
{
    let len = s.unicode_len();
    let mut i = from;
    while i < len
        invariant
            from <= i <= len,
            len == s@.len(),
            forall|k: int| from <= k < i ==> s@[k] != c,
        decreases len - i,
    {
        if s.get_char(i) == c {
            proof {
                lemma_find_from_is(s@, c, from as int, i as int);
            }
            return i;
        }
        i += 1;
    }
    proof {
        lemma_find_from_none(s@, c, from as int);
    }
    len
}

/// Character-wise string equality.
pub fn str_eq(a: &str, b: &str) -> (r: bool)
    ensures
        r == (a@ == b@),
{
    let alen = a.unicode_len();
    let blen = b.unicode_len();
    if alen != blen {
        return false;
    }
    let mut i: usize = 0;
    while i < alen
        invariant
            0 <= i <= alen,
            alen == a@.len(),
            alen == b@.len(),
            forall|k: int| 0 <= k < i ==> a@[k] == b@[k],
        decreases alen - i,
    {
        if a.get_char(i) != b.get_char(i) {
            assert(a@ != b@);
            return false;
        }
        i += 1;
    }
    assert(a@ =~= b@);
    true
}

/// Does `s` start with `p`?
pub fn starts_with(s: &str, p: &str) -> (r: bool)
    ensures
        r == has_prefix(s@, p@),
{
    let plen = p.unicode_len();
    let slen = s.unicode_len();
    if plen > slen {
        assert(!has_prefix(s@, p@));
        return false;
    }
    let mut i: usize = 0;
    while i < plen
        invariant
            0 <= i <= plen,
            plen == p@.len(),
            slen == s@.len(),
            plen <= slen,
            forall|k: int| 0 <= k < i ==> s@[k] == p@[k],
        decreases plen - i,
    {
        if s.get_char(i) != p.get_char(i) {
            assert(s@.subrange(0, plen as int)[i as int] != p@[i as int]);
            return false;
        }
        i += 1;
    }
    assert(s@.subrange(0, plen as int) =~= p@);
    true
}

/// `s` with every leading repetition of `p` removed.
pub open spec fn strip_all(s: Seq<char>, p: Seq<char>) -> Seq<char>
    decreases s.len()
{
    if p.len() > 0 && has_prefix(s, p) {
        strip_all(s.skip(p.len() as int), p)
    } else {
        s
    }
}

/// Removes every leading repetition of `p` from `s`.
pub fn strip_all_prefix<'a>(s: &'a str, p: &str) -> (r: &'a str)
    requires
        p@.len() > 0,
    ensures
        r@ == strip_all(s@, p@),
{
    let mut cur: &str = s;
    let plen = p.unicode_len();
    loop
        invariant
            plen == p@.len(),
            plen > 0,
            strip_all(cur@, p@) == strip_all(s@, p@),
        decreases cur@.len(),
    {
        if !starts_with(cur, p) {
            assert(strip_all(cur@, p@) == cur@);
            return cur;
        }
        let curlen = cur.unicode_len();
        cur = cur.substring_char(plen, curlen);
    }
}

/// Index of the first non-blank character at or after `i`.
pub open spec fn trim_start_idx(s: Seq<char>, i: int) -> int
    decreases s.len() - i when 0 <= i <= s.len()
{
    if i < s.len() && is_space(s[i]) {
        trim_start_idx(s, i + 1)
    } else {
        i
    }
}

/// One past the last non-blank character at or before `j - 1`.
pub open spec fn trim_end_idx(s: Seq<char>, j: int) -> int
    decreases j when 0 <= j <= s.len()
{
    if j > 0 && is_space(s[j - 1]) {
        trim_end_idx(s, j - 1)
    } else {
        j
    }
}

/// `s` without leading and trailing blanks.
pub open spec fn trim_spec(s: Seq<char>) -> Seq<char> {
    let a = trim_start_idx(s, 0);
    let b = trim_end_idx(s, s.len() as int);
    if a <= b {
        s.subrange(a, b)
    } else {
        Seq::empty()
    }
}

proof fn lemma_trim_start_bounds(s: Seq<char>, i: int)
    requires
        0 <= i <= s.len(),
    ensures
        i <= trim_start_idx(s, i) <= s.len(),
    decreases s.len() - i,
{
    if i < s.len() && is_space(s[i]) {
        lemma_trim_start_bounds(s, i + 1);
    }
}

proof fn lemma_trim_end_bounds(s: Seq<char>, j: int)
    requires
        0 <= j <= s.len(),
    ensures
        0 <= trim_end_idx(s, j) <= j,
    decreases j,
{
    if j > 0 && is_space(s[j - 1]) {
        lemma_trim_end_bounds(s, j - 1);
    }
}

proof fn lemma_trim_start_is(s: Seq<char>, i: int, a: int)
    requires
        0 <= i <= a <= s.len(),
        forall|k: int| i <= k < a ==> is_space(s[k]),
        a < s.len() ==> !is_space(s[a]),
    ensures
        trim_start_idx(s, i) == a,
    decreases a - i,
{
    if i < a {
        lemma_trim_start_is(s, i + 1, a);
    }
}

proof fn lemma_trim_end_is(s: Seq<char>, j: int, b: int)
    requires
        0 <= b <= j <= s.len(),
        forall|k: int| b <= k < j ==> is_space(s[k]),
        b > 0 ==> !is_space(s[b - 1]),
    ensures
        trim_end_idx(s, j) == b,
    decreases j - b,
{
    if b < j {
        lemma_trim_end_is(s, j - 1, b);
    }
}

/// Removes leading and trailing blanks from `s`.
pub fn trim<'a>(s: &'a str) -> (r: &'a str)
    ensures
        r@ == trim_spec(s@),
{
    let len = s.unicode_len();
    let mut a: usize = 0;
    while a < len && is_space_exec(s.get_char(a))
        invariant
            0 <= a <= len,
            len == s@.len(),
            forall|k: int| 0 <= k < a ==> is_space(s@[k]),
        decreases len - a,
    {
        a += 1;
    }
    proof {
        lemma_trim_start_is(s@, 0, a as int);
    }
    let mut b: usize = len;
    while b > a && is_space_exec(s.get_char(b - 1))
        invariant
            a <= b <= len,
            len == s@.len(),
            forall|k: int| b <= k < len ==> is_space(s@[k]),
        decreases b,
    {
        b -= 1;
    }
    if b == a {
        // the whole string is blank
        proof {
            lemma_trim_start_bounds(s@, 0);
            lemma_trim_end_bounds(s@, s@.len() as int);
            if trim_start_idx(s@, 0) <= trim_end_idx(s@, s@.len() as int) {
                assert(s@.subrange(
                    trim_start_idx(s@, 0),
                    trim_end_idx(s@, s@.len() as int),
                ) =~= s@.subrange(a as int, a as int));
            }
            reveal_strlit("");
            assert(""@ =~= s@.subrange(a as int, a as int));
        }
        return "";
    }
    proof {
        lemma_trim_end_is(s@, s@.len() as int, b as int);
    }
    s.substring_char(a, b)
}

/// Executable test for [`is_space`].
pub fn is_space_exec(c: char) -> (r: bool)
    ensures
        r == is_space(c),
{
    c == ' ' || c == '\t' || c == '\r' || c == '\n' || c == '\u{b}' || c == '\u{c}'
}

/// The pieces of `s` between occurrences of `c`, scanning from `cur` with the
/// current piece having begun at `start`. Empty pieces are kept.
pub open spec fn split_from(s: Seq<char>, c: char, start: int, cur: int) -> Seq<Seq<char>>
    decreases s.len() - cur when 0 <= start <= cur <= s.len()
{
    if cur >= s.len() {
        seq![s.subrange(start, s.len() as int)]
    } else if s[cur] == c {
        seq![s.subrange(start, cur)] + split_from(s, c, cur + 1, cur + 1)
    } else {
        split_from(s, c, start, cur + 1)
    }
}

/// The pieces of `s` between occurrences of `c`; empty pieces are kept, and a
/// string without `c` is a single piece.
pub open spec fn split_char(s: Seq<char>, c: char) -> Seq<Seq<char>> {
    split_from(s, c, 0, 0)
}

/// The views of a vector of strings.
pub open spec fn views_of(v: Seq<String>) -> Seq<Seq<char>> {
    v.map_values(|s: String| s@)
}

/// Splits `s` on `c`, keeping empty pieces.
pub fn split_str(s: &str, c: char) -> (r: Vec<String>)
    ensures
        views_of(r@) == split_char(s@, c),
{
    let len = s.unicode_len();
    let mut out: Vec<String> = Vec::new();
    let mut start: usize = 0;
    let mut cur: usize = 0;
    while cur < len
        invariant
            0 <= start <= cur <= len,
            len == s@.len(),
            views_of(out@) + split_from(s@, c, start as int, cur as int)
                =~= split_char(s@, c),
        decreases len - cur,
    {
        if s.get_char(cur) == c {
            let ghost pre = out@;
            let piece = s.substring_char(start, cur);
            out.push(piece.to_owned());
            proof {
                assert(views_of(out@) =~= views_of(pre).push(piece@));
            }
            start = cur + 1;
        }
        cur += 1;
    }
    let ghost pre = out@;
    let piece = s.substring_char(start, len);
    out.push(piece.to_owned());
    proof {
        assert(views_of(out@) =~= views_of(pre).push(piece@));
        assert(views_of(out@) =~= split_char(s@, c));
    }
    out
}

} // verus!
