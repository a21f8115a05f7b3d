//! Character-level groundwork for name normalization: ASCII lowercasing,
//! whitespace trimming, and comparison of character vectors against
//! string slices.

use vstd::prelude::*;

verus! {

/// Whitespace as the resolver trims it: the ASCII whitespace characters.
pub open spec fn is_space(c: char) -> bool {
    c == ' ' || c == '\t' || c == '\n' || c == '\r' || c == '\u{b}' || c == '\u{c}'
}

/// ASCII lowercasing of one character; anything outside `A..=Z` is kept.
pub open spec fn lower_char(c: char) -> char {
    if 65 <= c as u32 && c as u32 <= 90 {
        ((c as u32 + 32) as u8) as char
    } else {
        c
    }
}

/// Pointwise ASCII lowercasing of a character sequence.
pub open spec fn lower_seq(s: Seq<char>) -> Seq<char> {
    Seq::new(s.len(), |i: int| lower_char(s[i]))
}

/// The sequence with its leading whitespace removed.
pub open spec fn trim_start(s: Seq<char>) -> Seq<char>
    decreases s.len(),
{
    if s.len() > 0 && is_space(s[0]) {
        trim_start(s.drop_first())
    } else {
        s
    }
}

/// The sequence with its trailing whitespace removed.
pub open spec fn trim_end(s: Seq<char>) -> Seq<char>
    decreases s.len(),
{
    if s.len() > 0 && is_space(s.last()) {
        trim_end(s.drop_last())
    } else {
        s
    }
}

/// The sequence with whitespace removed from both ends.
pub open spec fn trim_seq(s: Seq<char>) -> Seq<char> {
    trim_end(trim_start(s))
}

/// `trim_start` removes exactly the leading run of whitespace.
proof fn lemma_trim_start_at(s: Seq<char>, k: int)
    requires
        0 <= k <= s.len(),
        forall|m: int| 0 <= m < k ==> is_space(s[m]),
        k < s.len() ==> !is_space(s[k]),
    ensures
        trim_start(s) == s.subrange(k, s.len() as int),
    decreases k,
{
    if k == 0 {
        assert(s.subrange(0, s.len() as int) =~= s);
    } else {
        assert(is_space(s[0]));
        let t = s.drop_first();
        lemma_trim_start_at(t, k - 1);
        assert(t.subrange(k - 1, t.len() as int) =~= s.subrange(k, s.len() as int));
    }
}

/// `trim_end` removes exactly the trailing run of whitespace.
proof fn lemma_trim_end_at(s: Seq<char>, k: int)
    requires
        0 <= k <= s.len(),
        forall|m: int| k <= m < s.len() ==> is_space(s[m]),
        k > 0 ==> !is_space(s[k - 1]),
    ensures
        trim_end(s) == s.subrange(0, k),
    decreases s.len() - k,
{
    if k == s.len() {
        if s.len() > 0 && is_space(s.last()) {
            assert(!is_space(s[k - 1]));
        }
        assert(s.subrange(0, s.len() as int) =~= s);
    } else {
        assert(is_space(s.last()));
        let t = s.drop_last();
        lemma_trim_end_at(t, k);
        assert(t.subrange(0, k) =~= s.subrange(0, k));
    }
}

/// Whether `c` is whitespace, as `is_space` defines it.
pub fn is_space_exec(c: char) -> (r: bool)
    ensures
        r == is_space(c),
{
    c == ' ' || c == '\t' || c == '\n' || c == '\r' || c == '\u{b}' || c == '\u{c}'
}

/// The characters of `s`, in order.
pub fn str_to_chars(s: &str) -> (v: Vec<char>)
    ensures
        v@ == s@,
{
    let n = s.unicode_len();
    let mut out: Vec<char> = Vec::new();
    let mut i: usize = 0;
    while i < n
        invariant
            i <= n,
            n == s@.len(),
            out@.len() == i,
            forall|j: int| 0 <= j < i ==> out@[j] == s@[j],
        decreases n - i,
    {
        out.push(s.get_char(i));
        i += 1;
    }
    proof {
        assert(out@ =~= s@);
    }
    out
}

/// ASCII-lowercases every character.
pub fn lower_chars(v: &Vec<char>) -> (r: Vec<char>)
    ensures
        r@ == lower_seq(v@),
{
    let mut out: Vec<char> = Vec::new();
    let mut i: usize = 0;
    while i < v.len()
        invariant
            i <= v@.len(),
            out@.len() == i,
            forall|j: int| 0 <= j < i ==> out@[j] == lower_char(v@[j]),
        decreases v@.len() - i,
    {
        let c = v[i];
        let u: u32 = c as u32;
        if 65 <= u && u <= 90 {
            out.push(((u + 32) as u8) as char);
        } else {
            out.push(c);
        }
        i += 1;
    }
    proof {
        assert(out@ =~= lower_seq(v@));
    }
    out
}

/// Removes leading and trailing whitespace.
pub fn trim_chars(v: &Vec<char>) -> (r: Vec<char>)
    ensures
        r@ == trim_seq(v@),
{
    let n = v.len();
    let mut start: usize = 0;
    while start < n && is_space_exec(v[start])
        invariant
            start <= n,
            n == v@.len(),
            forall|m: int| 0 <= m < start ==> is_space(v@[m]),
        decreases n - start,
    {
        start += 1;
    }
    let mut end: usize = n;
    while end > start && is_space_exec(v[end - 1])
        invariant
            start <= end <= n,
            n == v@.len(),
            forall|m: int| end <= m < n ==> is_space(v@[m]),
        decreases end,
    {
        end -= 1;
    }
    let mut out: Vec<char> = Vec::new();
    let mut i: usize = start;
    while i < end
        invariant
            start <= i <= end <= n,
            n == v@.len(),
            out@.len() == i - start,
            forall|j: int| 0 <= j < i - start ==> out@[j] == v@[start + j],
        decreases end - i,
    {
        out.push(v[i]);
        i += 1;
    }
    proof {
        lemma_trim_start_at(v@, start as int);
        let t = v@.subrange(start as int, n as int);
        lemma_trim_end_at(t, end - start);
        assert(out@ =~= t.subrange(0, end - start));
        assert(out@ =~= trim_seq(v@));
    }
    out
}

/// Whether the characters in `v` spell exactly the string `s`.
pub fn eq_str(v: &Vec<char>, s: &str) -> (r: bool)
    ensures
        r == (v@ == s@),
{
    let n = s.unicode_len();
    if v.len() != n {
        return false;
    }
    let mut i: usize = 0;
    while i < n
        invariant
            i <= n,
            n == s@.len(),
            v@.len() == n,
            forall|j: int| 0 <= j < i ==> v@[j] == s@[j],
        decreases n - i,
    {
        if v[i] != s.get_char(i) {
            return false;
        }
        i += 1;
    }
    proof {
        assert(v@ =~= s@);
    }
    true
}

/// The characters of `v` from `from` (inclusive) to `to` (exclusive).
pub fn subvec(v: &Vec<char>, from: usize, to: usize) -> (r: Vec<char>)
    requires
        from <= to <= v@.len(),
    ensures
        r@ == v@.subrange(from as int, to as int),
{
    let mut out: Vec<char> = Vec::new();
    let mut i: usize = from;
    while i < to
        invariant
            from <= i <= to <= v@.len(),
            out@.len() == i - from,
            forall|j: int| 0 <= j < i - from ==> out@[j] == v@[from + j],
        decreases to - i,
    {
        out.push(v[i]);
        i += 1;
    }
    proof {
        assert(out@ =~= v@.subrange(from as int, to as int));
    }
    out
}

} // verus!
