//! Whitespace and trimming of a line of text, over its characters.

use vstd::prelude::*;
use vstd::string::*;

verus! {

/// The characters that count as whitespace: the Unicode `White_Space` set.
pub open spec fn is_space(c: char) -> bool {
    let u = c as u32;
    ||| 0x09 <= u <= 0x0D
    ||| u == 0x20
    ||| u == 0x85
    ||| u == 0xA0
    ||| u == 0x1680
    ||| 0x2000 <= u <= 0x200A
    ||| u == 0x2028
    ||| u == 0x2029
    ||| u == 0x202F
    ||| u == 0x205F
    ||| u == 0x3000
}

/// The first position at or after `from` that holds no whitespace, or the
/// length of `s` where only whitespace follows.
pub open spec fn skip_front(s: Seq<char>, from: int) -> int
    decreases s.len() - from,
{
    if 0 <= from < s.len() && is_space(s[from]) {
        skip_front(s, from + 1)
    } else {
        from
    }
}

/// The end of the last stretch in `s[lo..to]` that closes with a character
/// other than whitespace, or `lo` where there is none.
pub open spec fn skip_back(s: Seq<char>, lo: int, to: int) -> int
    decreases to - lo,
{
    if lo < to <= s.len() && 0 <= lo && is_space(s[to - 1]) {
        skip_back(s, lo, to - 1)
    } else {
        to
    }
}

/// Where the trimmed text starts in `s`.
pub open spec fn trim_start(s: Seq<char>) -> int {
    skip_front(s, 0)
}

/// Where the trimmed text ends in `s`.
pub open spec fn trim_end(s: Seq<char>) -> int {
    skip_back(s, trim_start(s), s.len() as int)
}

/// `s` without the whitespace at its two ends.
pub open spec fn trimmed(s: Seq<char>) -> Seq<char> {
    s.subrange(trim_start(s), trim_end(s))
}

/// `skip_front` stays within the text and never moves backwards.
pub proof fn lemma_skip_front_bounds(s: Seq<char>, from: int)
    requires
        0 <= from <= s.len(),
    ensures
        from <= skip_front(s, from) <= s.len(),
        forall|k: int| from <= k < skip_front(s, from) ==> is_space(#[trigger] s[k]),
        skip_front(s, from) < s.len() ==> !is_space(s[skip_front(s, from)]),
    decreases s.len() - from,
{
    if from < s.len() && is_space(s[from]) {
        lemma_skip_front_bounds(s, from + 1);
    }
}

/// `skip_back` stays between `lo` and `to`.
pub proof fn lemma_skip_back_bounds(s: Seq<char>, lo: int, to: int)
    requires
        0 <= lo <= to <= s.len(),
    ensures
        lo <= skip_back(s, lo, to) <= to,
        forall|k: int| skip_back(s, lo, to) <= k < to ==> is_space(#[trigger] s[k]),
        lo < skip_back(s, lo, to) ==> !is_space(s[skip_back(s, lo, to) - 1]),
    decreases to - lo,
{
    if lo < to && is_space(s[to - 1]) {
        lemma_skip_back_bounds(s, lo, to - 1);
    }
}

/// Trimmed text neither starts nor ends with whitespace, and only whitespace
/// was cut away.
pub proof fn lemma_trimmed_is_tight(s: Seq<char>)
    ensures
        0 <= trim_start(s) <= trim_end(s) <= s.len(),
        forall|k: int| 0 <= k < trim_start(s) ==> is_space(#[trigger] s[k]),
        forall|k: int| trim_end(s) <= k < s.len() ==> is_space(#[trigger] s[k]),
        trimmed(s).len() > 0 ==> !is_space(trimmed(s).first()) && !is_space(trimmed(s).last()),
{
    lemma_skip_front_bounds(s, 0);
    lemma_skip_back_bounds(s, trim_start(s), s.len() as int);
}

/// Whether `c` is whitespace.
pub fn is_whitespace(c: char) -> (b: bool)
    ensures
        b == is_space(c),
{
    let u: u32 = c as u32;
    (0x09 <= u && u <= 0x0D) || u == 0x20 || u == 0x85 || u == 0xA0 || u == 0x1680 || (0x2000 <= u
        && u <= 0x200A) || u == 0x2028 || u == 0x2029 || u == 0x202F || u == 0x205F || u == 0x3000
}

/// The part of `line` that is left when the whitespace at both ends is cut.
pub fn trim(line: &str) -> (t: &str)
    ensures
        t@ == trimmed(line@),
{
    let n: usize = line.unicode_len();
    let mut a: usize = 0;
    while a < n && is_whitespace(line.get_char(a))
        invariant
            n == line@.len(),
            a <= n,
            skip_front(line@, a as int) == skip_front(line@, 0),
        decreases n - a,
    {
        a = a + 1;
    }
    let mut b: usize = n;
    while a < b && is_whitespace(line.get_char(b - 1))
        invariant
            n == line@.len(),
            a <= b <= n,
            skip_back(line@, a as int, b as int) == skip_back(line@, a as int, n as int),
        decreases b - a,
    {
        b = b - 1;
    }
    line.substring_char(a, b)
}

/// Whether two texts hold the same characters.
pub fn same_text(a: &str, b: &str) -> (same: bool)
    ensures
        same == (a@ == b@),
{
    let n: usize = a.unicode_len();
    if n != b.unicode_len() {
        return false;
    }
    let mut i: usize = 0;
    while i < n
        invariant
            n == a@.len(),
            n == b@.len(),
            i <= n,
            forall|k: int| 0 <= k < i ==> a@[k] == b@[k],
        decreases n - i,
    {
        if a.get_char(i) != b.get_char(i) {
            return false;
        }
        i = i + 1;
    }
    assert(a@ =~= b@);
    true
}

} // verus!
