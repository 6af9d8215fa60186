//! Character classes and scanning over text, as the value parsers need them.

use vstd::prelude::*;
use vstd::string::*;

verus! {

/// Whether `c` carries the Unicode `White_Space` property.
pub open spec fn is_whitespace(c: char) -> bool {
    let u = c as u32;
    ||| 0x09 <= u <= 0x0D
    ||| u == 0x20
    ||| u == 0x85
    ||| u == 0xA0
    ||| u == 0x1680
    ||| 0x2000 <= u <= 0x200A
    ||| u == 0x2028
    ||| u == 0x2029
    ||| u == 0x202F
    ||| u == 0x205F
    ||| u == 0x3000
}

/// The lower-case form of an ASCII capital; any other character is itself.
pub open spec fn ascii_lower(c: char) -> char {
    if 'A' <= c <= 'Z' {
        ((c as u32) + 32) as char
    } else {
        c
    }
}

/// `s` with every ASCII capital replaced by its lower-case form.
pub open spec fn ascii_lowercase(s: Seq<char>) -> Seq<char> {
    s.map_values(|c: char| ascii_lower(c))
}

/// Index of the first character at or after `from` that is not whitespace,
/// or the length of `s` when there is none.
pub open spec fn skip_whitespace(s: Seq<char>, from: int) -> int
    decreases s.len() - from,
{
    if 0 <= from < s.len() && is_whitespace(s[from]) {
        skip_whitespace(s, from + 1)
    } else {
        from
    }
}

/// Index of the first whitespace character at or after `from`, or the length
/// of `s` when there is none.
pub open spec fn skip_token(s: Seq<char>, from: int) -> int
    decreases s.len() - from,
{
    if 0 <= from < s.len() && !is_whitespace(s[from]) {
        skip_token(s, from + 1)
    } else {
        from
    }
}

/// The least index `to' <= to` such that everything in `s` from `to'` up to
/// `to` is whitespace, never going below `from`.
pub open spec fn skip_whitespace_back(s: Seq<char>, from: int, to: int) -> int
    decreases to - from,
{
    if from < to <= s.len() && is_whitespace(s[to - 1]) {
        skip_whitespace_back(s, from, to - 1)
    } else {
        to
    }
}

/// Where the trimmed part of `s` begins.
pub open spec fn trim_start_index(s: Seq<char>) -> int {
    skip_whitespace(s, 0)
}

/// Where the trimmed part of `s` ends.
pub open spec fn trim_end_index(s: Seq<char>) -> int {
    skip_whitespace_back(s, trim_start_index(s), s.len() as int)
}

/// `s` without its leading and trailing whitespace.
pub open spec fn trim(s: Seq<char>) -> Seq<char> {
    s.subrange(trim_start_index(s), trim_end_index(s))
}

/// Whether `s` holds nothing but whitespace.
pub open spec fn is_blank(s: Seq<char>) -> bool {
    forall|i: int| 0 <= i < s.len() ==> is_whitespace(#[trigger] s[i])
}

/// Where the `n`-th whitespace-separated token of `s` begins (counting from
/// zero); the length of `s` when `s` has no such token.
pub open spec fn token_start(s: Seq<char>, n: nat) -> int
    decreases n,
{
    if n == 0 {
        skip_whitespace(s, 0)
    } else {
        skip_whitespace(s, skip_token(s, token_start(s, (n - 1) as nat)))
    }
}

/// Where the `n`-th whitespace-separated token of `s` ends.
pub open spec fn token_end(s: Seq<char>, n: nat) -> int {
    skip_token(s, token_start(s, n))
}

/// The `n`-th whitespace-separated token of `s`; empty when `s` has fewer
/// than `n + 1` tokens.
pub open spec fn token(s: Seq<char>, n: nat) -> Seq<char> {
    s.subrange(token_start(s, n), token_end(s, n))
}

/// `skip_whitespace` stays inside the text and passes only whitespace.
pub proof fn lemma_skip_whitespace(s: Seq<char>, from: int)
    requires
        0 <= from <= s.len(),
    ensures
        from <= skip_whitespace(s, from) <= s.len(),
        forall|i: int| from <= i < skip_whitespace(s, from) ==> is_whitespace(#[trigger] s[i]),
        skip_whitespace(s, from) < s.len() ==> !is_whitespace(s[skip_whitespace(s, from)]),
    decreases s.len() - from,
{
    if from < s.len() && is_whitespace(s[from]) {
        lemma_skip_whitespace(s, from + 1);
    }
}

/// `skip_token` stays inside the text and passes no whitespace.
pub proof fn lemma_skip_token(s: Seq<char>, from: int)
    requires
        0 <= from <= s.len(),
    ensures
        from <= skip_token(s, from) <= s.len(),
        forall|i: int| from <= i < skip_token(s, from) ==> !is_whitespace(#[trigger] s[i]),
        skip_token(s, from) < s.len() ==> is_whitespace(s[skip_token(s, from)]),
    decreases s.len() - from,
{
    if from < s.len() && !is_whitespace(s[from]) {
        lemma_skip_token(s, from + 1);
    }
}

/// `skip_whitespace_back` stays between its bounds and passes only whitespace.
pub proof fn lemma_skip_whitespace_back(s: Seq<char>, from: int, to: int)
    requires
        0 <= from <= to <= s.len(),
    ensures
        from <= skip_whitespace_back(s, from, to) <= to,
        forall|i: int|
            skip_whitespace_back(s, from, to) <= i < to ==> is_whitespace(#[trigger] s[i]),
        from < skip_whitespace_back(s, from, to) ==> !is_whitespace(
            s[skip_whitespace_back(s, from, to) - 1],
        ),
    decreases to - from,
{
    if from < to && is_whitespace(s[to - 1]) {
        lemma_skip_whitespace_back(s, from, to - 1);
    }
}

/// A run of whitespace from `from` up to `to`, with no whitespace at `to`,
/// is what `skip_whitespace` passes.
pub proof fn lemma_skip_whitespace_to(s: Seq<char>, from: int, to: int)
    requires
        0 <= from <= to <= s.len(),
        forall|i: int| from <= i < to ==> is_whitespace(#[trigger] s[i]),
        to == s.len() || !is_whitespace(s[to]),
    ensures
        skip_whitespace(s, from) == to,
    decreases to - from,
{
    if from < to {
        lemma_skip_whitespace_to(s, from + 1, to);
    }
}

/// A run without whitespace from `from` up to `to`, with whitespace or the
/// end of the text at `to`, is what `skip_token` passes.
pub proof fn lemma_skip_token_to(s: Seq<char>, from: int, to: int)
    requires
        0 <= from <= to <= s.len(),
        forall|i: int| from <= i < to ==> !is_whitespace(#[trigger] s[i]),
        to == s.len() || is_whitespace(s[to]),
    ensures
        skip_token(s, from) == to,
    decreases to - from,
{
    if from < to {
        lemma_skip_token_to(s, from + 1, to);
    }
}

/// A run of whitespace from `stop` up to `to`, with no whitespace before
/// `stop` or with `stop` at `from`, is what `skip_whitespace_back` passes.
pub proof fn lemma_skip_whitespace_back_to(s: Seq<char>, from: int, to: int, stop: int)
    requires
        0 <= from <= stop <= to <= s.len(),
        forall|i: int| stop <= i < to ==> is_whitespace(#[trigger] s[i]),
        stop == from || !is_whitespace(s[stop - 1]),
    ensures
        skip_whitespace_back(s, from, to) == stop,
    decreases to - stop,
{
    if stop < to {
        lemma_skip_whitespace_back_to(s, from, to - 1, stop);
    }
}

/// The trimmed text is blank exactly when the text is, and then it is empty.
pub proof fn lemma_trim_blank(s: Seq<char>)
    ensures
        is_blank(s) <==> trim(s).len() == 0,
        is_blank(s) <==> trim_start_index(s) == s.len(),
        0 <= trim_start_index(s) <= trim_end_index(s) <= s.len(),
{
    lemma_skip_whitespace(s, 0);
    lemma_skip_whitespace_back(s, trim_start_index(s), s.len() as int);
}

/// Whether `c` is whitespace.
pub fn char_is_whitespace(c: char) -> (r: bool)
    ensures
        r == is_whitespace(c),
{
    let u: u32 = c as u32;
    (0x09 <= u && u <= 0x0D) || u == 0x20 || u == 0x85 || u == 0xA0 || u == 0x1680 || (0x2000 <= u
        && u <= 0x200A) || u == 0x2028 || u == 0x2029 || u == 0x202F || u == 0x205F || u == 0x3000
}

/// Whether `c`, lower-cased if it is an ASCII capital, is `lower`.
pub fn char_lowers_to(c: char, lower: char) -> (r: bool)
    ensures
        r == (ascii_lower(c) == lower),
{
    let u: u32 = c as u32;
    let l: u32 = lower as u32;
    if 'A' <= c && c <= 'Z' {
        u + 32 == l
    } else {
        u == l
    }
}

/// The characters of `s`, one by one.
pub fn chars_of(s: &str) -> (v: Vec<char>)
    ensures
        v@ == s@,
{
    let mut v: Vec<char> = Vec::new();
    for c in it: s.chars()
        invariant
            v@ == it.seq().take(it.index() as int),
            it.seq() == s@,
    {
        v.push(c);
    }
    v
}

/// Scans forward over whitespace, from `from` on. Past the end of `v` there
/// is nothing to scan.
pub fn scan_whitespace(v: &Vec<char>, from: usize) -> (i: usize)
    ensures
        i == skip_whitespace(v@, from as int),
        from <= i,
        from <= v.len() ==> i <= v.len(),
{
    let mut i: usize = from;
    while i < v.len() && char_is_whitespace(v[i])
        invariant
            from <= i,
            from <= v.len() ==> i <= v.len(),
            skip_whitespace(v@, from as int) == skip_whitespace(v@, i as int),
        decreases v.len() - i,
    {
        i += 1;
    }
    i
}

/// Scans forward over a run of characters that are not whitespace, from
/// `from` on. Past the end of `v` there is nothing to scan.
pub fn scan_token(v: &Vec<char>, from: usize) -> (i: usize)
    ensures
        i == skip_token(v@, from as int),
        from <= i,
        from <= v.len() ==> i <= v.len(),
{
    let mut i: usize = from;
    while i < v.len() && !char_is_whitespace(v[i])
        invariant
            from <= i,
            from <= v.len() ==> i <= v.len(),
            skip_token(v@, from as int) == skip_token(v@, i as int),
        decreases v.len() - i,
    {
        i += 1;
    }
    i
}

/// Scans backward over whitespace, from `to` down to `from` at most. Past
/// the end of `v` there is nothing to scan.
pub fn scan_whitespace_back(v: &Vec<char>, from: usize, to: usize) -> (i: usize)
    ensures
        i == skip_whitespace_back(v@, from as int, to as int),
        i <= to,
        from <= to ==> from <= i,
{
    let mut i: usize = to;
    while from < i && i <= v.len() && char_is_whitespace(v[i - 1])
        invariant
            i <= to,
            from <= to ==> from <= i,
            skip_whitespace_back(v@, from as int, to as int) == skip_whitespace_back(
                v@,
                from as int,
                i as int,
            ),
        decreases i - from,
    {
        i -= 1;
    }
    i
}

/// Whether the characters of `v` from `from` up to `to`, lower-cased, spell
/// `word`.
pub(crate) fn spells_ignoring_case(v: &Vec<char>, from: usize, to: usize, word: &str) -> (r: bool)
    requires
        from <= to <= v.len(),
    ensures
        r == (ascii_lowercase(v@.subrange(from as int, to as int)) == word@),
{
    let w = chars_of(word);
    let ghost part = v@.subrange(from as int, to as int);
    if w.len() != to - from {
        assert(ascii_lowercase(part).len() != word@.len());
        return false;
    }
    let mut i: usize = 0;
    while i < w.len()
        invariant
            from <= to <= v.len(),
            w.len() == to - from,
            w@ == word@,
            part == v@.subrange(from as int, to as int),
            0 <= i <= w.len(),
            forall|j: int| 0 <= j < i ==> ascii_lower(part[j]) == w@[j],
        decreases w.len() - i,
    {
        if !char_lowers_to(v[from + i], w[i]) {
            assert(ascii_lowercase(part)[i as int] != word@[i as int]);
            return false;
        }
        i += 1;
    }
    assert(ascii_lowercase(part) =~= word@);
    true
}

/// The text of `s` without its leading and trailing whitespace.
pub fn trim_str(s: &str) -> (r: String)
    ensures
        r@ == trim(s@),
{
    let v = chars_of(s);
    let a = scan_whitespace(&v, 0);
    let b = scan_whitespace_back(&v, a, v.len());
    s.substring_char(a, b).to_owned()
}

/// Whether `s` holds nothing but whitespace.
pub fn str_is_blank(s: &str) -> (r: bool)
    ensures
        r == is_blank(s@),
{
    let v = chars_of(s);
    let a = scan_whitespace(&v, 0);
    proof {
        lemma_trim_blank(s@);
    }
    a == v.len()
}

} // verus!
