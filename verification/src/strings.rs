//! Character-level helpers on strings: conversion to and from character
//! vectors, whitespace trimming, and searching.
use vstd::prelude::*;

use vstd::utf8::{encode_utf8, is_ascii_chars, is_ascii_chars_encode_utf8};

use crate::text::{
    ascii_chars, decimal, is_digit, lemma_decimal, lemma_parse_decimal, parse_unsigned, push_char,
};

verus! {

/// The characters of a string slice.
pub fn str_chars(s: &str) -> (r: Vec<char>)
    ensures
        r@ == s@,
{
    let mut out: Vec<char> = Vec::new();
    for c in it: s.chars()
        invariant
            out@ == it.seq().take(it.index() as int),
            it.seq() == s@,
    {
        out.push(c);
    }
    out
}

/// The string made of a sequence of characters.
pub fn string_from_chars(c: &[char]) -> (r: String)
    ensures
        r@ == c@,
{
    let mut s = String::new();
    let mut i: usize = 0;
    while i < c.len()
        invariant
            i <= c.len(),
            s@ == c@.take(i as int),
        decreases c.len() - i,
    {
        assert(c@.take(i + 1) =~= c@.take(i as int).push(c@[i as int]));
        push_char(&mut s, c[i]);
        i += 1;
    }
    assert(c@.take(c.len() as int) =~= c@);
    s
}

/// Unicode `White_Space`, the property `char::is_whitespace` tests.
pub open spec fn whitespace(c: char) -> bool {
    ||| '\t' <= c <= '\r'
    ||| c == ' '
    ||| c == '\u{85}'
    ||| c == '\u{a0}'
    ||| c == '\u{1680}'
    ||| '\u{2000}' <= c <= '\u{200a}'
    ||| c == '\u{2028}'
    ||| c == '\u{2029}'
    ||| c == '\u{202f}'
    ||| c == '\u{205f}'
    ||| c == '\u{3000}'
}

/// `char::is_whitespace`.
pub fn is_whitespace(c: char) -> (r: bool)
    ensures
        r == whitespace(c),
{
    ('\t' <= c && c <= '\r') || c == ' ' || c == '\u{85}' || c == '\u{a0}' || c == '\u{1680}'
        || ('\u{2000}' <= c && c <= '\u{200a}') || c == '\u{2028}' || c == '\u{2029}'
        || c == '\u{202f}' || c == '\u{205f}' || c == '\u{3000}'
}

/// `s` without its leading whitespace.
pub open spec fn trim_start(s: Seq<char>) -> Seq<char>
    decreases s.len(),
{
    if s.len() > 0 && whitespace(s[0]) {
        trim_start(s.drop_first())
    } else {
        s
    }
}

/// `s` without its trailing whitespace.
pub open spec fn trim_end(s: Seq<char>) -> Seq<char>
    decreases s.len(),
{
    if s.len() > 0 && whitespace(s.last()) {
        trim_end(s.drop_last())
    } else {
        s
    }
}

/// `s` without leading and trailing whitespace, as `str::trim` gives it.
pub open spec fn trim(s: Seq<char>) -> Seq<char> {
    trim_end(trim_start(s))
}

/// The bounds of `s` trimmed: `s[start..end]` is `trim(s)`.
pub fn trim_bounds(s: &[char]) -> (r: (usize, usize))
    ensures
        r.0 <= r.1 <= s@.len(),
        s@.subrange(r.0 as int, r.1 as int) == trim(s@),
{
    let mut start: usize = 0;
    assert(s@.skip(0) =~= s@);
    while start < s.len() && is_whitespace(s[start])
        invariant
            start <= s.len(),
            trim_start(s@.skip(start as int)) == trim_start(s@),
        decreases s.len() - start,
    {
        assert(s@.skip(start as int).drop_first() =~= s@.skip(start + 1));
        start += 1;
    }
    assert(trim_start(s@) == s@.skip(start as int));
    let mut end: usize = s.len();
    assert(s@.subrange(start as int, end as int) =~= s@.skip(start as int));
    while end > start && is_whitespace(s[end - 1])
        invariant
            start <= end <= s.len(),
            trim_end(s@.subrange(start as int, end as int)) == trim(s@),
        decreases end,
    {
        assert(s@.subrange(start as int, end as int).drop_last() =~= s@.subrange(
            start as int,
            end - 1,
        ));
        end -= 1;
    }
    (start, end)
}

/// The position of the first `c` in `s` at or after `from`.
pub open spec fn index_of(s: Seq<char>, c: char, from: int) -> Option<int>
    decreases s.len() - from,
{
    if from < 0 || from >= s.len() {
        None
    } else if s[from] == c {
        Some(from)
    } else {
        index_of(s, c, from + 1)
    }
}

/// Where `index_of` finds a character, it is there and nowhere before.
pub proof fn lemma_index_of(s: Seq<char>, c: char, from: int)
    requires
        0 <= from,
    ensures
        match index_of(s, c, from) {
            Some(k) => from <= k < s.len() && s[k] == c && forall|j: int|
                from <= j < k ==> s[j] != c,
            None => forall|j: int| from <= j < s.len() ==> s[j] != c,
        },
    decreases s.len() - from,
{
    if from < s.len() && s[from] != c {
        lemma_index_of(s, c, from + 1);
    }
}

/// Finds the first `c` in `s` at or after `from`.
pub fn find_char(s: &[char], c: char, from: usize) -> (r: Option<usize>)
    ensures
        match index_of(s@, c, from as int) {
            Some(k) => r == Some(k as usize),
            None => r is None,
        },
        r matches Some(k) ==> from <= k < s.len() && s@[k as int] == c,
{
    proof {
        lemma_index_of(s@, c, from as int);
    }
    let mut i = from;
    while i < s.len()
        invariant
            from <= i,
            index_of(s@, c, from as int) == index_of(s@, c, i as int),
        decreases s.len() - i,
    {
        if s[i] == c {
            return Some(i);
        }
        i += 1;
    }
    None
}

/// Copies a range of characters.
pub fn chars_range(s: &[char], start: usize, end: usize) -> (r: Vec<char>)
    requires
        start <= end <= s@.len(),
    ensures
        r@ == s@.subrange(start as int, end as int),
{
    let mut out: Vec<char> = Vec::new();
    let mut i = start;
    while i < end
        invariant
            start <= i <= end <= s@.len(),
            out@ == s@.subrange(start as int, i as int),
        decreases end - i,
    {
        out.push(s[i]);
        i += 1;
        assert(out@ =~= s@.subrange(start as int, i as int));
    }
    out
}

/// The string made of a range of characters.
pub fn string_from_range(s: &[char], start: usize, end: usize) -> (r: String)
    requires
        start <= end <= s@.len(),
    ensures
        r@ == s@.subrange(start as int, end as int),
{
    let v = chars_range(s, start, end);
    string_from_chars(v.as_slice())
}

/// The trimmed text of a range of characters, as a string.
pub fn trimmed_string(s: &[char]) -> (r: String)
    ensures
        r@ == trim(s@),
{
    let (a, b) = trim_bounds(s);
    string_from_range(s, a, b)
}

/// An ASCII decimal digit.
pub open spec fn is_ascii_digit(c: char) -> bool {
    '0' <= c <= '9'
}

/// The value of a string of decimal digits.
pub open spec fn digit_chars_value(s: Seq<char>) -> nat
    decreases s.len(),
{
    if s.len() == 0 {
        0
    } else {
        digit_chars_value(s.drop_last()) * 10 + (s.last() as nat - 48) as nat
    }
}

/// The second space-separated field of `s`, as `s.splitn(3, ' ')` gives
/// it: from after the first space to the next space or the end; none when
/// `s` has no space.
pub open spec fn second_field(s: Seq<char>) -> Option<Seq<char>> {
    match index_of(s, ' ', 0) {
        None => None,
        Some(i) => Some(
            match index_of(s, ' ', i + 1) {
                Some(j) => s.subrange(i + 1, j),
                None => s.skip(i + 1),
            },
        ),
    }
}

/// The second space-separated field of `s`.
pub fn second_field_of(s: &[char]) -> (r: Option<Vec<char>>)
    ensures
        match second_field(s@) {
            Some(f) => r matches Some(x) && x@ == f,
            None => r is None,
        },
{
    proof {
        lemma_index_of(s@, ' ', 0);
    }
    match find_char(s, ' ', 0) {
        None => None,
        Some(i) => {
            proof {
                lemma_index_of(s@, ' ', i + 1);
            }
            match find_char(s, ' ', i + 1) {
                Some(j) => Some(chars_range(s, i + 1, j)),
                None => {
                    let f = chars_range(s, i + 1, s.len());
                    assert(f@ =~= s@.skip(i + 1));
                    Some(f)
                },
            }
        },
    }
}

/// `pat` occurs in `s` at position `k`.
pub open spec fn occurs_at(s: Seq<char>, pat: Seq<char>, k: int) -> bool {
    0 <= k && k + pat.len() <= s.len() && s.subrange(k, k + pat.len()) == pat
}

/// `l` without one trailing carriage return.
pub open spec fn strip_cr(l: Seq<char>) -> Seq<char> {
    if l.len() > 0 && l.last() == '\r' {
        l.drop_last()
    } else {
        l
    }
}

/// The lines of a text, as `str::lines` gives them: split at `\n`, with a
/// `\r` before the `\n` dropped; a final line ending adds no empty line.
pub open spec fn lines(t: Seq<char>) -> Seq<Seq<char>>
    decreases t.len(),
{
    if t.len() == 0 {
        Seq::empty()
    } else {
        proof {
            lemma_index_of(t, '\n', 0);
        }
        match index_of(t, '\n', 0) {
            Some(k) => seq![strip_cr(t.take(k))] + lines(t.skip(k + 1)),
            None => seq![t],
        }
    }
}

/// Searching from `from + j` in `s` is searching from `j` in `s` after its
/// first `from` characters.
pub proof fn lemma_index_of_skip(s: Seq<char>, c: char, from: int, j: int)
    requires
        0 <= from <= s.len(),
        0 <= j,
    ensures
        index_of(s.skip(from), c, j) == match index_of(s, c, from + j) {
            Some(k) => Some(k - from),
            None => None::<int>,
        },
    decreases s.len() - from - j,
{
    if from + j < s.len() && s[from + j] != c {
        lemma_index_of_skip(s, c, from, j + 1);
    }
}

/// The views of a vector of character vectors.
pub open spec fn char_lines_view(v: Seq<Vec<char>>) -> Seq<Seq<char>> {
    v.map_values(|l: Vec<char>| l@)
}

/// Splits a text into lines, as `str::lines` does.
pub fn split_lines(t: &[char]) -> (r: Vec<Vec<char>>)
    ensures
        char_lines_view(r@) == lines(t@),
{
    let mut out: Vec<Vec<char>> = Vec::new();
    let mut pos: usize = 0;
    assert(t@.skip(0) =~= t@);
    while pos < t.len()
        invariant
            pos <= t@.len(),
            char_lines_view(out@) + lines(t@.skip(pos as int)) == lines(t@),
        decreases t.len() - pos,
    {
        let ghost rest = t@.skip(pos as int);
        proof {
            lemma_index_of_skip(t@, '\n', pos as int, 0);
            lemma_index_of(t@, '\n', pos as int);
        }
        let ghost before = char_lines_view(out@);
        match find_char(t, '\n', pos) {
            Some(k) => {
                assert(rest.take(k - pos) =~= t@.subrange(pos as int, k as int));
                assert(rest.skip(k - pos + 1) =~= t@.skip(k + 1));
                let end = if k > pos && t[k - 1] == '\r' {
                    assert(strip_cr(rest.take(k - pos)) =~= t@.subrange(pos as int, k - 1));
                    k - 1
                } else {
                    k
                };
                let line = chars_range(t, pos, end);
                out.push(line);
                assert(char_lines_view(out@) =~= before + seq![line@]);
                pos = k + 1;
            },
            None => {
                let line = chars_range(t, pos, t.len());
                assert(line@ =~= rest);
                out.push(line);
                assert(char_lines_view(out@) =~= before + seq![line@]);
                assert(t@.skip(t.len() as int) =~= Seq::<char>::empty());
                pos = t.len();
            },
        }
    }
    assert(t@.skip(pos as int) =~= Seq::<char>::empty());
    assert(char_lines_view(out@) =~= char_lines_view(out@) + Seq::<Seq<char>>::empty());
    out
}

/// `pat` occurs somewhere in `s`.
pub open spec fn contains(s: Seq<char>, pat: Seq<char>) -> bool {
    exists|k: int| occurs_at(s, pat, k)
}

/// Whether `pat` occurs in `s` at `k`.
pub fn occurs_at_exec(s: &[char], pat: &[char], k: usize) -> (r: bool)
    ensures
        r == occurs_at(s@, pat@, k as int),
{
    if k > s.len() || pat.len() > s.len() - k {
        return false;
    }
    let mut j: usize = 0;
    while j < pat.len()
        invariant
            j <= pat.len(),
            k + pat.len() <= s.len(),
            forall|i: int| 0 <= i < j ==> s@[k + i] == pat@[i],
        decreases pat.len() - j,
    {
        if s[k + j] != pat[j] {
            assert(s@.subrange(k as int, k + pat.len())[j as int] != pat@[j as int]);
            return false;
        }
        j += 1;
    }
    assert(s@.subrange(k as int, k + pat.len()) =~= pat@);
    true
}

/// Whether `pat` occurs in `s`.
pub fn contains_chars(s: &[char], pat: &[char]) -> (r: bool)
    ensures
        r == contains(s@, pat@),
{
    if pat.len() > s.len() {
        return false;
    }
    let m = s.len() - pat.len();
    let mut k: usize = 0;
    loop
        invariant
            pat.len() <= s.len(),
            m == s.len() - pat.len(),
            k <= m,
            forall|j: int| 0 <= j < k ==> !occurs_at(s@, pat@, j),
        decreases m - k,
    {
        if occurs_at_exec(s, pat, k) {
            return true;
        }
        if k == m {
            assert forall|j: int| !occurs_at(s@, pat@, j) by {
                if 0 <= j && j <= k {
                }
            }
            return false;
        }
        k += 1;
    }
}

/// The text before the first `c` in `s` (all of `s` when there is none).
pub open spec fn before_char(s: Seq<char>, c: char) -> Seq<char> {
    match index_of(s, c, 0) {
        Some(k) => s.take(k),
        None => s,
    }
}

/// The position of the last `c` in `s`.
pub open spec fn last_index_of(s: Seq<char>, c: char) -> Option<int>
    decreases s.len(),
{
    if s.len() == 0 {
        None
    } else if s.last() == c {
        Some(s.len() - 1)
    } else {
        last_index_of(s.drop_last(), c)
    }
}

/// Finds the last `c` in `s`.
pub fn rfind_char(s: &[char], c: char) -> (r: Option<usize>)
    ensures
        match last_index_of(s@, c) {
            Some(k) => r == Some(k as usize) && 0 <= k < s.len(),
            None => r is None,
        },
{
    let mut n = s.len();
    assert(s@.take(n as int) =~= s@);
    while n > 0
        invariant
            n <= s.len(),
            last_index_of(s@, c) == last_index_of(s@.take(n as int), c),
        decreases n,
    {
        if s[n - 1] == c {
            return Some(n - 1);
        }
        assert(s@.take(n as int).drop_last() =~= s@.take(n - 1));
        n -= 1;
    }
    None
}

/// The Unicode lowercase mapping of a text, as `str::to_lowercase` gives it.
pub uninterp spec fn lowercase(s: Seq<char>) -> Seq<char>;

/// Text made only of ASCII characters.
pub open spec fn ascii_text(s: Seq<char>) -> bool {
    forall|i: int| 0 <= i < s.len() ==> (#[trigger] s[i] as u32) < 128
}

/// ASCII lowercasing of one character: `A`-`Z` become `a`-`z`, every other
/// character stays.
pub open spec fn ascii_lower(c: char) -> char {
    if 'A' <= c && c <= 'Z' {
        ((c as u32) + 32) as char
    } else {
        c
    }
}

/// ASCII lowercasing of a text, character by character.
pub open spec fn ascii_lowercase(s: Seq<char>) -> Seq<char> {
    s.map_values(|c: char| ascii_lower(c))
}

/// `str::to_lowercase`. The contract names the result; of ASCII text it
/// states what the Unicode lowercase mapping gives there: each character
/// lowercased in ASCII (`A`-`Z` to `a`-`z`, everything else unchanged),
/// one character for one.
#[verifier::external_body]
pub(crate) fn to_lowercase(s: &str) -> (r: String)
    ensures
        r@ == lowercase(s@),
        ascii_text(s@) ==> r@ == ascii_lowercase(s@),
{
    s.to_lowercase()
}

/// Whether two strings hold the same characters.
pub fn str_eq(a: &str, b: &str) -> (r: bool)
    ensures
        r == (a@ == b@),
{
    let x = str_chars(a);
    let y = str_chars(b);
    if x.len() != y.len() {
        return false;
    }
    let mut i: usize = 0;
    while i < x.len()
        invariant
            i <= x.len() == y.len(),
            x@ == a@,
            y@ == b@,
            forall|j: int| 0 <= j < i ==> x@[j] == y@[j],
        decreases x.len() - i,
    {
        if x[i] != y[i] {
            assert(x@[i as int] != y@[i as int]);
            return false;
        }
        i += 1;
    }
    assert(x@ =~= y@);
    true
}

/// The pieces of `s` between occurrences of `c`, as `str::split` gives
/// them (always at least one).
pub open spec fn split_on(s: Seq<char>, c: char) -> Seq<Seq<char>>
    decreases s.len(),
{
    proof {
        lemma_index_of(s, c, 0);
    }
    match index_of(s, c, 0) {
        Some(k) => seq![s.take(k)] + split_on(s.skip(k + 1), c),
        None => seq![s],
    }
}

/// The decimal text of `n` as characters: digits only, whose UTF-8 bytes
/// parse back to `n`.
pub proof fn lemma_decimal_text(n: nat, max: nat)
    requires
        n <= max,
    ensures
        ascii_chars(decimal(n)).len() >= 1,
        forall|j: int| 0 <= j < ascii_chars(decimal(n)).len() ==> '0' <= #[trigger] ascii_chars(
            decimal(n),
        )[j] <= '9',
        parse_unsigned(encode_utf8(ascii_chars(decimal(n))), max) == Some(n),
{
    let b = decimal(n);
    let d = ascii_chars(b);
    lemma_decimal(n);
    lemma_parse_decimal(n, max);
    assert forall|j: int| 0 <= j < d.len() implies '0' <= #[trigger] d[j] <= '9' by {
        assert(is_digit(b[j]));
    }
    assert(is_ascii_chars(d));
    is_ascii_chars_encode_utf8(d);
    assert(encode_utf8(d) =~= b);
}

/// Text without `c` splits into itself alone; text with one `c` between
/// two such texts splits into those two.
pub proof fn lemma_split_once(a: Seq<char>, b: Seq<char>, c: char)
    requires
        forall|j: int| 0 <= j < a.len() ==> a[j] != c,
        forall|j: int| 0 <= j < b.len() ==> b[j] != c,
    ensures
        split_on(a, c) == seq![a],
        split_on(a + seq![c] + b, c) == seq![a, b],
{
    lemma_index_of(a, c, 0);
    lemma_index_of(b, c, 0);
    let s = a + seq![c] + b;
    lemma_index_of(s, c, 0);
    assert(s[a.len() as int] == c);
    assert(index_of(s, c, 0) == Some(a.len() as int)) by {
        if let Some(k) = index_of(s, c, 0) {
            if k < a.len() {
                assert(s[k] == a[k]);
            }
        }
    }
    assert(s.take(a.len() as int) =~= a);
    assert(s.skip(a.len() as int + 1) =~= b);
    assert(split_on(s, c) =~= seq![a] + split_on(b, c));
}

/// Text with `c` between its parts splits at each `c`: `a c b` splits into
/// `a` followed by the pieces of `b`.
pub proof fn lemma_split_first(a: Seq<char>, b: Seq<char>, c: char)
    requires
        forall|j: int| 0 <= j < a.len() ==> a[j] != c,
    ensures
        split_on(a + seq![c] + b, c) == seq![a] + split_on(b, c),
{
    let s = a + seq![c] + b;
    lemma_index_of(s, c, 0);
    assert(s[a.len() as int] == c);
    assert(index_of(s, c, 0) == Some(a.len() as int)) by {
        if let Some(k) = index_of(s, c, 0) {
            if k < a.len() {
                assert(s[k] == a[k]);
            }
        }
    }
    assert(s.take(a.len() as int) =~= a);
    assert(s.skip(a.len() as int + 1) =~= b);
}

/// Splits `s` at every `c`.
pub fn split_char(s: &[char], c: char) -> (r: Vec<Vec<char>>)
    ensures
        char_lines_view(r@) == split_on(s@, c),
{
    let mut out: Vec<Vec<char>> = Vec::new();
    let mut pos: usize = 0;
    assert(s@.skip(0) =~= s@);
    loop
        invariant
            pos <= s@.len(),
            char_lines_view(out@) + split_on(s@.skip(pos as int), c) == split_on(s@, c),
        decreases s.len() - pos,
    {
        let ghost rest = s@.skip(pos as int);
        proof {
            lemma_index_of_skip(s@, c, pos as int, 0);
            lemma_index_of(s@, c, pos as int);
        }
        let ghost before = char_lines_view(out@);
        match find_char(s, c, pos) {
            Some(k) => {
                assert(rest.take(k - pos) =~= s@.subrange(pos as int, k as int));
                assert(rest.skip(k - pos + 1) =~= s@.skip(k + 1));
                let piece = chars_range(s, pos, k);
                out.push(piece);
                assert(char_lines_view(out@) =~= before + seq![piece@]);
                pos = k + 1;
            },
            None => {
                let piece = chars_range(s, pos, s.len());
                assert(piece@ =~= rest);
                out.push(piece);
                assert(char_lines_view(out@) =~= before + seq![piece@]);
                assert(char_lines_view(out@) =~= char_lines_view(out@) + Seq::<Seq<char>>::empty());
                return out;
            },
        }
    }
}

} // verus!
