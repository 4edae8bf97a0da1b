//! ASCII case folding and comparisons on character sequences.
use vstd::prelude::*;
use vstd::string::StringExecFns;

verus! {

/// The ASCII lower-case form of a character; other characters are unchanged.
pub open spec fn lower(c: char) -> char {
    if 'A' <= c && c <= 'Z' {
        ((c as u8) + 32) as char
    } else {
        c
    }
}

/// A sequence with every character folded by `lower`.
pub open spec fn folded(s: Seq<char>) -> Seq<char> {
    Seq::new(s.len(), |i: int| lower(s[i]))
}

pub fn ascii_lower(c: char) -> (r: char)
    ensures
        r == lower(c),
{
    if 'A' <= c && c <= 'Z' {
        ((c as u8) + 32) as char
    } else {
        c
    }
}

/// Unicode white space (the `White_Space` property).
pub open spec fn is_space(c: char) -> bool {
    ('\u{9}' <= c && c <= '\u{D}') || c == ' ' || c == '\u{85}' || c == '\u{A0}' || c
        == '\u{1680}' || ('\u{2000}' <= c && c <= '\u{200A}') || c == '\u{2028}' || c
        == '\u{2029}' || c == '\u{202F}' || c == '\u{205F}' || c == '\u{3000}'
}

pub fn is_space_char(c: char) -> (r: bool)
    ensures
        r == is_space(c),
{
    ('\u{9}' <= c && c <= '\u{D}') || c == ' ' || c == '\u{85}' || c == '\u{A0}' || c
        == '\u{1680}' || ('\u{2000}' <= c && c <= '\u{200A}') || c == '\u{2028}' || c
        == '\u{2029}' || c == '\u{202F}' || c == '\u{205F}' || c == '\u{3000}'
}

/// Length of `t[..k]` once trailing whitespace is dropped.
pub open spec fn space_trimmed(t: Seq<char>, k: int) -> int
    decreases k,
{
    if k <= 0 {
        0
    } else if is_space(t[k - 1]) {
        space_trimmed(t, k - 1)
    } else {
        k
    }
}

/// Index of the first non-whitespace character of `t` at or after `i`
/// (`t.len()` when there is none).
pub open spec fn space_skipped(t: Seq<char>, i: int) -> int
    decreases t.len() - i,
{
    if i >= t.len() {
        t.len() as int
    } else if is_space(t[i]) {
        space_skipped(t, i + 1)
    } else {
        i
    }
}

/// `t` without leading and trailing whitespace.
pub open spec fn trimmed(t: Seq<char>) -> Seq<char> {
    let e = space_trimmed(t, t.len() as int);
    let b = space_skipped(t, 0);
    if b >= e { Seq::empty() } else { t.subrange(b, e) }
}

pub fn trim_spaces(s: &str) -> (r: String)
    ensures
        r@ == trimmed(s@),
{
    let n = s.unicode_len();
    let mut e: usize = n;
    while e > 0 && is_space_char(s.get_char(e - 1))
        invariant
            e <= n,
            n == s@.len(),
            space_trimmed(s@, e as int) == space_trimmed(s@, n as int),
        decreases e,
    {
        e -= 1;
    }
    assert(space_trimmed(s@, e as int) == e);
    let mut b: usize = 0;
    while b < n && is_space_char(s.get_char(b))
        invariant
            b <= n,
            n == s@.len(),
            space_skipped(s@, b as int) == space_skipped(s@, 0),
        decreases n - b,
    {
        b += 1;
    }
    assert(space_skipped(s@, b as int) == b);
    if b >= e {
        String::new()
    } else {
        String::from_str(s.substring_char(b, e))
    }
}

/// Whether `s`, folded to lower case, equals `word`.
pub fn equals_folded(s: &str, word: &str) -> (r: bool)
    ensures
        r == (folded(s@) == word@),
{
    let n = s.unicode_len();
    if n != word.unicode_len() {
        proof {
            if folded(s@) == word@ {
                assert(folded(s@).len() == s@.len());
            }
        }
        return false;
    }
    let mut i: usize = 0;
    while i < n
        invariant
            n == s@.len(),
            n == word@.len(),
            i <= n,
            forall|j: int| 0 <= j < i ==> lower(s@[j]) == word@[j],
        decreases n - i,
    {
        if ascii_lower(s.get_char(i)) != word.get_char(i) {
            assert(folded(s@)[i as int] != word@[i as int]);
            return false;
        }
        i += 1;
    }
    assert(folded(s@) =~= word@);
    true
}

} // verus!
