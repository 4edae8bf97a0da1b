//! Recognition of a trailing spoken "submit" command ("... and press enter").
use crate::text::{ascii_lower, folded, is_space_char, lower, space_trimmed};
use vstd::prelude::*;

verus! {

/// Number of recognised command phrases.
pub const PHRASE_COUNT: usize = 12;

/// The recognised phrases, in lower case, each led by "and" or "then"
/// (including common misrecognitions of "press").
pub open spec fn phrase(i: int) -> Seq<char> {
    if i == 0 {
        "and press enter"@
    } else if i == 1 {
        "and hit enter"@
    } else if i == 2 {
        "and press return"@
    } else if i == 3 {
        "and hit return"@
    } else if i == 4 {
        "then press enter"@
    } else if i == 5 {
        "then hit enter"@
    } else if i == 6 {
        "and present enter"@
    } else if i == 7 {
        "and presence enter"@
    } else if i == 8 {
        "and pressing enter"@
    } else if i == 9 {
        "and president enter"@
    } else if i == 10 {
        "then present enter"@
    } else {
        "then pressing enter"@
    }
}

fn phrase_at(i: usize) -> (r: &'static str)
    requires
        i < PHRASE_COUNT,
    ensures
        r@ == phrase(i as int),
{
    match i {
        0 => "and press enter",
        1 => "and hit enter",
        2 => "and press return",
        3 => "and hit return",
        4 => "then press enter",
        5 => "then hit enter",
        6 => "and present enter",
        7 => "and presence enter",
        8 => "and pressing enter",
        9 => "and president enter",
        10 => "then present enter",
        _ => "then pressing enter",
    }
}

/// Trailing characters ignored before matching.
pub open spec fn is_trailing_punct(c: char) -> bool {
    c == '.' || c == '!' || c == '?' || c == ',' || c == ';' || c == ' '
}

pub open spec fn is_letter(c: char) -> bool {
    ('a' <= c && c <= 'z') || ('A' <= c && c <= 'Z')
}

/// Length of `t[..k]` once trailing punctuation and spaces are dropped.
pub open spec fn punct_trimmed(t: Seq<char>, k: int) -> int
    decreases k,
{
    if k <= 0 {
        0
    } else if is_trailing_punct(t[k - 1]) {
        punct_trimmed(t, k - 1)
    } else {
        k
    }
}

/// Whether `t[..k]` ends, case-insensitively, with phrase `p` standing as
/// whole words (not preceded by a letter).
pub open spec fn ends_with_phrase(t: Seq<char>, k: int, p: Seq<char>) -> bool {
    &&& p.len() <= k <= t.len()
    &&& folded(t.subrange(k - p.len(), k)) == p
    &&& (k - p.len() == 0 || !is_letter(t[k - p.len() - 1]))
}

/// The first phrase, from index `i` on, that ends `t[..k]`.
pub open spec fn first_phrase_from(t: Seq<char>, k: int, i: int) -> Option<int>
    decreases PHRASE_COUNT - i,
{
    if i >= PHRASE_COUNT {
        None
    } else if ends_with_phrase(t, k, phrase(i)) {
        Some(i)
    } else {
        first_phrase_from(t, k, i + 1)
    }
}

/// The text with a trailing command phrase (and the punctuation after it,
/// and the spaces before it) removed, and whether a phrase was found.
pub open spec fn strip_command(t: Seq<char>) -> (Seq<char>, bool) {
    let k = punct_trimmed(t, t.len() as int);
    match first_phrase_from(t, k, 0) {
        Some(i) => (t.subrange(0, space_trimmed(t, k - phrase(i).len())), true),
        None => (t, false),
    }
}

fn is_trailing_punct_char(c: char) -> (r: bool)
    ensures
        r == is_trailing_punct(c),
{
    c == '.' || c == '!' || c == '?' || c == ',' || c == ';' || c == ' '
}

/// Whether `text[..k]` ends with phrase `p` as whole words.
fn ends_with_phrase_at(text: &str, k: usize, p: &str) -> (r: bool)
    requires
        k <= text@.len(),
    ensures
        r == ends_with_phrase(text@, k as int, p@),
{
    let plen = p.unicode_len();
    if plen > k {
        return false;
    }
    let start = k - plen;
    let mut j: usize = 0;
    while j < plen
        invariant
            plen == p@.len(),
            start + plen == k,
            k <= text@.len(),
            j <= plen,
            forall|m: int| 0 <= m < j ==> lower(text@[start + m]) == p@[m],
        decreases plen - j,
    {
        if ascii_lower(text.get_char(start + j)) != p.get_char(j) {
            assert(folded(text@.subrange(start as int, k as int))[j as int] != p@[j as int]);
            return false;
        }
        j += 1;
    }
    assert(folded(text@.subrange(start as int, k as int)) =~= p@);
    if start == 0 {
        return true;
    }
    let c = text.get_char(start - 1);
    !(('a' <= c && c <= 'z') || ('A' <= c && c <= 'Z'))
}

/// Detects a trailing "and press enter"-style command. Returns the text
/// without it, and `true`, when one is found; otherwise the text unchanged
/// and `false`. Matching ignores case and trailing punctuation, and only
/// whole phrases led by "and" or "then" count.
pub fn detect_and_strip_enter_command(text: &str) -> (r: (String, bool))
    ensures
        (r.0@, r.1) == strip_command(text@),
{
    let n = text.unicode_len();
    let mut k: usize = n;
    while k > 0 && is_trailing_punct_char(text.get_char(k - 1))
        invariant
            k <= n,
            n == text@.len(),
            punct_trimmed(text@, k as int) == punct_trimmed(text@, n as int),
        decreases k,
    {
        k -= 1;
    }
    assert(punct_trimmed(text@, k as int) == k);
    let ghost t = text@;
    let mut i: usize = 0;
    while i < PHRASE_COUNT
        invariant
            k <= n,
            n == t.len(),
            t == text@,
            k == punct_trimmed(t, n as int),
            first_phrase_from(t, k as int, 0) == first_phrase_from(t, k as int, i as int),
        decreases PHRASE_COUNT - i,
    {
        let p = phrase_at(i);
        if ends_with_phrase_at(text, k, p) {
            let mut m: usize = k - p.unicode_len();
            while m > 0 && is_space_char(text.get_char(m - 1))
                invariant
                    m <= k - phrase(i as int).len(),
                    k <= n,
                    n == t.len(),
                    t == text@,
                    space_trimmed(t, m as int) == space_trimmed(t, k - phrase(i as int).len()),
                decreases m,
            {
                m -= 1;
            }
            assert(space_trimmed(t, m as int) == m);
            return (String::from_str(text.substring_char(0, m)), true);
        }
        i += 1;
    }
    assert(first_phrase_from(t, k as int, PHRASE_COUNT as int) is None);
    (String::from_str(text), false)
}

} // verus!
