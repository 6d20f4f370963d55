//! Verified text scanning for credential headers: whitespace
//! tokenizing and splitting at the first occurrence of a character.

use vstd::prelude::*;

verus! {

/// ASCII whitespace. Header values are ASCII, so splitting on these is
/// splitting on whitespace.
pub open spec fn is_space(c: char) -> bool {
    c == ' ' || c == '\t' || c == '\n' || c == '\r' || c == '\x0b' || c == '\x0c'
}

/// The first index at or after `i` holding a non-space character, or
/// the length of `s` if there is none.
pub open spec fn skip_spaces(s: Seq<char>, i: int) -> int
    decreases s.len() - i,
{
    if i < 0 || i >= s.len() {
        s.len() as int
    } else if is_space(s[i]) {
        skip_spaces(s, i + 1)
    } else {
        i
    }
}

/// The first index at or after `i` holding a space, or the length of
/// `s` if there is none: the end of the word starting at `i`.
pub open spec fn end_of_word(s: Seq<char>, i: int) -> int
    decreases s.len() - i,
{
    if i < 0 || i >= s.len() {
        s.len() as int
    } else if is_space(s[i]) {
        i
    } else {
        end_of_word(s, i + 1)
    }
}

/// The first index at or after `i` holding `c`, or the length of `s`
/// if there is none.
pub open spec fn find_char(s: Seq<char>, c: char, i: int) -> int
    decreases s.len() - i,
{
    if i < 0 || i >= s.len() {
        s.len() as int
    } else if s[i] == c {
        i
    } else {
        find_char(s, c, i + 1)
    }
}

/// The two whitespace-separated words of `s`, when `s` holds exactly
/// two; `None` when it holds fewer or more.
pub open spec fn spec_two_words(s: Seq<char>) -> Option<(Seq<char>, Seq<char>)> {
    let a = skip_spaces(s, 0);
    let b = end_of_word(s, a);
    let c = skip_spaces(s, b);
    let d = end_of_word(s, c);
    if a == s.len() || c == s.len() || skip_spaces(s, d) != s.len() {
        None
    } else {
        Some((s.subrange(a, b), s.subrange(c, d)))
    }
}

/// Whether `s` consists of whitespace alone.
pub open spec fn spec_all_spaces(s: Seq<char>) -> bool {
    skip_spaces(s, 0) == s.len()
}

/// Whether this character is ASCII whitespace.
fn is_space_exec(c: char) -> (r: bool)
    ensures
        r == is_space(c),
{
    c == ' ' || c == '\t' || c == '\n' || c == '\r' || c == '\x0b' || c == '\x0c'
}

/// The first index at or after `from` holding a non-space character.
fn skip_spaces_exec(s: &str, from: usize, len: usize) -> (r: usize)
    requires
        from <= len,
        len == s@.len(),
    ensures
        r == skip_spaces(s@, from as int),
        from <= r <= len,
{
    let mut i = from;
    while i < len && is_space_exec(s.get_char(i))
        invariant
            from <= i <= len,
            len == s@.len(),
            skip_spaces(s@, from as int) == skip_spaces(s@, i as int),
        decreases len - i,
    {
        i = i + 1;
    }
    i
}

/// The first index at or after `from` holding a space.
fn end_of_word_exec(s: &str, from: usize, len: usize) -> (r: usize)
    requires
        from <= len,
        len == s@.len(),
    ensures
        r == end_of_word(s@, from as int),
        from <= r <= len,
{
    let mut i = from;
    while i < len && !is_space_exec(s.get_char(i))
        invariant
            from <= i <= len,
            len == s@.len(),
            end_of_word(s@, from as int) == end_of_word(s@, i as int),
        decreases len - i,
    {
        i = i + 1;
    }
    i
}

/// The first index at or after `from` holding `c`.
pub fn find_char_exec(s: &str, c: char, from: usize, len: usize) -> (r: usize)
    requires
        from <= len,
        len == s@.len(),
    ensures
        r == find_char(s@, c, from as int),
        from <= r <= len,
{
    let mut i = from;
    while i < len && s.get_char(i) != c
        invariant
            from <= i <= len,
            len == s@.len(),
            find_char(s@, c, from as int) == find_char(s@, c, i as int),
        decreases len - i,
    {
        i = i + 1;
    }
    i
}

/// Splits `s` into its whitespace-separated words when there are
/// exactly two, as `spec_two_words` describes.
pub fn two_words(s: &str) -> (r: Option<(String, String)>)
    ensures
        r is Some <==> spec_two_words(s@) is Some,
        r matches Some(w) ==> spec_two_words(s@) == Some((w.0@, w.1@)),
{
    let len = s.unicode_len();
    let a = skip_spaces_exec(s, 0, len);
    if a == len {
        return None;
    }
    let b = end_of_word_exec(s, a, len);
    let c = skip_spaces_exec(s, b, len);
    if c == len {
        return None;
    }
    let d = end_of_word_exec(s, c, len);
    let e = skip_spaces_exec(s, d, len);
    if e != len {
        return None;
    }
    let w0 = s.substring_char(a, b).to_owned();
    let w1 = s.substring_char(c, d).to_owned();
    Some((w0, w1))
}

/// Whether `s` consists of whitespace alone, i.e. holds no word.
pub fn all_spaces(s: &str) -> (r: bool)
    ensures
        r == spec_all_spaces(s@),
{
    let len = s.unicode_len();
    let a = skip_spaces_exec(s, 0, len);
    a == len
}

} // verus!
