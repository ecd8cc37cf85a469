use vstd::prelude::*;
use vstd::string::StrSliceExecFns;

verus! {

/// Unicode `White_Space`: the characters that separate the words of a header value.
pub open spec fn is_space(c: char) -> bool {
    ('\u{9}' <= c && c <= '\u{d}') || c == ' ' || c == '\u{85}' || c == '\u{a0}' || c == '\u{1680}'
        || ('\u{2000}' <= c && c <= '\u{200a}') || c == '\u{2028}' || c == '\u{2029}' || c
        == '\u{202f}' || c == '\u{205f}' || c == '\u{3000}'
}

/// The scheme prefix of a bearer header: `Bearer` and one space, case-sensitive.
pub open spec fn bearer_prefix() -> Seq<char> {
    seq!['B', 'e', 'a', 'r', 'e', 'r', ' ']
}

pub open spec fn has_bearer_prefix(h: Seq<char>) -> bool {
    h.len() >= 7 && h.subrange(0, 7) == bearer_prefix()
}

/// The first index at or after `i` that holds no whitespace (or the end).
pub open spec fn skip_space(h: Seq<char>, i: int) -> int
    decreases h.len() - i,
{
    if 0 <= i < h.len() && is_space(h[i]) {
        skip_space(h, i + 1)
    } else {
        i
    }
}

/// The first index at or after `i` that holds whitespace (or the end).
pub open spec fn skip_word(h: Seq<char>, i: int) -> int
    decreases h.len() - i,
{
    if 0 <= i < h.len() && !is_space(h[i]) {
        skip_word(h, i + 1)
    } else {
        i
    }
}

/// The second whitespace-delimited word of `h`, if there is one.
pub open spec fn second_word(h: Seq<char>) -> Option<Seq<char>> {
    let a = skip_space(h, 0);
    let b = skip_word(h, a);
    let c = skip_space(h, b);
    if c >= h.len() {
        None
    } else {
        Some(h.subrange(c, skip_word(h, c)))
    }
}

/// The first index at or after `i` that holds no double quote (or the end).
pub open spec fn skip_quotes(w: Seq<char>, i: int) -> int
    decreases w.len() - i,
{
    if 0 <= i < w.len() && w[i] == '"' {
        skip_quotes(w, i + 1)
    } else {
        i
    }
}

/// The end of `w` once trailing double quotes past `lo` are removed.
pub open spec fn trail_quotes(w: Seq<char>, lo: int, j: int) -> int
    decreases j,
{
    if 0 <= lo < j <= w.len() && w[j - 1] == '"' {
        trail_quotes(w, lo, j - 1)
    } else {
        j
    }
}

/// `w` without its leading and trailing double quotes.
pub open spec fn strip_quotes(w: Seq<char>) -> Seq<char> {
    let a = skip_quotes(w, 0);
    w.subrange(a, trail_quotes(w, a, w.len() as int))
}

/// `w` without surrounding whitespace.
pub open spec fn strip_space(w: Seq<char>) -> Seq<char> {
    let a = skip_space(w, 0);
    w.subrange(a, trail_space(w, a, w.len() as int))
}

/// The end of `w` once trailing whitespace past `lo` is removed.
pub open spec fn trail_space(w: Seq<char>, lo: int, j: int) -> int
    decreases j,
{
    if 0 <= lo < j <= w.len() && is_space(w[j - 1]) {
        trail_space(w, lo, j - 1)
    } else {
        j
    }
}

/// How the value of an `Authorization` header reads.
pub enum HeaderVerdict {
    Missing,
    BadScheme,
    NoToken,
    Token(Seq<char>),
}

/// What a header value yields: the raw credential, taken as the second word of a
/// `Bearer ` value with surrounding quotes and whitespace trimmed, or why there is none.
pub open spec fn header_verdict(h: Option<Seq<char>>) -> HeaderVerdict {
    match h {
        None => HeaderVerdict::Missing,
        Some(v) => if !has_bearer_prefix(v) {
            HeaderVerdict::BadScheme
        } else {
            match second_word(v) {
                None => HeaderVerdict::NoToken,
                Some(w) => HeaderVerdict::Token(strip_space(strip_quotes(w))),
            }
        },
    }
}

pub fn is_space_char(c: char) -> (r: bool)
    ensures
        r == is_space(c),
{
    ('\u{9}' <= c && c <= '\u{d}') || c == ' ' || c == '\u{85}' || c == '\u{a0}' || c == '\u{1680}'
        || ('\u{2000}' <= c && c <= '\u{200a}') || c == '\u{2028}' || c == '\u{2029}' || c
        == '\u{202f}' || c == '\u{205f}' || c == '\u{3000}'
}

/// Whether the header value starts with the exact `Bearer ` prefix.
pub fn starts_with_bearer(h: &str) -> (r: bool)
    ensures
        r == has_bearer_prefix(h@),
{
    if h.unicode_len() < 7 {
        return false;
    }
    let r = h.get_char(0) == 'B' && h.get_char(1) == 'e' && h.get_char(2) == 'a' && h.get_char(3)
        == 'r' && h.get_char(4) == 'e' && h.get_char(5) == 'r' && h.get_char(6) == ' ';
    proof {
        if r {
            assert(h@.subrange(0, 7) =~= bearer_prefix());
        } else {
            assert(h@.subrange(0, 7)[0] == h@[0]);
            assert(h@.subrange(0, 7)[1] == h@[1]);
            assert(h@.subrange(0, 7)[2] == h@[2]);
            assert(h@.subrange(0, 7)[3] == h@[3]);
            assert(h@.subrange(0, 7)[4] == h@[4]);
            assert(h@.subrange(0, 7)[5] == h@[5]);
            assert(h@.subrange(0, 7)[6] == h@[6]);
        }
    }
    r
}

fn find_space_end(h: &str, len: usize, i: usize) -> (r: usize)
    requires
        len == h@.len(),
        i <= len,
    ensures
        r == skip_space(h@, i as int),
        i <= r <= len,
{
    let mut j = i;
    while j < len && is_space_char(h.get_char(j))
        invariant
            len == h@.len(),
            i <= j <= len,
            skip_space(h@, j as int) == skip_space(h@, i as int),
        decreases len - j,
    {
        j = j + 1;
    }
    j
}

fn find_word_end(h: &str, len: usize, i: usize) -> (r: usize)
    requires
        len == h@.len(),
        i <= len,
    ensures
        r == skip_word(h@, i as int),
        i <= r <= len,
{
    let mut j = i;
    while j < len && !is_space_char(h.get_char(j))
        invariant
            len == h@.len(),
            i <= j <= len,
            skip_word(h@, j as int) == skip_word(h@, i as int),
        decreases len - j,
    {
        j = j + 1;
    }
    j
}

fn find_quotes_end(w: &str, len: usize, i: usize) -> (r: usize)
    requires
        len == w@.len(),
        i <= len,
    ensures
        r == skip_quotes(w@, i as int),
        i <= r <= len,
{
    let mut j = i;
    while j < len && w.get_char(j) == '"'
        invariant
            len == w@.len(),
            i <= j <= len,
            skip_quotes(w@, j as int) == skip_quotes(w@, i as int),
        decreases len - j,
    {
        j = j + 1;
    }
    j
}

fn find_trailing_quotes(w: &str, lo: usize, len: usize) -> (r: usize)
    requires
        len == w@.len(),
        lo <= len,
    ensures
        r == trail_quotes(w@, lo as int, len as int),
        lo <= r <= len,
{
    let mut j = len;
    while j > lo && w.get_char(j - 1) == '"'
        invariant
            len == w@.len(),
            lo <= j <= len,
            trail_quotes(w@, lo as int, j as int) == trail_quotes(w@, lo as int, len as int),
        decreases j,
    {
        j = j - 1;
    }
    j
}

fn find_trailing_space(w: &str, lo: usize, len: usize) -> (r: usize)
    requires
        len == w@.len(),
        lo <= len,
    ensures
        r == trail_space(w@, lo as int, len as int),
        lo <= r <= len,
{
    let mut j = len;
    while j > lo && is_space_char(w.get_char(j - 1))
        invariant
            len == w@.len(),
            lo <= j <= len,
            trail_space(w@, lo as int, j as int) == trail_space(w@, lo as int, len as int),
        decreases j,
    {
        j = j - 1;
    }
    j
}

/// The second whitespace-delimited word of a header value; later words are ignored.
pub fn second_word_of(h: &str) -> (r: Option<&str>)
    ensures
        match r {
            None => second_word(h@) is None,
            Some(w) => second_word(h@) == Some(w@),
        },
{
    let len = h.unicode_len();
    let a = find_space_end(h, len, 0);
    let b = find_word_end(h, len, a);
    let c = find_space_end(h, len, b);
    if c >= len {
        None
    } else {
        let d = find_word_end(h, len, c);
        Some(h.substring_char(c, d))
    }
}

/// Removes surrounding double quotes, then surrounding whitespace.
pub fn trim_credential(w: &str) -> (r: &str)
    ensures
        r@ == strip_space(strip_quotes(w@)),
{
    let len = w.unicode_len();
    let a = find_quotes_end(w, len, 0);
    let b = find_trailing_quotes(w, a, len);
    let q = w.substring_char(a, b);
    let qlen = q.unicode_len();
    let c = find_space_end(q, qlen, 0);
    let d = find_trailing_space(q, c, qlen);
    q.substring_char(c, d)
}

/// Why an `Authorization` header yields no credential.
#[derive(Clone, Copy, Debug, PartialEq, Eq, Structural)]
pub enum HeaderError {
    /// There is no `Authorization` header.
    Missing,
    /// The value does not start with the exact `Bearer ` prefix.
    BadScheme,
    /// The value has no second word.
    NoToken,
}

/// Reads the raw credential out of an `Authorization` header value.
pub fn bearer_credential(h: Option<&str>) -> (r: Result<&str, HeaderError>)
    ensures
        match (r, header_verdict(match h { Some(v) => Some(v@), None => None })) {
            (Ok(t), HeaderVerdict::Token(s)) => t@ == s,
            (Err(HeaderError::Missing), HeaderVerdict::Missing) => true,
            (Err(HeaderError::BadScheme), HeaderVerdict::BadScheme) => true,
            (Err(HeaderError::NoToken), HeaderVerdict::NoToken) => true,
            _ => false,
        },
{
    match h {
        None => Err(HeaderError::Missing),
        Some(v) => {
            if !starts_with_bearer(v) {
                return Err(HeaderError::BadScheme);
            }
            match second_word_of(v) {
                None => Err(HeaderError::NoToken),
                Some(w) => Ok(trim_credential(w)),
            }
        },
    }
}

} // verus!
