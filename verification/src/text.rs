//! Character-level helpers shared by the parser and the checks.

use vstd::prelude::*;
use vstd::std_specs::iter::IteratorSpec;

verus! {

/// `String::push` appends one character to the end of the string.
pub assume_specification[ String::push ](s: &mut String, c: char)
    ensures
        final(s)@ == old(s)@.push(c),
;

/// The characters of `s`, in order.
pub fn chars_of(s: &str) -> (out: Vec<char>)
    ensures
        out@ == s@,
{
    broadcast use vstd::string::group_string_axioms;

    let mut out: Vec<char> = Vec::new();
    let mut it = s.chars();
    loop
        invariant
            it.obeys_prophetic_iter_laws(),
            it.decrease() is Some,
            out@ + it.remaining() == s@,
        ensures
            out@ == s@,
        decreases it.decrease()->0,
    {
        match it.next() {
            Some(c) => {
                out.push(c);
            },
            None => {
                break;
            },
        }
    }
    out
}

/// The characters `src[from..to]` as an owned string.
pub fn slice_string(src: &Vec<char>, from: usize, to: usize) -> (out: String)
    requires
        from <= to <= src.len(),
    ensures
        out@ == src@.subrange(from as int, to as int),
{
    let mut out = String::new();
    let mut i: usize = from;
    while i < to
        invariant
            from <= i <= to <= src.len(),
            out@ == src@.subrange(from as int, i as int),
        decreases to - i,
    {
        out.push(src[i]);
        i += 1;
    }
    out
}

/// Appends the characters `src[from..to]` to `out`.
pub fn push_range(out: &mut String, src: &Vec<char>, from: usize, to: usize)
    requires
        from <= to <= src.len(),
    ensures
        final(out)@ == old(out)@ + src@.subrange(from as int, to as int),
{
    let mut i: usize = from;
    while i < to
        invariant
            from <= i <= to <= src.len(),
            out@ == old(out)@ + src@.subrange(from as int, i as int),
        decreases to - i,
    {
        out.push(src[i]);
        i += 1;
    }
}

/// `str`'s `==` holds exactly of two texts with the same characters.
pub assume_specification[ <str as PartialEq>::eq ](a: &str, b: &str) -> (r: bool)
    ensures
        r == (a@ == b@),
;

/// Whether a character counts as whitespace: what `char::is_whitespace`
/// says of it.
pub uninterp spec fn is_space(c: char) -> bool;

/// `char::is_whitespace` depends on the character alone.
pub assume_specification[ char::is_whitespace ](c: char) -> (r: bool)
    ensures
        r == is_space(c),
;

/// The text in lower case: what `str::to_lowercase` makes of it.
pub uninterp spec fn lowercase(s: Seq<char>) -> Seq<char>;

/// `str::to_lowercase` yields the lower-case form of the text, which depends
/// on the text alone.
pub assume_specification[ str::to_lowercase ](s: &str) -> (out: String)
    ensures
        out@ == lowercase(s@),
;

/// Whether two texts are the same.
pub fn same(a: &str, b: &str) -> (r: bool)
    ensures
        r == (a@ == b@),
{
    a.eq(b)
}

/// Whether `s` starts with the character `c`.
pub open spec fn starts_with(s: Seq<char>, c: char) -> bool {
    s.len() > 0 && s[0] == c
}

/// Whether `s` starts with the character `c`.
pub fn has_first(s: &str, c: char) -> (r: bool)
    ensures
        r == starts_with(s@, c),
{
    !s.is_empty() && s.get_char(0) == c
}

/// Whether `c` occurs in `s`.
pub fn has_char(s: &str, c: char) -> (r: bool)
    ensures
        r == s@.contains(c),
{
    let v = chars_of(s);
    let mut i: usize = 0;
    while i < v.len()
        invariant
            i <= v.len(),
            v@ == s@,
            forall|j: int| 0 <= j < i ==> v@[j] != c,
        decreases v.len() - i,
    {
        if v[i] == c {
            return true;
        }
        i += 1;
    }
    false
}

/// How often `c` occurs among the first `k` characters of `s`.
pub open spec fn occurrences(s: Seq<char>, c: char, k: int) -> nat
    decreases k,
{
    if k <= 0 {
        0
    } else {
        occurrences(s, c, k - 1) + if s[k - 1] == c {
            1nat
        } else {
            0nat
        }
    }
}

/// Whether `c` occurs in `s` more than once.
pub open spec fn repeats(s: Seq<char>, c: char) -> bool {
    occurrences(s, c, s.len() as int) > 1
}

/// Whether `c` occurs in `s` more than once.
pub fn has_repeated(s: &str, c: char) -> (r: bool)
    ensures
        r == repeats(s@, c),
{
    let v = chars_of(s);
    let mut i: usize = 0;
    let mut n: usize = 0;
    while i < v.len()
        invariant
            i <= v.len(),
            v@ == s@,
            n == occurrences(s@, c, i as int),
            n <= i,
        decreases v.len() - i,
    {
        if v[i] == c {
            n += 1;
        }
        i += 1;
    }
    n > 1
}

/// The end of the whitespace that starts at `p`.
pub open spec fn spaces_end(s: Seq<char>, p: int) -> int
    decreases s.len() - p,
{
    if 0 <= p < s.len() && is_space(s[p]) {
        spaces_end(s, p + 1)
    } else {
        p
    }
}

/// The end of the run without whitespace that starts at `p`.
pub open spec fn word_end(s: Seq<char>, p: int) -> int
    decreases s.len() - p,
{
    if 0 <= p < s.len() && !is_space(s[p]) {
        word_end(s, p + 1)
    } else {
        p
    }
}

/// The first word of `s`: what stands between the whitespace that `s` starts
/// with and the next whitespace. It is empty where `s` holds whitespace only.
pub open spec fn first_word(s: Seq<char>) -> Seq<char> {
    let a = spaces_end(s, 0);
    let b = word_end(s, a);
    if 0 <= a <= b <= s.len() {
        s.subrange(a, b)
    } else {
        Seq::empty()
    }
}

/// The first word of `s`.
pub fn leading_word(s: &str) -> (out: String)
    ensures
        out@ == first_word(s@),
{
    let v = chars_of(s);
    let mut a: usize = 0;
    while a < v.len() && v[a].is_whitespace()
        invariant
            a <= v.len(),
            v@ == s@,
            spaces_end(s@, 0) == spaces_end(s@, a as int),
        decreases v.len() - a,
    {
        a += 1;
    }
    let mut b: usize = a;
    while b < v.len() && !v[b].is_whitespace()
        invariant
            a <= b <= v.len(),
            v@ == s@,
            word_end(s@, a as int) == word_end(s@, b as int),
        decreases v.len() - b,
    {
        b += 1;
    }
    slice_string(&v, a, b)
}

} // verus!
