//! Scanners for the pieces of the grammar that yield only a position.

use vstd::prelude::*;
use vstd::std_specs::iter::IteratorSpec;
use crate::grammar::{
    at, blanks_end, comment_end, comments_end, escape_end, expansion_end, fragment_end, in_class,
    include_opening_end, is_special, lit_at, name_span, operator_end, run_end, special_end,
    ws_end, Class, Shape,
};

verus! {

/// Whether the character at position `p` is `c`.
pub fn is_at(src: &Vec<char>, p: usize, c: char) -> (r: bool)
    ensures
        r == at(src@, p as int, c),
{
    p < src.len() && src[p] == c
}

/// Whether `c` belongs to the class `k`.
pub fn class_has(k: Class, c: char) -> (r: bool)
    ensures
        r == in_class(k, c),
{
    match k {
        Class::Blank => c == ' ' || c == '\t',
        Class::Newline => c == '\n',
        Class::CommentText => c != '\r' && c != '\n',
        Class::TargetText => c != ' ' && c != '\t' && c != ':' && c != ';' && c != '=' && c != '#'
            && c != '\r' && c != '\n' && c != '\\',
        Class::NameText => c == '.' || c == '_' || ('0' <= c && c <= '9') || ('a' <= c && c
            <= 'z') || ('A' <= c && c <= 'Z'),
        Class::ValueText => c != '\r' && c != '\n' && c != '\\' && c != '#',
        Class::PathText => c != '"' && c != ' ' && c != '\r' && c != '\n' && c != '\\' && c
            != '#',
    }
}

/// The end of the longest run of characters of class `k` that starts at `p`.
pub fn scan_run(src: &Vec<char>, p: usize, k: Class) -> (e: usize)
    requires
        p <= src.len(),
    ensures
        e == run_end(src@, p as int, k),
        p <= e <= src.len(),
{
    let mut i: usize = p;
    while i < src.len() && class_has(k, src[i])
        invariant
            p <= i <= src.len(),
            run_end(src@, p as int, k) == run_end(src@, i as int, k),
        decreases src.len() - i,
    {
        i += 1;
    }
    i
}

/// The end of the whitespace that starts at `p`.
pub fn scan_ws(src: &Vec<char>, p: usize) -> (e: usize)
    requires
        p <= src.len(),
    ensures
        e == ws_end(src@, p as int),
        p <= e <= src.len(),
{
    let mut i: usize = p;
    loop
        invariant
            p <= i <= src.len(),
            ws_end(src@, p as int) == ws_end(src@, i as int),
        ensures
            p <= i <= src.len(),
            i == ws_end(src@, p as int),
        decreases src.len() - i,
    {
        if is_at(src, i, ' ') || is_at(src, i, '\t') {
            i += 1;
        } else if is_at(src, i, '\\') && is_at(src, i + 1, '\n') {
            i += 2;
        } else {
            break;
        }
    }
    i
}

/// A comment at `p`: where it ends.
pub fn scan_comment(src: &Vec<char>, p: usize) -> (r: Option<usize>)
    requires
        p <= src.len(),
    ensures
        r == match comment_end(src@, p as int) {
            Some(e) => Some(e as usize),
            None => None,
        },
        r matches Some(e) ==> p < e <= src.len() && comment_end(src@, p as int) == Some(e as int),
{
    if is_at(src, p, '#') {
        let e = scan_run(src, p + 1, Class::CommentText);
        if is_at(src, e, '\n') {
            Some(e + 1)
        } else if e >= src.len() {
            Some(e)
        } else {
            None
        }
    } else {
        None
    }
}

/// The end of the comments that start at `p`.
pub fn scan_comments(src: &Vec<char>, p: usize) -> (e: usize)
    requires
        p <= src.len(),
    ensures
        e == comments_end(src@, p as int),
        p <= e <= src.len(),
{
    let mut i: usize = p;
    loop
        invariant
            p <= i <= src.len(),
            comments_end(src@, p as int) == comments_end(src@, i as int),
        ensures
            p <= i <= src.len(),
            i == comments_end(src@, p as int),
        decreases src.len() - i,
    {
        match scan_comment(src, i) {
            Some(e) => {
                i = e;
            },
            None => {
                break;
            },
        }
    }
    i
}

/// The end of the comments and empty lines that start at `p`.
pub fn scan_blanks(src: &Vec<char>, p: usize) -> (e: usize)
    requires
        p <= src.len(),
    ensures
        e == blanks_end(src@, p as int),
        p <= e <= src.len(),
        !at(src@, e as int, '\n'),
{
    let mut i: usize = p;
    loop
        invariant
            p <= i <= src.len(),
            blanks_end(src@, p as int) == blanks_end(src@, i as int),
        ensures
            p <= i <= src.len(),
            i == blanks_end(src@, p as int),
            !at(src@, i as int, '\n'),
        decreases src.len() - i,
    {
        match scan_comment(src, i) {
            Some(e) => {
                i = e;
            },
            None => {
                if is_at(src, i, '\n') {
                    i += 1;
                } else {
                    break;
                }
            },
        }
    }
    i
}

/// The end of the piece of a command that starts at `p` and stays on its line.
pub fn scan_fragment(src: &Vec<char>, p: usize) -> (e: usize)
    requires
        p <= src.len(),
    ensures
        e == fragment_end(src@, p as int),
        p <= e <= src.len(),
{
    let mut i: usize = p;
    while i < src.len() && src[i] != '\n' && src[i] != '\r' && !(src[i] == '\\' && is_at(
        src,
        i + 1,
        '\n',
    ))
        invariant
            p <= i <= src.len(),
            fragment_end(src@, p as int) == fragment_end(src@, i as int),
        decreases src.len() - i,
    {
        i += 1;
    }
    i
}

/// A backslash and the character it escapes: where the two end.
pub fn scan_escape(src: &Vec<char>, p: usize) -> (r: Option<usize>)
    requires
        p <= src.len(),
    ensures
        r matches Some(e) ==> escape_end(src@, p as int) == Some(e as int) && e == p + 2 && e
            <= src.len(),
        r is None ==> escape_end(src@, p as int) is None,
{
    if is_at(src, p, '\\') && p + 1 < src.len() && src[p + 1] != ' ' && src[p + 1] != '\t'
        && src[p + 1] != '\r' && src[p + 1] != '\n' {
        Some(p + 2)
    } else {
        None
    }
}

/// Whether `lit` stands at position `p`.
pub fn scan_lit(src: &Vec<char>, p: usize, lit: &str) -> (r: bool)
    requires
        p <= src.len(),
    ensures
        r == lit_at(src@, p as int, lit@),
{
    broadcast use vstd::string::group_string_axioms;

    let mut it = lit.chars();
    let mut i: usize = p;
    let ghost mut done: Seq<char> = Seq::empty();
    loop
        invariant
            it.obeys_prophetic_iter_laws(),
            it.decrease() is Some,
            done + it.remaining() == lit@,
            i == p + done.len(),
            i <= src.len(),
            src@.subrange(p as int, i as int) == done,
        decreases it.decrease()->0,
    {
        let ghost rest = it.remaining();
        match it.next() {
            None => {
                assert(done == lit@);
                return true;
            },
            Some(c) => {
                assert(lit@[done.len() as int] == c) by {
                    assert((done + rest)[done.len() as int] == rest[0]);
                }
                if i >= src.len() || src[i] != c {
                    assert(!lit_at(src@, p as int, lit@)) by {
                        if p + lit@.len() <= src.len() {
                            assert(src@.subrange(p as int, p + lit@.len())[done.len() as int]
                                == src@[i as int]);
                        }
                    }
                    return false;
                }
                proof {
                    assert(src@.subrange(p as int, i + 1) == done.push(c));
                    assert(done.push(c) + it.remaining() == lit@);
                    done = done.push(c);
                }
                i += 1;
            },
        }
    }
}

/// Whether the characters `src[p..e]` are those of `lit`.
pub fn span_is(src: &Vec<char>, p: usize, e: usize, lit: &str) -> (r: bool)
    requires
        p <= e <= src.len(),
    ensures
        r == (src@.subrange(p as int, e as int) == lit@),
{
    let n = lit.unicode_len();
    n == e - p && scan_lit(src, p, lit)
}

/// Whether the characters `src[p..e]` are the name of a special target.
pub fn span_is_special(src: &Vec<char>, p: usize, e: usize) -> (r: bool)
    requires
        p <= e <= src.len(),
    ensures
        r == is_special(src@.subrange(p as int, e as int)),
{
    span_is(src, p, e, ".POSIX") || span_is(src, p, e, ".DEFAULT") || span_is(src, p, e, ".IGNORE")
        || span_is(src, p, e, ".NOTPARALLEL") || span_is(src, p, e, ".PHONY") || span_is(
        src,
        p,
        e,
        ".PRECIOUS",
    ) || span_is(src, p, e, ".SCCS_GET") || span_is(src, p, e, ".SILENT") || span_is(
        src,
        p,
        e,
        ".SUFFIXES",
    ) || span_is(src, p, e, ".WAIT")
}

/// `lit` at position `p`: where it ends.
pub fn scan_word(src: &Vec<char>, p: usize, lit: &str) -> (r: Option<usize>)
    requires
        p <= src.len(),
    ensures
        r is Some == lit_at(src@, p as int, lit@),
        r matches Some(e) ==> e == p + lit@.len() && e <= src.len(),
{
    if scan_lit(src, p, lit) {
        let n = lit.unicode_len();
        Some(p + n)
    } else {
        None
    }
}

/// A macro expansion at `p`: where it ends.
pub fn scan_expansion(src: &Vec<char>, p: usize) -> (r: Option<usize>)
    requires
        p <= src.len(),
    ensures
        r matches Some(e) ==> expansion_end(src@, p as int) == Some(e as int) && p < e
            <= src.len(),
        r is None ==> expansion_end(src@, p as int) is None,
    decreases src.len() - p, 0int,
{
    if is_at(src, p, '$') && is_at(src, p + 1, '(') {
        match scan_name_span(src, p + 2) {
            Some((_, e)) => if is_at(src, e, ')') {
                Some(e + 1)
            } else {
                None
            },
            None => None,
        }
    } else if is_at(src, p, '$') && is_at(src, p + 1, '{') {
        match scan_name_span(src, p + 2) {
            Some((_, e)) => if is_at(src, e, '}') {
                Some(e + 1)
            } else {
                None
            },
            None => None,
        }
    } else {
        None
    }
}

/// A macro's name at `p`, after any comments: where it starts and ends.
pub fn scan_name_span(src: &Vec<char>, p: usize) -> (r: Option<(usize, usize)>)
    requires
        p <= src.len(),
    ensures
        r matches Some((s, e)) ==> name_span(src@, p as int) == Some((s as int, e as int)) && p
            <= s < e <= src.len() && s == comments_end(src@, p as int),
        r is None ==> name_span(src@, p as int) is None,
    decreases src.len() - p, 1int,
{
    let q = scan_comments(src, p);
    let e = scan_run(src, q, Class::NameText);
    if e > q {
        Some((q, e))
    } else {
        match scan_expansion(src, q) {
            Some(e2) => Some((q, e2)),
            None => None,
        }
    }
}

/// The special target of shape `s` whose name stands at `p`: where the name
/// ends.
pub fn scan_special(src: &Vec<char>, p: usize, s: Shape) -> (r: Option<usize>)
    requires
        p <= src.len(),
    ensures
        r matches Some(e) ==> special_end(src@, p as int, s) == Some(e as int) && p <= e
            <= src.len(),
        r is None ==> special_end(src@, p as int, s) is None,
{
    match s {
        Shape::Unit => {
            let a = scan_word(src, p, ".POSIX");
            if a.is_some() {
                return a;
            }
            let b = scan_word(src, p, ".NOTPARALLEL");
            if b.is_some() {
                return b;
            }
            scan_word(src, p, ".WAIT")
        },
        Shape::Commands => {
            let a = scan_word(src, p, ".DEFAULT");
            if a.is_some() {
                return a;
            }
            scan_word(src, p, ".SCCS_GET")
        },
        Shape::Config => {
            let a = scan_word(src, p, ".IGNORE");
            if a.is_some() {
                return a;
            }
            let b = scan_word(src, p, ".PHONY");
            if b.is_some() {
                return b;
            }
            let c = scan_word(src, p, ".PRECIOUS");
            if c.is_some() {
                return c;
            }
            let d = scan_word(src, p, ".SILENT");
            if d.is_some() {
                return d;
            }
            scan_word(src, p, ".SUFFIXES")
        },
        Shape::General => None,
    }
}

/// The word that opens an include line at `p`: where it ends.
pub fn scan_include_opening(src: &Vec<char>, p: usize) -> (r: Option<usize>)
    requires
        p <= src.len(),
    ensures
        r matches Some(e) ==> include_opening_end(src@, p as int) == Some(e as int) && p <= e
            <= src.len(),
        r is None ==> include_opening_end(src@, p as int) is None,
{
    let a = scan_word(src, p, "-include");
    if a.is_some() {
        return a;
    }
    scan_word(src, p, "include")
}

/// The operator of a macro definition at `p`: where it ends.
pub fn scan_operator(src: &Vec<char>, p: usize) -> (r: Option<usize>)
    requires
        p <= src.len(),
    ensures
        r matches Some(e) ==> operator_end(src@, p as int) == Some(e as int) && p < e
            <= src.len(),
        r is None ==> operator_end(src@, p as int) is None,
{
    proof {
        reveal_strlit(":::");
        reveal_strlit("::");
    }
    let q = if is_at(src, p, '+') || is_at(src, p, '!') || is_at(src, p, '?') {
        p + 1
    } else if scan_lit(src, p, ":::") {
        p + 3
    } else if scan_lit(src, p, "::") {
        p + 2
    } else {
        p
    };
    if is_at(src, q, '=') {
        Some(q + 1)
    } else {
        None
    }
}

} // verus!
