//! What a failed parse reports, and how the report reads.

use vstd::prelude::*;
use crate::locate::{byte_offset, column_of, line_of, step, tail_len, Places};
use crate::token::{Fail, Marks, Token, TokenSet};

verus! {

/// Why a source is no makefile: the furthest place the parser reached, what
/// it found there, and what it could have gone on with.
#[derive(Debug, PartialEq, Eq)]
pub struct ParseError {
    /// The line of the place, counted from 1.
    pub line: usize,
    /// The column of the place in its line, counted from 1.
    pub column: usize,
    /// The offset of the place in bytes.
    pub offset: usize,
    /// The character at the place; none at the end of the source.
    pub found: Option<char>,
    /// The tokens that were expected at the place.
    pub expected: TokenSet,
}

/// The report of the failure `f` of a parse of `src`.
pub open spec fn error_at(src: Seq<char>, f: Fail) -> ParseError {
    ParseError {
        line: line_of(src, f.far) as usize,
        column: column_of(src, f.far) as usize,
        offset: byte_offset(src, f.far) as usize,
        found: if 0 <= f.far < src.len() {
            Some(src[f.far])
        } else {
            None
        },
        expected: f.toks,
    }
}

/// The report of the failure `m` of a parse of `src`.
pub fn report(src: &Vec<char>, places: &Places, m: Marks) -> (e: ParseError)
    requires
        places.of(src@),
        m.far <= src.len(),
    ensures
        e == error_at(src@, m@),
        e.line == line_of(src@, m.far as int),
        e.column == column_of(src@, m.far as int),
        e.offset == byte_offset(src@, m.far as int),
{
    let far = m.far;
    let mut j: usize = far;
    while j > 0 && src[j - 1] != '\n'
        invariant
            j <= far <= src.len(),
            tail_len(src@.take(far as int)) == (far - j) + tail_len(src@.take(j as int)),
        decreases j,
    {
        proof {
            step(src@, j - 1);
        }
        j = j - 1;
    }
    proof {
        if j > 0 {
            step(src@, j - 1);
        } else {
            assert(src@.take(0) =~= Seq::<char>::empty());
        }
    }
    let found = if far < src.len() {
        Some(src[far])
    } else {
        None
    };
    ParseError {
        line: places.counts[far] + 1,
        column: far - j + 1,
        offset: places.offsets[far],
        found,
        expected: m.toks,
    }
}

/// The number of tokens.
pub const TOKENS: usize = 19;

/// The `i`-th token in the order of the names.
pub open spec fn nth_token(i: int) -> Token {
    if i == 0 {
        Token::Colon
    } else if i == 1 {
        Token::Backslash
    } else if i == 2 {
        Token::Tab
    } else if i == 3 {
        Token::Eof
    } else if i == 4 {
        Token::Lf
    } else if i == 5 {
        Token::AssignmentOperator
    } else if i == 6 {
        Token::CStyleEscape
    } else if i == 7 {
        Token::Command
    } else if i == 8 {
        Token::Comment
    } else if i == 9 {
        Token::EscapedLf
    } else if i == 10 {
        Token::IncludeOpening
    } else if i == 11 {
        Token::IncludeValueLiteral
    } else if i == 12 {
        Token::InlineCommand
    } else if i == 13 {
        Token::MacroExpansion
    } else if i == 14 {
        Token::MacroNameLiteral
    } else if i == 15 {
        Token::MacroValueLiteral
    } else if i == 16 {
        Token::Target
    } else if i == 17 {
        Token::WaitPrerequisiteMarker
    } else {
        Token::Whitespace
    }
}

/// The `i`-th token in the order of the names.
pub fn token_at(i: usize) -> (t: Token)
    ensures
        t == nth_token(i as int),
{
    if i == 0 {
        Token::Colon
    } else if i == 1 {
        Token::Backslash
    } else if i == 2 {
        Token::Tab
    } else if i == 3 {
        Token::Eof
    } else if i == 4 {
        Token::Lf
    } else if i == 5 {
        Token::AssignmentOperator
    } else if i == 6 {
        Token::CStyleEscape
    } else if i == 7 {
        Token::Command
    } else if i == 8 {
        Token::Comment
    } else if i == 9 {
        Token::EscapedLf
    } else if i == 10 {
        Token::IncludeOpening
    } else if i == 11 {
        Token::IncludeValueLiteral
    } else if i == 12 {
        Token::InlineCommand
    } else if i == 13 {
        Token::MacroExpansion
    } else if i == 14 {
        Token::MacroNameLiteral
    } else if i == 15 {
        Token::MacroValueLiteral
    } else if i == 16 {
        Token::Target
    } else if i == 17 {
        Token::WaitPrerequisiteMarker
    } else {
        Token::Whitespace
    }
}

/// The name under which a token is reported. A token that stands for one
/// character is named by that character, written as in a string literal.
pub open spec fn name_of(t: Token) -> Seq<char> {
    match t {
        Token::Colon => "\":\""@,
        Token::Backslash => "\"\\\\\""@,
        Token::Tab => "\"\\t\""@,
        Token::Eof => "EOF"@,
        Token::Lf => "LF"@,
        Token::AssignmentOperator => "assignment operator"@,
        Token::CStyleEscape => "c-style escape"@,
        Token::Command => "command"@,
        Token::Comment => "comment"@,
        Token::EscapedLf => "escaped LF"@,
        Token::IncludeOpening => "include opening"@,
        Token::IncludeValueLiteral => "include value literal"@,
        Token::InlineCommand => "inline command"@,
        Token::MacroExpansion => "macro expansion"@,
        Token::MacroNameLiteral => "macro name literal"@,
        Token::MacroValueLiteral => "macro value literal"@,
        Token::Target => "target"@,
        Token::WaitPrerequisiteMarker => "wait prerequisite marker"@,
        Token::Whitespace => "whitespace"@,
    }
}

/// The name under which a token is reported.
pub fn token_name(t: Token) -> (s: &'static str)
    ensures
        s@ == name_of(t),
{
    match t {
        Token::Colon => "\":\"",
        Token::Backslash => "\"\\\\\"",
        Token::Tab => "\"\\t\"",
        Token::Eof => "EOF",
        Token::Lf => "LF",
        Token::AssignmentOperator => "assignment operator",
        Token::CStyleEscape => "c-style escape",
        Token::Command => "command",
        Token::Comment => "comment",
        Token::EscapedLf => "escaped LF",
        Token::IncludeOpening => "include opening",
        Token::IncludeValueLiteral => "include value literal",
        Token::InlineCommand => "inline command",
        Token::MacroExpansion => "macro expansion",
        Token::MacroNameLiteral => "macro name literal",
        Token::MacroValueLiteral => "macro value literal",
        Token::Target => "target",
        Token::WaitPrerequisiteMarker => "wait prerequisite marker",
        Token::Whitespace => "whitespace",
    }
}

/// Whether one of the first `k` tokens is in `toks`.
pub open spec fn any_listed(toks: TokenSet, k: nat) -> bool
    decreases k,
{
    k > 0 && (toks.has(nth_token(k - 1)) || any_listed(toks, (k - 1) as nat))
}

/// The names of those of the first `k` tokens that are in `toks`, in order,
/// with a comma and a space between one and the next.
pub open spec fn listed(toks: TokenSet, k: nat) -> Seq<char>
    decreases k,
{
    if k == 0 {
        Seq::empty()
    } else {
        let t = nth_token(k - 1);
        let before = listed(toks, (k - 1) as nat);
        if !toks.has(t) {
            before
        } else if any_listed(toks, (k - 1) as nat) {
            before + ", "@ + name_of(t)
        } else {
            before + name_of(t)
        }
    }
}

/// Whether `a` sorts before `b`: at the first place where the two differ,
/// `a` has the lesser character, or `a` ends there and `b` goes on.
pub open spec fn sorts_before(a: Seq<char>, b: Seq<char>) -> bool
    decreases a.len(),
{
    if a.len() == 0 {
        b.len() > 0
    } else if b.len() == 0 {
        false
    } else if a[0] != b[0] {
        (a[0] as u32) < (b[0] as u32)
    } else {
        sorts_before(a.drop_first(), b.drop_first())
    }
}

/// Whether `a` sorts before `b`, where the two agree on their first `k`
/// characters.
pub open spec fn differ_at(a: Seq<char>, b: Seq<char>, k: int) -> bool {
    &&& 0 <= k < a.len()
    &&& k < b.len()
    &&& a.take(k) == b.take(k)
    &&& (a[k] as u32) < (b[k] as u32)
}

/// A text sorts before another with which it agrees up to a place where it
/// has the lesser character.
pub proof fn lesser_character_sorts_before(a: Seq<char>, b: Seq<char>, k: int)
    requires
        differ_at(a, b, k),
    ensures
        sorts_before(a, b),
    decreases k,
{
    if k > 0 {
        assert(a[0] == a.take(k)[0]);
        assert(b[0] == b.take(k)[0]);
        assert(a.drop_first().take(k - 1) =~= a.take(k).drop_first());
        assert(b.drop_first().take(k - 1) =~= b.take(k).drop_first());
        lesser_character_sorts_before(a.drop_first(), b.drop_first(), k - 1);
    }
}

/// The names of the tokens stand in sorted order: each sorts before the
/// next.
pub proof fn names_are_sorted(i: int)
    requires
        0 <= i < TOKENS - 1,
    ensures
        sorts_before(name_of(nth_token(i)), name_of(nth_token(i + 1))),
{
    reveal_strlit("\":\"");
    reveal_strlit("\"\\\\\"");
    reveal_strlit("\"\\t\"");
    reveal_strlit("EOF");
    reveal_strlit("LF");
    reveal_strlit("assignment operator");
    reveal_strlit("c-style escape");
    reveal_strlit("command");
    reveal_strlit("comment");
    reveal_strlit("escaped LF");
    reveal_strlit("include opening");
    reveal_strlit("include value literal");
    reveal_strlit("inline command");
    reveal_strlit("macro expansion");
    reveal_strlit("macro name literal");
    reveal_strlit("macro value literal");
    reveal_strlit("target");
    reveal_strlit("wait prerequisite marker");
    reveal_strlit("whitespace");
    let a = name_of(nth_token(i));
    let b = name_of(nth_token(i + 1));
    let k: int = if i == 0 {
        1
    } else if i == 1 {
        2
    } else if i == 2 || i == 3 || i == 4 || i == 5 || i == 8 || i == 9 || i == 12 || i == 15 || i
        == 16 {
        0
    } else if i == 6 {
        1
    } else if i == 7 {
        4
    } else if i == 10 {
        8
    } else if i == 11 {
        2
    } else if i == 13 {
        6
    } else if i == 14 {
        6
    } else {
        1
    };
    assert(a.take(k) =~= b.take(k));
    lesser_character_sorts_before(a, b, k);
}

/// The names of the tokens in `toks`, sorted, with a comma and a space
/// between one and the next.
pub open spec fn listing(toks: TokenSet) -> Seq<char> {
    listed(toks, TOKENS as nat)
}

/// Appends to `out` the names of the tokens in `toks`.
pub fn push_listing(out: &mut String, toks: TokenSet)
    ensures
        final(out)@ == old(out)@ + listing(toks),
{
    let mut k: usize = 0;
    let mut any = false;
    proof {
        assert(out@ =~= old(out)@ + listed(toks, 0));
    }
    while k < TOKENS
        invariant
            k <= TOKENS,
            any == any_listed(toks, k as nat),
            out@ == old(out)@ + listed(toks, k as nat),
        decreases TOKENS - k,
    {
        let t = token_at(k);
        if toks.contains(t) {
            if any {
                out.append(", ");
            }
            out.append(token_name(t));
            any = true;
        }
        k = k + 1;
        proof {
            assert(out@ =~= old(out)@ + listed(toks, k as nat));
        }
    }
}

/// The decimal digit of `d`.
pub open spec fn digit(d: nat) -> char {
    if d == 0 {
        '0'
    } else if d == 1 {
        '1'
    } else if d == 2 {
        '2'
    } else if d == 3 {
        '3'
    } else if d == 4 {
        '4'
    } else if d == 5 {
        '5'
    } else if d == 6 {
        '6'
    } else if d == 7 {
        '7'
    } else if d == 8 {
        '8'
    } else {
        '9'
    }
}

/// The decimal digits of `n`.
pub open spec fn decimal(n: nat) -> Seq<char>
    decreases n,
{
    if n < 10 {
        seq![digit(n)]
    } else {
        decimal(n / 10).push(digit(n % 10))
    }
}

/// The decimal digit of `d`.
pub fn digit_char(d: usize) -> (c: char)
    requires
        d < 10,
    ensures
        c == digit(d as nat),
{
    if d == 0 {
        '0'
    } else if d == 1 {
        '1'
    } else if d == 2 {
        '2'
    } else if d == 3 {
        '3'
    } else if d == 4 {
        '4'
    } else if d == 5 {
        '5'
    } else if d == 6 {
        '6'
    } else if d == 7 {
        '7'
    } else if d == 8 {
        '8'
    } else {
        '9'
    }
}

/// Appends to `out` the decimal digits of `n`.
pub fn push_decimal(out: &mut String, n: usize)
    ensures
        final(out)@ == old(out)@ + decimal(n as nat),
    decreases n,
{
    if n >= 10 {
        push_decimal(out, n / 10);
    }
    out.push(digit_char(n % 10));
    proof {
        assert(out@ =~= old(out)@ + decimal(n as nat));
    }
}

/// How a character reads when it is written out for a person: as
/// `char::escape_debug` renders it.
pub uninterp spec fn escape_debug(c: char) -> Seq<char>;

/// `char::escape_debug` yields the characters that render `c`; they depend on
/// `c` alone.
#[verifier::external_body]
fn escaped(c: char) -> (out: String)
    ensures
        out@ == escape_debug(c),
{
    c.escape_debug().collect()
}

/// How what was found at the place of a failure reads.
pub open spec fn found_text(found: Option<char>) -> Seq<char> {
    match found {
        Some(c) => "\""@ + escape_debug(c) + "\""@,
        None => "EOF"@,
    }
}

/// How the report `e` on the makefile at `pth` reads.
pub open spec fn message(pth: Seq<char>, e: ParseError) -> Seq<char> {
    "error: "@ + pth + ":"@ + decimal(e.line as nat) + ":"@ + decimal(e.column as nat)
        + " found "@ + found_text(e.found) + ", expected: "@ + listing(e.expected)
}

impl ParseError {
    /// The report as one line of text, for the makefile at `pth`.
    pub fn describe(&self, pth: &str) -> (out: String)
        ensures
            out@ == message(pth@, *self),
    {
        let mut out = String::new();
        out.append("error: ");
        out.append(pth);
        out.append(":");
        push_decimal(&mut out, self.line);
        out.append(":");
        push_decimal(&mut out, self.column);
        out.append(" found ");
        match self.found {
            Some(c) => {
                let e = escaped(c);
                out.append("\"");
                out.append(e.as_str());
                out.append("\"");
                proof {
                    assert(out@ =~= "error: "@ + pth@ + ":"@ + decimal(self.line as nat) + ":"@
                        + decimal(self.column as nat) + " found "@ + found_text(self.found));
                }
            },
            None => {
                out.append("EOF");
                proof {
                    assert(out@ =~= "error: "@ + pth@ + ":"@ + decimal(self.line as nat) + ":"@
                        + decimal(self.column as nat) + " found "@ + found_text(self.found));
                }
            },
        }
        out.append(", expected: ");
        push_listing(&mut out, self.expected);
        proof {
            assert(out@ =~= message(pth@, *self));
        }
        out
    }
}

} // verus!
