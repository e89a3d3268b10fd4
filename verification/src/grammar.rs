//! The grammar of POSIX makefiles, as functions on a sequence of characters.
//!
//! Each function says what matches at a position of the source, where the
//! match ends, what it yields, and what the attempt leaves behind in the
//! record of failures. The grammar is one of ordered choice: of two
//! alternatives the first that matches wins, and a repetition takes as many
//! items as it can get.
//!
//! Three choices are worth knowing. A directive is tried as a rule for a
//! special target, as a rule, as an include line, as a macro definition and
//! as a general expression, in this order; so `include =a.mk` is an include
//! line, and `include=a.mk` a macro definition. A command that a backslash
//! continues on the next line keeps the backslash and the line feed, and
//! loses one tab at the start of the next line, if there is one. And a
//! carriage return is no part of a comment, a word, a value or a command.

use vstd::prelude::*;
use crate::ast::OreView;
use crate::token::{Fail, Token};

verus! {

/// The outcome of matching one piece of the grammar at a position: the value
/// and the position after the match, or nothing; and the failures met on the
/// way, whether or not the piece matched.
pub struct Out<T> {
    pub res: Option<(T, int)>,
    pub fail: Fail,
}

impl<T> Out<T> {
    pub open spec fn ok(self) -> bool {
        self.res is Some
    }

    pub open spec fn val(self) -> T {
        (self.res->0).0
    }

    pub open spec fn end(self) -> int {
        (self.res->0).1
    }
}

/// A match that yields `v` and ends at `end`.
pub open spec fn pass<T>(v: T, end: int, fail: Fail) -> Out<T> {
    Out { res: Some((v, end)), fail }
}

/// No match.
pub open spec fn miss<T>(fail: Fail) -> Out<T> {
    Out { res: None, fail }
}

/// A directive and the position of its first character.
pub struct Item {
    pub at: int,
    pub ore: OreView,
}

/// Whether the character at position `p` is `c`.
pub open spec fn at(src: Seq<char>, p: int, c: char) -> bool {
    0 <= p < src.len() && src[p] == c
}

/// Whether `lit` stands at position `p`.
pub open spec fn lit_at(src: Seq<char>, p: int, lit: Seq<char>) -> bool {
    0 <= p && p + lit.len() <= src.len() && src.subrange(p, p + lit.len()) == lit
}

/// The sets of characters that runs of the grammar are made of.
#[derive(Clone, Copy, Debug, PartialEq, Eq, Structural)]
pub enum Class {
    /// A space or a tab.
    Blank,
    /// A line feed.
    Newline,
    /// Anything that can stand in a comment.
    CommentText,
    /// Anything that can stand in a target or a prerequisite.
    TargetText,
    /// Anything that can stand in a macro's name.
    NameText,
    /// Anything that can stand literally in a macro's value.
    ValueText,
    /// Anything that can stand in the path of an include line.
    PathText,
}

/// Whether `c` belongs to the class `k`.
pub open spec fn in_class(k: Class, c: char) -> bool {
    match k {
        Class::Blank => c == ' ' || c == '\t',
        Class::Newline => c == '\n',
        Class::CommentText => c != '\r' && c != '\n',
        Class::TargetText => c != ' ' && c != '\t' && c != ':' && c != ';' && c != '=' && c != '#'
            && c != '\r' && c != '\n' && c != '\\',
        Class::NameText => c == '.' || c == '_' || ('0' <= c <= '9') || ('a' <= c <= 'z') || ('A'
            <= c <= 'Z'),
        Class::ValueText => c != '\r' && c != '\n' && c != '\\' && c != '#',
        Class::PathText => c != '"' && c != ' ' && c != '\r' && c != '\n' && c != '\\' && c
            != '#',
    }
}

/// The end of the longest run of characters of class `k` that starts at `p`.
pub open spec fn run_end(src: Seq<char>, p: int, k: Class) -> int
    decreases src.len() - p,
{
    if 0 <= p < src.len() && in_class(k, src[p]) {
        run_end(src, p + 1, k)
    } else {
        p
    }
}

/// The end of the whitespace that starts at `p`: spaces, tabs, and line
/// feeds that a backslash escapes.
pub open spec fn ws_end(src: Seq<char>, p: int) -> int
    decreases src.len() - p,
{
    if at(src, p, ' ') || at(src, p, '\t') {
        ws_end(src, p + 1)
    } else if at(src, p, '\\') && at(src, p + 1, '\n') {
        ws_end(src, p + 2)
    } else {
        p
    }
}

/// A comment at `p`: a `#`, the rest of the line, and the line feed or the
/// end of the source after it.
pub open spec fn comment_end(src: Seq<char>, p: int) -> Option<int> {
    if at(src, p, '#') {
        let e = run_end(src, p + 1, Class::CommentText);
        if at(src, e, '\n') {
            Some(e + 1)
        } else if e >= src.len() {
            Some(e)
        } else {
            None
        }
    } else {
        None
    }
}

/// The end of the comments that start at `p`, one after the other.
pub open spec fn comments_end(src: Seq<char>, p: int) -> int
    decreases src.len() - p,
{
    match comment_end(src, p) {
        Some(e) => if p < e <= src.len() {
            comments_end(src, e)
        } else {
            p
        },
        None => p,
    }
}

/// The end of the comments and empty lines that start at `p`.
pub open spec fn blanks_end(src: Seq<char>, p: int) -> int
    decreases src.len() - p,
{
    match comment_end(src, p) {
        Some(e) => if p < e <= src.len() {
            blanks_end(src, e)
        } else {
            p
        },
        None => if at(src, p, '\n') {
            blanks_end(src, p + 1)
        } else {
            p
        },
    }
}

/// What an attempt to skip comments and empty lines leaves behind when it
/// stops at `q`: there, neither a comment nor a line feed was found.
pub open spec fn blanks_fail(q: int) -> Fail {
    Fail::at(q, Token::Comment).and(q, Token::Lf)
}

/// A backslash and the character it escapes, which is no blank and no line
/// ending.
pub open spec fn escape_end(src: Seq<char>, p: int) -> Option<int> {
    if at(src, p, '\\') && p + 1 < src.len() && src[p + 1] != ' ' && src[p + 1] != '\t' && src[p
        + 1] != '\r' && src[p + 1] != '\n' {
        Some(p + 2)
    } else {
        None
    }
}

/// A macro expansion at `p`: `$(name)` or `${name}`.
pub open spec fn expansion_end(src: Seq<char>, p: int) -> Option<int>
    decreases src.len() - p, 0int,
{
    if at(src, p, '$') && at(src, p + 1, '(') {
        match name_span(src, p + 2) {
            Some((_, e)) => if at(src, e, ')') {
                Some(e + 1)
            } else {
                None
            },
            None => None,
        }
    } else if at(src, p, '$') && at(src, p + 1, '{') {
        match name_span(src, p + 2) {
            Some((_, e)) => if at(src, e, '}') {
                Some(e + 1)
            } else {
                None
            },
            None => None,
        }
    } else {
        None
    }
}

/// A macro's name at `p`, after any comments: a run of name characters, or a
/// macro expansion. Yields where the name starts and where it ends.
pub open spec fn name_span(src: Seq<char>, p: int) -> Option<(int, int)>
    decreases src.len() - p, 1int,
{
    let q = comments_end(src, p);
    let e = run_end(src, q, Class::NameText);
    if e > q {
        Some((q, e))
    } else if p <= q <= src.len() {
        match expansion_end(src, q) {
            Some(e2) => Some((q, e2)),
            None => None,
        }
    } else {
        None
    }
}

/// A macro's name at `p`, with the failures the attempt leaves behind.
#[verifier::opaque]
pub open spec fn name(src: Seq<char>, p: int) -> Out<Seq<char>> {
    let q = comments_end(src, p);
    let f = Fail::at(q, Token::Comment);
    match name_span(src, p) {
        Some((s, e)) => if run_end(src, q, Class::NameText) > q {
            pass(src.subrange(s, e), e, f)
        } else {
            pass(src.subrange(s, e), e, f.and(q, Token::MacroNameLiteral))
        },
        None => miss(f.and(q, Token::MacroNameLiteral).and(q, Token::MacroExpansion)),
    }
}

/// Whether `s` is the name of a special target.
pub open spec fn is_special(s: Seq<char>) -> bool {
    s == ".POSIX"@ || s == ".DEFAULT"@ || s == ".IGNORE"@ || s == ".NOTPARALLEL"@ || s
        == ".PHONY"@ || s == ".PRECIOUS"@ || s == ".SCCS_GET"@ || s == ".SILENT"@ || s
        == ".SUFFIXES"@ || s == ".WAIT"@
}

/// The kinds of words that lists in the grammar are made of.
#[derive(Clone, Copy, Debug, PartialEq, Eq, Structural)]
pub enum Word {
    Target,
    Prerequisite,
    Path,
}

/// A target at `p`: a run of target characters that is no special target's
/// name, or a macro expansion.
#[verifier::opaque]
pub open spec fn target(src: Seq<char>, p: int) -> Out<()> {
    let e = run_end(src, p, Class::TargetText);
    if e > p && !is_special(src.subrange(p, e)) {
        pass((), e, Fail::none())
    } else {
        match expansion_end(src, p) {
            Some(e2) => pass((), e2, Fail::at(p, Token::Target)),
            None => miss(Fail::at(p, Token::Target).and(p, Token::MacroExpansion)),
        }
    }
}

/// A prerequisite at `p`: the marker `.WAIT`, or a target.
#[verifier::opaque]
pub open spec fn prerequisite(src: Seq<char>, p: int) -> Out<()> {
    if lit_at(src, p, ".WAIT"@) {
        pass((), p + ".WAIT"@.len(), Fail::none())
    } else {
        let t = target(src, p);
        Out { res: t.res, fail: Fail::at(p, Token::WaitPrerequisiteMarker).join(t.fail) }
    }
}

/// A path of an include line at `p`: a run of path characters, or a macro
/// expansion.
#[verifier::opaque]
pub open spec fn path(src: Seq<char>, p: int) -> Out<()> {
    let e = run_end(src, p, Class::PathText);
    if e > p {
        pass((), e, Fail::none())
    } else {
        match expansion_end(src, p) {
            Some(e2) => pass((), e2, Fail::at(p, Token::IncludeValueLiteral)),
            None => miss(Fail::at(p, Token::IncludeValueLiteral).and(p, Token::MacroExpansion)),
        }
    }
}

/// A word of kind `w` at `p`.
#[verifier::opaque]
pub open spec fn word(src: Seq<char>, p: int, w: Word) -> Out<()> {
    match w {
        Word::Target => target(src, p),
        Word::Prerequisite => prerequisite(src, p),
        Word::Path => path(src, p),
    }
}

/// The rest of a list of words: `acc` holds the words found so far, the last
/// of which ends at `p`, and `f` the failures so far. Each further word
/// follows whitespace; the list ends before the whitespace that no word
/// follows.
pub open spec fn words_more(src: Seq<char>, w: Word, acc: Seq<Seq<char>>, p: int, f: Fail) -> Out<
    Seq<Seq<char>>,
>
    decreases src.len() - p,
{
    let q = ws_end(src, p);
    let x = word(src, q, w);
    if x.ok() && p <= q < x.end() <= src.len() {
        words_more(src, w, acc.push(src.subrange(q, x.end())), x.end(), f.join(x.fail))
    } else {
        pass(acc, p, f.join(x.fail))
    }
}

/// One or more words of kind `w`, separated by whitespace, from `p` on.
#[verifier::opaque]
pub open spec fn words(src: Seq<char>, p: int, w: Word) -> Out<Seq<Seq<char>>> {
    let x = word(src, p, w);
    if x.ok() && p < x.end() <= src.len() {
        words_more(src, w, seq![src.subrange(p, x.end())], x.end(), x.fail)
    } else {
        miss(x.fail)
    }
}

/// The end of the piece of a command that starts at `p` and stays on its
/// line: it stops at a line ending and before a backslash that escapes a
/// line feed.
pub open spec fn fragment_end(src: Seq<char>, p: int) -> int
    decreases src.len() - p,
{
    if 0 <= p < src.len() && src[p] != '\n' && src[p] != '\r' && !(src[p] == '\\' && at(
        src,
        p + 1,
        '\n',
    )) {
        fragment_end(src, p + 1)
    } else {
        p
    }
}

/// The backslash and line feed that continue a command on the next line.
pub open spec fn continuation() -> Seq<char> {
    seq!['\\', '\n']
}

/// The rest of a command: `acc` holds its text so far, which ends at `e`.
/// An escaped line feed continues the command when a piece of command
/// follows it, after at most one tab, which is dropped; the escaped line feed
/// itself stays in the text.
pub open spec fn command_more(src: Seq<char>, acc: Seq<char>, e: int, f: Fail) -> Out<Seq<char>>
    decreases src.len() - e,
{
    if !(at(src, e, '\\') && at(src, e + 1, '\n')) {
        pass(acc, e, f.and(e, Token::Backslash))
    } else {
        let r = if at(src, e + 2, '\t') {
            e + 3
        } else {
            e + 2
        };
        let f2 = if at(src, e + 2, '\t') {
            f
        } else {
            f.and(e + 2, Token::Tab)
        };
        let e2 = fragment_end(src, r);
        if r < e2 <= src.len() {
            command_more(src, acc + continuation() + src.subrange(r, e2), e2, f2)
        } else {
            pass(acc, e, f2.and(r, Token::Command))
        }
    }
}

/// A command at `p`.
#[verifier::opaque]
pub open spec fn command(src: Seq<char>, p: int) -> Out<Seq<char>> {
    let e = fragment_end(src, p);
    if p < e <= src.len() {
        command_more(src, src.subrange(p, e), e, Fail::none())
    } else {
        miss(Fail::at(p, Token::Command))
    }
}

/// A command on the line of its rule at `p`: a semicolon, whitespace, and a
/// command, or nothing in its place.
#[verifier::opaque]
pub open spec fn inline_command(src: Seq<char>, p: int) -> Option<(Seq<char>, int)> {
    if at(src, p, ';') {
        let q = ws_end(src, p + 1);
        let c = command(src, q);
        if c.ok() {
            Some((c.val(), c.end()))
        } else {
            Some((Seq::empty(), q))
        }
    } else {
        None
    }
}

/// What ends a line at `p`: one or more comments and empty lines, or the end
/// of the source.
#[verifier::opaque]
pub open spec fn line_close(src: Seq<char>, p: int) -> Out<()> {
    let q = blanks_end(src, p);
    if q > p {
        pass((), q, blanks_fail(q))
    } else if p >= src.len() {
        pass((), p, blanks_fail(p))
    } else {
        miss(blanks_fail(p).and(p, Token::Eof))
    }
}

/// What ends a command's line at `p`: one or more line feeds, or the end of
/// the source.
#[verifier::opaque]
pub open spec fn command_close(src: Seq<char>, p: int) -> Out<()> {
    let q = run_end(src, p, Class::Newline);
    if q > p {
        pass((), q, Fail::at(q, Token::Lf))
    } else if p >= src.len() {
        pass((), p, Fail::at(p, Token::Lf))
    } else {
        miss(Fail::at(p, Token::Lf).and(p, Token::Eof))
    }
}

/// A command on a line of its own at `p`: after any comments and empty
/// lines, a tab, the command, and the end of its line.
#[verifier::opaque]
pub open spec fn indented(src: Seq<char>, p: int) -> Out<Seq<char>> {
    let q = blanks_end(src, p);
    if !at(src, q, '\t') {
        miss(blanks_fail(q).and(q, Token::Tab))
    } else {
        let c = command(src, q + 1);
        if !c.ok() {
            miss(blanks_fail(q).join(c.fail))
        } else {
            let t = command_close(src, c.end());
            if !t.ok() {
                miss(blanks_fail(q).join(c.fail).join(t.fail))
            } else {
                pass(c.val(), t.end(), blanks_fail(q).join(c.fail).join(t.fail))
            }
        }
    }
}

/// The list `acc` with `c` added, unless `c` is empty: a rule keeps no empty
/// command.
pub open spec fn keep(acc: Seq<Seq<char>>, c: Seq<char>) -> Seq<Seq<char>> {
    if c.len() > 0 {
        acc.push(c)
    } else {
        acc
    }
}

/// The rest of a rule's commands: `acc` holds the commands so far, `p` is
/// where the last one's line ended.
pub open spec fn indented_more(src: Seq<char>, acc: Seq<Seq<char>>, p: int, f: Fail) -> Out<
    Seq<Seq<char>>,
>
    decreases src.len() - p,
{
    let x = indented(src, p);
    if x.ok() && p < x.end() <= src.len() {
        indented_more(src, keep(acc, x.val()), x.end(), f.join(x.fail))
    } else {
        pass(acc, p, f.join(x.fail))
    }
}

/// Prerequisites and commands of a rule, as its body yields them.
pub struct Body {
    pub ps: Seq<Seq<char>>,
    pub cs: Seq<Seq<char>>,
}

/// The body of a rule with prerequisites at `p`: the prerequisites, an
/// inline command or none, the end of the line, and the commands that follow
/// on lines of their own.
#[verifier::opaque]
pub open spec fn with_prerequisites(src: Seq<char>, p: int) -> Out<Body> {
    let ps = words(src, p, Word::Prerequisite);
    if !ps.ok() {
        miss(ps.fail)
    } else {
        let q = ws_end(src, ps.end());
        let il = inline_command(src, q);
        let cs0 = if il is Some {
            keep(Seq::empty(), (il->0).0)
        } else {
            Seq::empty()
        };
        let q2 = if il is Some {
            (il->0).1
        } else {
            q
        };
        let f1 = if il is Some {
            ps.fail
        } else {
            ps.fail.and(q, Token::InlineCommand)
        };
        let t = line_close(src, q2);
        if !t.ok() {
            miss(f1.join(t.fail))
        } else {
            let m = indented_more(src, cs0, t.end(), f1.join(t.fail));
            pass(Body { ps: ps.val(), cs: m.val() }, m.end(), m.fail)
        }
    }
}

/// The body of a rule that may have prerequisites and no commands at `p`:
/// the prerequisites and the end of the line.
#[verifier::opaque]
pub open spec fn only_prerequisites(src: Seq<char>, p: int) -> Out<Body> {
    let ps = words(src, p, Word::Prerequisite);
    if !ps.ok() {
        miss(ps.fail)
    } else {
        let t = line_close(src, ws_end(src, ps.end()));
        if !t.ok() {
            miss(ps.fail.join(t.fail))
        } else {
            pass(Body { ps: ps.val(), cs: Seq::empty() }, t.end(), ps.fail.join(t.fail))
        }
    }
}

/// The body of a rule without prerequisites whose first command stands on
/// the rule's own line.
#[verifier::opaque]
pub open spec fn commands_inline(src: Seq<char>, p: int) -> Out<Body> {
    let il = inline_command(src, p);
    if il is None {
        miss(Fail::at(p, Token::InlineCommand))
    } else {
        let t = line_close(src, (il->0).1);
        if !t.ok() {
            miss(t.fail)
        } else {
            let m = indented_more(src, keep(Seq::empty(), (il->0).0), t.end(), t.fail);
            pass(Body { ps: Seq::empty(), cs: m.val() }, m.end(), m.fail)
        }
    }
}

/// The body of a rule without prerequisites whose commands all stand on
/// lines of their own: there is at least one.
#[verifier::opaque]
pub open spec fn commands_below(src: Seq<char>, p: int) -> Out<Body> {
    let q = blanks_end(src, p);
    if q <= p {
        miss(blanks_fail(q))
    } else {
        let x = indented(src, q);
        if !x.ok() {
            miss(blanks_fail(q).join(x.fail))
        } else {
            let m = indented_more(
                src,
                keep(Seq::empty(), x.val()),
                x.end(),
                blanks_fail(q).join(x.fail),
            );
            pass(Body { ps: Seq::empty(), cs: m.val() }, m.end(), m.fail)
        }
    }
}

/// The body of a rule without prerequisites: it has commands.
#[verifier::opaque]
pub open spec fn without_prerequisites(src: Seq<char>, p: int) -> Out<Body> {
    let a = commands_inline(src, p);
    if a.ok() {
        a
    } else {
        let b = commands_below(src, p);
        Out { res: b.res, fail: a.fail.join(b.fail) }
    }
}

/// The body of a rule with neither prerequisites nor commands: the end of
/// the line.
#[verifier::opaque]
pub open spec fn no_body(src: Seq<char>, p: int) -> Out<Body> {
    let t = line_close(src, p);
    if t.ok() {
        pass(Body { ps: Seq::empty(), cs: Seq::empty() }, t.end(), t.fail)
    } else {
        miss(t.fail)
    }
}

/// The shapes a rule's body can have.
#[derive(Clone, Copy, Debug, PartialEq, Eq, Structural)]
pub enum Shape {
    /// Neither prerequisites nor commands.
    Unit,
    /// Commands and no prerequisites.
    Commands,
    /// Prerequisites or none, and no commands.
    Config,
    /// Prerequisites, commands, or both.
    General,
}

/// The body of shape `s` at `p`.
#[verifier::opaque]
pub open spec fn body(src: Seq<char>, p: int, s: Shape) -> Out<Body> {
    match s {
        Shape::Unit => no_body(src, p),
        Shape::Commands => without_prerequisites(src, p),
        Shape::Config => {
            let a = only_prerequisites(src, p);
            if a.ok() {
                a
            } else {
                let b = no_body(src, p);
                Out { res: b.res, fail: a.fail.join(b.fail) }
            }
        },
        Shape::General => {
            let a = with_prerequisites(src, p);
            if a.ok() {
                a
            } else {
                let b = without_prerequisites(src, p);
                Out { res: b.res, fail: a.fail.join(b.fail) }
            }
        },
    }
}

/// What follows the targets of a rule at `p`: whitespace, a colon,
/// whitespace, and the body of shape `s`.
#[verifier::opaque]
pub open spec fn after_targets(src: Seq<char>, p: int, s: Shape) -> Out<Body> {
    let q = ws_end(src, p);
    if !at(src, q, ':') {
        miss(Fail::at(q, Token::Colon))
    } else {
        body(src, ws_end(src, q + 1), s)
    }
}

/// The special target of shape `s` whose name stands at `p`, if any: where
/// the name ends.
pub open spec fn special_end(src: Seq<char>, p: int, s: Shape) -> Option<int> {
    match s {
        Shape::Unit => if lit_at(src, p, ".POSIX"@) {
            Some(p + ".POSIX"@.len())
        } else if lit_at(src, p, ".NOTPARALLEL"@) {
            Some(p + ".NOTPARALLEL"@.len())
        } else if lit_at(src, p, ".WAIT"@) {
            Some(p + ".WAIT"@.len())
        } else {
            None
        },
        Shape::Commands => if lit_at(src, p, ".DEFAULT"@) {
            Some(p + ".DEFAULT"@.len())
        } else if lit_at(src, p, ".SCCS_GET"@) {
            Some(p + ".SCCS_GET"@.len())
        } else {
            None
        },
        Shape::Config => if lit_at(src, p, ".IGNORE"@) {
            Some(p + ".IGNORE"@.len())
        } else if lit_at(src, p, ".PHONY"@) {
            Some(p + ".PHONY"@.len())
        } else if lit_at(src, p, ".PRECIOUS"@) {
            Some(p + ".PRECIOUS"@.len())
        } else if lit_at(src, p, ".SILENT"@) {
            Some(p + ".SILENT"@.len())
        } else if lit_at(src, p, ".SUFFIXES"@) {
            Some(p + ".SUFFIXES"@.len())
        } else {
            None
        },
        Shape::General => None,
    }
}

/// A rule for a special target of shape `s` at `p`.
#[verifier::opaque]
pub open spec fn special_rule(src: Seq<char>, p: int, s: Shape) -> Out<OreView> {
    match special_end(src, p, s) {
        None => miss(Fail::at(p, Token::Target)),
        Some(e) => {
            let b = after_targets(src, e, s);
            if b.ok() {
                pass(
                    OreView::Ru { ts: seq![src.subrange(p, e)], ps: b.val().ps, cs: b.val().cs },
                    b.end(),
                    b.fail,
                )
            } else {
                miss(b.fail)
            }
        },
    }
}

/// A rule for a special target at `p`, of the first shape that matches.
#[verifier::opaque]
pub open spec fn any_special_rule(src: Seq<char>, p: int) -> Out<OreView> {
    let a = special_rule(src, p, Shape::Unit);
    if a.ok() {
        a
    } else {
        let b = special_rule(src, p, Shape::Commands);
        if b.ok() {
            Out { res: b.res, fail: a.fail.join(b.fail) }
        } else {
            let c = special_rule(src, p, Shape::Config);
            Out { res: c.res, fail: a.fail.join(b.fail).join(c.fail) }
        }
    }
}

/// A rule at `p`: its targets, a colon, and its body.
#[verifier::opaque]
pub open spec fn general_rule(src: Seq<char>, p: int) -> Out<OreView> {
    let ts = words(src, p, Word::Target);
    if !ts.ok() {
        miss(ts.fail)
    } else {
        let b = after_targets(src, ts.end(), Shape::General);
        if b.ok() {
            pass(
                OreView::Ru { ts: ts.val(), ps: b.val().ps, cs: b.val().cs },
                b.end(),
                ts.fail.join(b.fail),
            )
        } else {
            miss(ts.fail.join(b.fail))
        }
    }
}

/// The word that opens an include line at `p`: where it ends.
pub open spec fn include_opening_end(src: Seq<char>, p: int) -> Option<int> {
    if lit_at(src, p, "-include"@) {
        Some(p + "-include"@.len())
    } else if lit_at(src, p, "include"@) {
        Some(p + "include"@.len())
    } else {
        None
    }
}

/// An include line at `p`: the opening word, blanks, the paths, and the end
/// of the line.
#[verifier::opaque]
pub open spec fn include_line(src: Seq<char>, p: int) -> Out<OreView> {
    match include_opening_end(src, p) {
        None => miss(Fail::at(p, Token::IncludeOpening)),
        Some(e) => {
            let q = run_end(src, e, Class::Blank);
            if q <= e {
                miss(Fail::at(e, Token::Whitespace))
            } else {
                let ps = words(src, q, Word::Path);
                if !ps.ok() {
                    miss(ps.fail)
                } else {
                    let t = line_close(src, ws_end(src, ps.end()));
                    if t.ok() {
                        pass(OreView::In { ps: ps.val() }, t.end(), ps.fail.join(t.fail))
                    } else {
                        miss(ps.fail.join(t.fail))
                    }
                }
            }
        },
    }
}

/// The single space that stands for an escaped line feed in a macro's value.
pub open spec fn splice() -> Seq<char> {
    seq![' ']
}

/// A piece of a macro's value at `p`: a run of value characters; or an
/// escaped line feed with the whitespace after it, which together count as
/// one space, and the piece that follows; or a backslash and the character
/// it escapes.
pub open spec fn value_piece(src: Seq<char>, p: int) -> Out<Seq<char>>
    decreases src.len() - p,
{
    let e = run_end(src, p, Class::ValueText);
    if e > p {
        pass(src.subrange(p, e), e, Fail::none())
    } else if at(src, p, '\\') && at(src, p + 1, '\n') {
        let r = ws_end(src, p + 2);
        if p + 2 <= r <= src.len() {
            let x = value_piece(src, r);
            if x.ok() {
                pass(
                    splice() + x.val(),
                    x.end(),
                    Fail::at(p, Token::MacroValueLiteral).join(x.fail),
                )
            } else {
                miss(
                    Fail::at(p, Token::MacroValueLiteral).join(x.fail).and(p, Token::CStyleEscape),
                )
            }
        } else {
            miss(Fail::at(p, Token::MacroValueLiteral))
        }
    } else {
        let f = Fail::at(p, Token::MacroValueLiteral).and(p, Token::EscapedLf);
        match escape_end(src, p) {
            Some(e2) => pass(src.subrange(p, e2), e2, f),
            None => miss(f.and(p, Token::CStyleEscape)),
        }
    }
}

/// The rest of a macro's value: `acc` holds the value so far, which ends at
/// `p`. The value takes the pieces that follow and ends with its line.
pub open spec fn value_more(src: Seq<char>, acc: Seq<char>, p: int, f: Fail) -> Out<Seq<char>>
    decreases src.len() - p,
{
    let x = value_piece(src, p);
    if x.ok() && p < x.end() <= src.len() {
        value_more(src, acc + x.val(), x.end(), f.join(x.fail))
    } else {
        let t = line_close(src, p);
        if t.ok() {
            pass(acc, t.end(), f.join(x.fail).join(t.fail))
        } else {
            miss(f.join(x.fail).join(t.fail))
        }
    }
}

/// A macro's value at `p`, up to the end of its line.
#[verifier::opaque]
pub open spec fn value(src: Seq<char>, p: int) -> Out<Seq<char>> {
    value_more(src, Seq::empty(), p, Fail::none())
}

/// The operator of a macro definition at `p`: `=`, `+=`, `!=`, `?=`, `::=`
/// or `:::=`. Yields where it ends.
pub open spec fn operator_end(src: Seq<char>, p: int) -> Option<int> {
    let q = if at(src, p, '+') || at(src, p, '!') || at(src, p, '?') {
        p + 1
    } else if lit_at(src, p, ":::"@) {
        p + 3
    } else if lit_at(src, p, "::"@) {
        p + 2
    } else {
        p
    };
    if at(src, q, '=') {
        Some(q + 1)
    } else {
        None
    }
}

/// A macro definition at `p`: the name, the operator, and the value, with
/// whitespace between them.
#[verifier::opaque]
pub open spec fn definition(src: Seq<char>, p: int) -> Out<OreView> {
    let n = name(src, p);
    if !n.ok() {
        miss(n.fail)
    } else {
        let q = ws_end(src, n.end());
        match operator_end(src, q) {
            None => miss(n.fail.and(q, Token::AssignmentOperator)),
            Some(e) => {
                let v = value(src, ws_end(src, e));
                if v.ok() {
                    pass(OreView::Mc { n: n.val(), v: v.val() }, v.end(), n.fail.join(v.fail))
                } else {
                    miss(n.fail.join(v.fail))
                }
            },
        }
    }
}

/// A general macro expression at `p`: a macro expansion and, where one
/// follows, the rest of the line read as a macro's value.
#[verifier::opaque]
pub open spec fn expression(src: Seq<char>, p: int) -> Out<OreView> {
    match expansion_end(src, p) {
        None => miss(Fail::at(p, Token::MacroExpansion)),
        Some(e) => {
            let v = value(src, e);
            if v.ok() {
                pass(OreView::Ex { e: src.subrange(p, e) + v.val() }, v.end(), v.fail)
            } else {
                pass(OreView::Ex { e: src.subrange(p, e) }, e, v.fail)
            }
        },
    }
}

/// A directive at `p`, after any comments and empty lines: the first of a
/// special target's rule, a rule, an include line, a macro definition and a
/// general expression that matches.
#[verifier::opaque]
pub open spec fn node(src: Seq<char>, p: int) -> Out<Item> {
    let q = blanks_end(src, p);
    let a = any_special_rule(src, q);
    let fa = blanks_fail(q).join(a.fail);
    if a.ok() {
        pass(Item { at: q, ore: a.val() }, a.end(), fa)
    } else {
        let b = general_rule(src, q);
        let fb = fa.join(b.fail);
        if b.ok() {
            pass(Item { at: q, ore: b.val() }, b.end(), fb)
        } else {
            let c = include_line(src, q);
            let fc = fb.join(c.fail);
            if c.ok() {
                pass(Item { at: q, ore: c.val() }, c.end(), fc)
            } else {
                let d = definition(src, q);
                let fd = fc.join(d.fail);
                if d.ok() {
                    pass(Item { at: q, ore: d.val() }, d.end(), fd)
                } else {
                    let e = expression(src, q);
                    let fe = fd.join(e.fail);
                    if e.ok() {
                        pass(Item { at: q, ore: e.val() }, e.end(), fe)
                    } else {
                        miss(fe)
                    }
                }
            }
        }
    }
}

/// The rest of the directives: `acc` holds those found so far, the last of
/// which ends at `p`.
pub open spec fn nodes_more(src: Seq<char>, acc: Seq<Item>, p: int, f: Fail) -> Out<Seq<Item>>
    decreases src.len() - p,
{
    let x = node(src, p);
    if x.ok() && p < x.end() <= src.len() {
        nodes_more(src, acc.push(x.val()), x.end(), f.join(x.fail))
    } else {
        pass(acc, p, f.join(x.fail))
    }
}

/// The whole source as a makefile: comments and empty lines, the directives,
/// comments and empty lines again, and then the end of the source. Yields the
/// directives in their order, or the furthest failure.
pub open spec fn makefile(src: Seq<char>) -> Result<Seq<Item>, Fail> {
    let m = nodes_more(src, Seq::empty(), 0, Fail::none());
    let q = blanks_end(src, m.end());
    if q >= src.len() {
        Ok(m.val())
    } else {
        Err(m.fail.join(blanks_fail(q)).and(q, Token::Eof))
    }
}

/// Where the comments and empty lines that start at `p` end, no further
/// comment or empty line starts.
pub proof fn blanks_end_is_final(src: Seq<char>, p: int)
    ensures
        blanks_end(src, blanks_end(src, p)) == blanks_end(src, p),
        0 <= p <= src.len() ==> p <= blanks_end(src, p) <= src.len(),
    decreases src.len() - p,
{
    match comment_end(src, p) {
        Some(e) => {
            if p < e <= src.len() {
                blanks_end_is_final(src, e);
            }
        },
        None => {
            if at(src, p, '\n') {
                blanks_end_is_final(src, p + 1);
            }
        },
    }
}

/// Comments and empty lines before a directive are no part of it: the
/// directive is the one that stands where they end.
pub proof fn leading_blanks_are_skipped(src: Seq<char>, p: int)
    ensures
        node(src, p) == node(src, blanks_end(src, p)),
{
    reveal(node);
    blanks_end_is_final(src, p);
}

/// A source that holds nothing but comments and empty lines is a makefile
/// without directives.
pub proof fn blank_source_has_no_directives(src: Seq<char>)
    requires
        blanks_end(src, 0) >= src.len(),
    ensures
        makefile(src) == Ok::<Seq<Item>, Fail>(Seq::empty()),
{
    let q = blanks_end(src, 0);
    blanks_end_is_final(src, 0);
    assert(q == src.len());
    reveal_strlit(".POSIX");
    reveal_strlit(".DEFAULT");
    reveal_strlit(".IGNORE");
    reveal_strlit(".NOTPARALLEL");
    reveal_strlit(".PHONY");
    reveal_strlit(".PRECIOUS");
    reveal_strlit(".SCCS_GET");
    reveal_strlit(".SILENT");
    reveal_strlit(".SUFFIXES");
    reveal_strlit(".WAIT");
    reveal_strlit("-include");
    reveal_strlit("include");
    reveal(node);
    reveal(any_special_rule);
    reveal(special_rule);
    reveal(general_rule);
    reveal(words);
    reveal(word);
    reveal(target);
    reveal(include_line);
    reveal(definition);
    reveal(name);
    reveal(expression);
    assert(!node(src, 0).ok());
}

} // verus!
