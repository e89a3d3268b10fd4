//! The parser: for each piece of the grammar, a function that matches it and
//! yields exactly what the grammar says.

use vstd::prelude::*;
use crate::ast::{texts, Gem, Ore, OreView};
use crate::grammar::{
    after_targets, any_special_rule, body, command, command_close, command_more,
    commands_below, commands_inline, continuation, definition, expression, general_rule,
    include_line, indented, indented_more, inline_command, is_special, keep, line_close,
    makefile, name, no_body, node, nodes_more, only_prerequisites, path, prerequisite,
    special_rule, splice, target, value, value_more, value_piece, with_prerequisites,
    without_prerequisites, word, words, words_more, Body, Class, Item, Out, Shape, Word,
};
use crate::scan::{
    is_at, scan_blanks, scan_comments, scan_escape, scan_expansion, scan_fragment,
    scan_include_opening, scan_lit, scan_name_span, scan_operator, scan_run, scan_special,
    scan_ws, span_is_special,
};
use crate::text::{push_range, slice_string};
use crate::token::{Fail, Marks, Token};

verus! {

/// The outcome of matching one piece of the grammar: the value and the
/// position after the match, or nothing; and the failures met on the way.
pub struct Parsed<T> {
    pub res: Option<(T, usize)>,
    pub fail: Marks,
}

/// The prerequisites and commands of a rule.
pub struct Lists {
    pub ps: Vec<String>,
    pub cs: Vec<String>,
}

/// `r` is the outcome `o`, where the piece yields no value.
pub open spec fn is_scan(r: Parsed<()>, o: Out<()>) -> bool {
    r.fail@ == o.fail && match r.res {
        Some((_, e)) => o.res == Some(((), e as int)),
        None => o.res is None,
    }
}

/// `r` is the outcome `o`, where the piece yields a text.
pub open spec fn is_text(r: Parsed<String>, o: Out<Seq<char>>) -> bool {
    r.fail@ == o.fail && match r.res {
        Some((v, e)) => o.res == Some((v@, e as int)),
        None => o.res is None,
    }
}

/// `r` is the outcome `o`, where the piece yields a list of texts.
pub open spec fn is_list(r: Parsed<Vec<String>>, o: Out<Seq<Seq<char>>>) -> bool {
    r.fail@ == o.fail && match r.res {
        Some((v, e)) => o.res == Some((texts(v@), e as int)),
        None => o.res is None,
    }
}

/// `r` is the outcome `o`, where the piece yields the body of a rule.
pub open spec fn is_body(r: Parsed<Lists>, o: Out<Body>) -> bool {
    r.fail@ == o.fail && match r.res {
        Some((v, e)) => o.res == Some((Body { ps: texts(v.ps@), cs: texts(v.cs@) }, e as int)),
        None => o.res is None,
    }
}

/// `r` is the outcome `o`, where the piece yields a directive.
pub open spec fn is_ore(r: Parsed<Ore>, o: Out<OreView>) -> bool {
    r.fail@ == o.fail && match r.res {
        Some((v, e)) => o.res == Some((v@, e as int)),
        None => o.res is None,
    }
}

/// `r` is the outcome `o`, where the piece yields a directive and its place.
/// The place is kept in the offset, and the line is not yet known.
pub open spec fn is_item(r: Parsed<Gem>, o: Out<Item>) -> bool {
    r.fail@ == o.fail && match r.res {
        Some((g, e)) => o.res == Some((Item { at: g.o as int, ore: g.n@ }, e as int)) && g.l == 0,
        None => o.res is None,
    }
}

/// Whether `r` stays within a source of `len` characters and ends, if it
/// matched, at `p` or after it.
pub open spec fn within<T>(r: Parsed<T>, p: usize, len: nat) -> bool {
    r.fail.far <= len && (r.res matches Some((_, e)) ==> p <= e <= len)
}

/// Whether `r` stays within a source of `len` characters and ends, if it
/// matched, after `p`.
pub open spec fn beyond<T>(r: Parsed<T>, p: usize, len: nat) -> bool {
    r.fail.far <= len && (r.res matches Some((_, e)) ==> p < e <= len)
}

/// Whether none of the texts is empty.
pub open spec fn solid(v: Seq<Seq<char>>) -> bool {
    forall|i: int| 0 <= i < v.len() ==> (#[trigger] v[i]).len() > 0
}

/// Whether none of the texts is the name of a special target.
pub open spec fn plain(v: Seq<Seq<char>>) -> bool {
    forall|i: int| 0 <= i < v.len() ==> !is_special(#[trigger] v[i])
}

/// Whether the directive, if it is a rule, has a target and no empty command,
/// and is either a rule for one special target or a rule none of whose
/// targets is special.
pub open spec fn tidy(o: OreView) -> bool {
    o matches OreView::Ru { ts, ps, cs } ==> ts.len() > 0 && solid(cs) && (plain(ts) || (ts.len()
        == 1 && is_special(ts[0])))
}

/// The name of a special target starts with a dot.
pub proof fn special_starts_with_dot(s: Seq<char>)
    requires
        is_special(s),
    ensures
        s.len() > 0,
        s[0] == '.',
{
    reveal_strlit(".POSIX");
    reveal_strlit(".DEFAULT");
    reveal_strlit(".IGNORE");
    reveal_strlit(".NOTPARALLEL");
    reveal_strlit(".PHONY");
    reveal_strlit(".PRECIOUS");
    reveal_strlit(".SCCS_GET");
    reveal_strlit(".SILENT");
    reveal_strlit(".SUFFIXES");
    reveal_strlit(".WAIT");
}

/// The texts of a list grow as the list does.
pub proof fn texts_push(v: Seq<String>, s: String)
    ensures
        texts(v.push(s)) == texts(v).push(s@),
{
    assert(texts(v.push(s)) =~= texts(v).push(s@));
}

/// A target at `p`.
pub fn parse_target(src: &Vec<char>, p: usize) -> (r: Parsed<()>)
    requires
        p <= src.len(),
    ensures
        is_scan(r, target(src@, p as int)),
        beyond(r, p, src@.len()),
        r.res matches Some((_, e)) ==> !is_special(src@.subrange(p as int, e as int)),
{
    proof {
        reveal(target);
    }
    let e = scan_run(src, p, Class::TargetText);
    if e > p && !span_is_special(src, p, e) {
        Parsed { res: Some(((), e)), fail: Marks::new() }
    } else {
        match scan_expansion(src, p) {
            Some(e2) => {
                proof {
                    if is_special(src@.subrange(p as int, e2 as int)) {
                        special_starts_with_dot(src@.subrange(p as int, e2 as int));
                    }
                }
                Parsed { res: Some(((), e2)), fail: Marks::at(p, Token::Target) }
            },
            None => Parsed {
                res: None,
                fail: Marks::at(p, Token::Target).and(p, Token::MacroExpansion),
            },
        }
    }
}

/// A prerequisite at `p`.
pub fn parse_prerequisite(src: &Vec<char>, p: usize) -> (r: Parsed<()>)
    requires
        p <= src.len(),
    ensures
        is_scan(r, prerequisite(src@, p as int)),
        beyond(r, p, src@.len()),
{
    proof {
        reveal(prerequisite);
    }
    proof {
        reveal_strlit(".WAIT");
    }
    if scan_lit(src, p, ".WAIT") {
        Parsed { res: Some(((), p + 5)), fail: Marks::new() }
    } else {
        let t = parse_target(src, p);
        Parsed { res: t.res, fail: Marks::at(p, Token::WaitPrerequisiteMarker).join(t.fail) }
    }
}

/// A path of an include line at `p`.
pub fn parse_path(src: &Vec<char>, p: usize) -> (r: Parsed<()>)
    requires
        p <= src.len(),
    ensures
        is_scan(r, path(src@, p as int)),
        beyond(r, p, src@.len()),
{
    proof {
        reveal(path);
    }
    let e = scan_run(src, p, Class::PathText);
    if e > p {
        Parsed { res: Some(((), e)), fail: Marks::new() }
    } else {
        match scan_expansion(src, p) {
            Some(e2) => Parsed {
                res: Some(((), e2)),
                fail: Marks::at(p, Token::IncludeValueLiteral),
            },
            None => Parsed {
                res: None,
                fail: Marks::at(p, Token::IncludeValueLiteral).and(p, Token::MacroExpansion),
            },
        }
    }
}

/// A word of kind `w` at `p`.
pub fn parse_word(src: &Vec<char>, p: usize, w: Word) -> (r: Parsed<()>)
    requires
        p <= src.len(),
    ensures
        is_scan(r, word(src@, p as int, w)),
        beyond(r, p, src@.len()),
        w == Word::Target ==> (r.res matches Some((_, e)) ==> !is_special(
            src@.subrange(p as int, e as int),
        )),
{
    proof {
        reveal(word);
    }
    match w {
        Word::Target => parse_target(src, p),
        Word::Prerequisite => parse_prerequisite(src, p),
        Word::Path => parse_path(src, p),
    }
}

/// One or more words of kind `w`, separated by whitespace, from `p` on.
pub fn parse_words(src: &Vec<char>, p: usize, w: Word) -> (r: Parsed<Vec<String>>)
    requires
        p <= src.len(),
    ensures
        is_list(r, words(src@, p as int, w)),
        beyond(r, p, src@.len()),
        r.res matches Some((v, _)) ==> v.len() > 0,
        w == Word::Target ==> (r.res matches Some((v, _)) ==> plain(texts(v@))),
{
    proof {
        reveal(words);
    }
    let x = parse_word(src, p, w);
    match x.res {
        None => Parsed { res: None, fail: x.fail },
        Some((_, e)) => {
            let mut acc: Vec<String> = Vec::new();
            let first = slice_string(src, p, e);
            proof {
                texts_push(acc@, first);
                assert(texts(acc@) =~= Seq::<Seq<char>>::empty());
                assert(Seq::<Seq<char>>::empty().push(first@) =~= seq![first@]);
            }
            acc.push(first);
            let mut cur: usize = e;
            let mut f: Marks = x.fail;
            loop
                invariant
                    p < cur <= src.len(),
                    f.far <= src.len(),
                    acc.len() > 0,
                    w == Word::Target ==> plain(texts(acc@)),
                    words(src@, p as int, w) == words_more(
                        src@,
                        w,
                        texts(acc@),
                        cur as int,
                        f@,
                    ),
                decreases src.len() - cur,
            {
                let q = scan_ws(src, cur);
                let y = parse_word(src, q, w);
                match y.res {
                    Some((_, e2)) => {
                        let s = slice_string(src, q, e2);
                        proof {
                            texts_push(acc@, s);
                        }
                        acc.push(s);
                        f = f.join(y.fail);
                        cur = e2;
                    },
                    None => {
                        return Parsed { res: Some((acc, cur)), fail: f.join(y.fail) };
                    },
                }
            }
        },
    }
}

/// A command at `p`.
pub fn parse_command(src: &Vec<char>, p: usize) -> (r: Parsed<String>)
    requires
        p <= src.len(),
    ensures
        is_text(r, command(src@, p as int)),
        beyond(r, p, src@.len()),
{
    proof {
        reveal(command);
    }
    let e = scan_fragment(src, p);
    if e <= p {
        return Parsed { res: None, fail: Marks::at(p, Token::Command) };
    }
    let mut acc = slice_string(src, p, e);
    let mut cur: usize = e;
    let mut f: Marks = Marks::new();
    loop
        invariant
            p < cur <= src.len(),
            f.far <= src.len(),
            command(src@, p as int) == command_more(src@, acc@, cur as int, f@),
        decreases src.len() - cur,
    {
        if !(is_at(src, cur, '\\') && is_at(src, cur + 1, '\n')) {
            return Parsed { res: Some((acc, cur)), fail: f.and(cur, Token::Backslash) };
        }
        let tab = is_at(src, cur + 2, '\t');
        let r: usize = if tab {
            cur + 3
        } else {
            cur + 2
        };
        let f2 = if tab {
            f
        } else {
            f.and(cur + 2, Token::Tab)
        };
        let e2 = scan_fragment(src, r);
        if e2 > r {
            let ghost before = acc@;
            acc.push('\\');
            acc.push('\n');
            push_range(&mut acc, src, r, e2);
            proof {
                assert(acc@ =~= before + continuation() + src@.subrange(r as int, e2 as int));
            }
            cur = e2;
            f = f2;
        } else {
            return Parsed { res: Some((acc, cur)), fail: f2.and(r, Token::Command) };
        }
    }
}

/// A command on the line of its rule at `p`.
pub fn parse_inline(src: &Vec<char>, p: usize) -> (r: Option<(String, usize)>)
    requires
        p <= src.len(),
    ensures
        match r {
            Some((v, e)) => inline_command(src@, p as int) == Some((v@, e as int)) && p < e
                <= src.len(),
            None => inline_command(src@, p as int) is None,
        },
{
    proof {
        reveal(inline_command);
    }
    if is_at(src, p, ';') {
        let q = scan_ws(src, p + 1);
        let c = parse_command(src, q);
        match c.res {
            Some((v, e)) => Some((v, e)),
            None => Some((String::new(), q)),
        }
    } else {
        None
    }
}

/// What ends a line at `p`.
pub fn parse_line_close(src: &Vec<char>, p: usize) -> (r: Parsed<()>)
    requires
        p <= src.len(),
    ensures
        is_scan(r, line_close(src@, p as int)),
        within(r, p, src@.len()),
{
    proof {
        reveal(line_close);
    }
    let q = scan_blanks(src, p);
    if q > p {
        Parsed { res: Some(((), q)), fail: Marks::at(q, Token::Comment).and(q, Token::Lf) }
    } else if p >= src.len() {
        Parsed { res: Some(((), p)), fail: Marks::at(p, Token::Comment).and(p, Token::Lf) }
    } else {
        Parsed {
            res: None,
            fail: Marks::at(p, Token::Comment).and(p, Token::Lf).and(p, Token::Eof),
        }
    }
}

/// What ends a command's line at `p`.
pub fn parse_command_close(src: &Vec<char>, p: usize) -> (r: Parsed<()>)
    requires
        p <= src.len(),
    ensures
        is_scan(r, command_close(src@, p as int)),
        within(r, p, src@.len()),
{
    proof {
        reveal(command_close);
    }
    let q = scan_run(src, p, Class::Newline);
    if q > p {
        Parsed { res: Some(((), q)), fail: Marks::at(q, Token::Lf) }
    } else if p >= src.len() {
        Parsed { res: Some(((), p)), fail: Marks::at(p, Token::Lf) }
    } else {
        Parsed { res: None, fail: Marks::at(p, Token::Lf).and(p, Token::Eof) }
    }
}

/// A command on a line of its own at `p`.
pub fn parse_indented(src: &Vec<char>, p: usize) -> (r: Parsed<String>)
    requires
        p <= src.len(),
    ensures
        is_text(r, indented(src@, p as int)),
        beyond(r, p, src@.len()),
{
    proof {
        reveal(indented);
    }
    let q = scan_blanks(src, p);
    let f = Marks::at(q, Token::Comment).and(q, Token::Lf);
    if !is_at(src, q, '\t') {
        return Parsed { res: None, fail: f.and(q, Token::Tab) };
    }
    let c = parse_command(src, q + 1);
    match c.res {
        None => Parsed { res: None, fail: f.join(c.fail) },
        Some((v, e)) => {
            let t = parse_command_close(src, e);
            match t.res {
                None => Parsed { res: None, fail: f.join(c.fail).join(t.fail) },
                Some((_, e2)) => Parsed { res: Some((v, e2)), fail: f.join(c.fail).join(t.fail) },
            }
        },
    }
}

/// Adds `c` to `acc` unless `c` is empty.
pub fn keep_command(acc: &mut Vec<String>, c: String)
    ensures
        texts(final(acc)@) == keep(texts(old(acc)@), c@),
        solid(texts(old(acc)@)) ==> solid(texts(final(acc)@)),
{
    if !c.as_str().is_empty() {
        proof {
            texts_push(acc@, c);
        }
        acc.push(c);
    }
}

/// The rest of a rule's commands, after those in `acc`.
pub fn parse_indented_more(src: &Vec<char>, acc: Vec<String>, p: usize, f: Marks) -> (r: Parsed<
    Vec<String>,
>)
    requires
        p <= src.len(),
        f.far <= src.len(),
    ensures
        is_list(r, indented_more(src@, texts(acc@), p as int, f@)),
        r.res is Some,
        within(r, p, src@.len()),
        solid(texts(acc@)) ==> solid(texts((r.res->0).0@)),
{
    let mut list = acc;
    let mut cur: usize = p;
    let mut marks = f;
    loop
        invariant
            p <= cur <= src.len(),
            marks.far <= src.len(),
            solid(texts(acc@)) ==> solid(texts(list@)),
            indented_more(src@, texts(acc@), p as int, f@) == indented_more(
                src@,
                texts(list@),
                cur as int,
                marks@,
            ),
        decreases src.len() - cur,
    {
        let x = parse_indented(src, cur);
        match x.res {
            Some((v, e)) => {
                keep_command(&mut list, v);
                marks = marks.join(x.fail);
                cur = e;
            },
            None => {
                return Parsed { res: Some((list, cur)), fail: marks.join(x.fail) };
            },
        }
    }
}

/// The body of a rule with prerequisites at `p`.
pub fn parse_with_prerequisites(src: &Vec<char>, p: usize) -> (r: Parsed<Lists>)
    requires
        p <= src.len(),
    ensures
        is_body(r, with_prerequisites(src@, p as int)),
        within(r, p, src@.len()),
        r.res matches Some((l, _)) ==> solid(texts(l.cs@)),
{
    proof {
        reveal(with_prerequisites);
    }
    let ps = parse_words(src, p, Word::Prerequisite);
    match ps.res {
        None => Parsed { res: None, fail: ps.fail },
        Some((pv, e)) => {
            let q = scan_ws(src, e);
            let mut cs0: Vec<String> = Vec::new();
            assert(texts(cs0@) =~= Seq::<Seq<char>>::empty());
            let q2: usize;
            let f1: Marks;
            match parse_inline(src, q) {
                Some((v, e2)) => {
                    keep_command(&mut cs0, v);
                    q2 = e2;
                    f1 = ps.fail;
                },
                None => {
                    q2 = q;
                    f1 = ps.fail.and(q, Token::InlineCommand);
                },
            }
            let t = parse_line_close(src, q2);
            match t.res {
                None => Parsed { res: None, fail: f1.join(t.fail) },
                Some((_, e3)) => {
                    let m = parse_indented_more(src, cs0, e3, f1.join(t.fail));
                    match m.res {
                        Some((cs, e4)) => Parsed {
                            res: Some((Lists { ps: pv, cs }, e4)),
                            fail: m.fail,
                        },
                        None => Parsed { res: None, fail: m.fail },
                    }
                },
            }
        },
    }
}

/// The body of a rule that may have prerequisites and no commands at `p`.
pub fn parse_only_prerequisites(src: &Vec<char>, p: usize) -> (r: Parsed<Lists>)
    requires
        p <= src.len(),
    ensures
        is_body(r, only_prerequisites(src@, p as int)),
        within(r, p, src@.len()),
        r.res matches Some((l, _)) ==> solid(texts(l.cs@)),
{
    proof {
        reveal(only_prerequisites);
    }
    let ps = parse_words(src, p, Word::Prerequisite);
    match ps.res {
        None => Parsed { res: None, fail: ps.fail },
        Some((pv, e)) => {
            let q = scan_ws(src, e);
            let t = parse_line_close(src, q);
            match t.res {
                None => Parsed { res: None, fail: ps.fail.join(t.fail) },
                Some((_, e2)) => {
                    let cs: Vec<String> = Vec::new();
                    assert(texts(cs@) =~= Seq::<Seq<char>>::empty());
                    Parsed { res: Some((Lists { ps: pv, cs }, e2)), fail: ps.fail.join(t.fail) }
                },
            }
        },
    }
}

/// The body of a rule without prerequisites whose first command stands on
/// the rule's own line.
pub fn parse_commands_inline(src: &Vec<char>, p: usize) -> (r: Parsed<Lists>)
    requires
        p <= src.len(),
    ensures
        is_body(r, commands_inline(src@, p as int)),
        within(r, p, src@.len()),
        r.res matches Some((l, _)) ==> solid(texts(l.cs@)),
{
    proof {
        reveal(commands_inline);
    }
    match parse_inline(src, p) {
        None => Parsed { res: None, fail: Marks::at(p, Token::InlineCommand) },
        Some((v, e)) => {
            let t = parse_line_close(src, e);
            match t.res {
                None => Parsed { res: None, fail: t.fail },
                Some((_, e2)) => {
                    let mut cs0: Vec<String> = Vec::new();
                    let ps: Vec<String> = Vec::new();
                    assert(texts(cs0@) =~= Seq::<Seq<char>>::empty());
                    keep_command(&mut cs0, v);
                    let m = parse_indented_more(src, cs0, e2, t.fail);
                    match m.res {
                        Some((cs, e3)) => Parsed {
                            res: Some((Lists { ps, cs }, e3)),
                            fail: m.fail,
                        },
                        None => Parsed { res: None, fail: m.fail },
                    }
                },
            }
        },
    }
}

/// The body of a rule without prerequisites whose commands all stand on
/// lines of their own.
pub fn parse_commands_below(src: &Vec<char>, p: usize) -> (r: Parsed<Lists>)
    requires
        p <= src.len(),
    ensures
        is_body(r, commands_below(src@, p as int)),
        within(r, p, src@.len()),
        r.res matches Some((l, _)) ==> solid(texts(l.cs@)),
{
    proof {
        reveal(commands_below);
    }
    let q = scan_blanks(src, p);
    let f = Marks::at(q, Token::Comment).and(q, Token::Lf);
    if q <= p {
        return Parsed { res: None, fail: f };
    }
    let x = parse_indented(src, q);
    match x.res {
        None => Parsed { res: None, fail: f.join(x.fail) },
        Some((v, e)) => {
            let mut cs0: Vec<String> = Vec::new();
            let ps: Vec<String> = Vec::new();
            assert(texts(cs0@) =~= Seq::<Seq<char>>::empty());
            keep_command(&mut cs0, v);
            let m = parse_indented_more(src, cs0, e, f.join(x.fail));
            match m.res {
                Some((cs, e3)) => Parsed { res: Some((Lists { ps, cs }, e3)), fail: m.fail },
                None => Parsed { res: None, fail: m.fail },
            }
        },
    }
}

/// The body of a rule without prerequisites.
pub fn parse_without_prerequisites(src: &Vec<char>, p: usize) -> (r: Parsed<Lists>)
    requires
        p <= src.len(),
    ensures
        is_body(r, without_prerequisites(src@, p as int)),
        within(r, p, src@.len()),
        r.res matches Some((l, _)) ==> solid(texts(l.cs@)),
{
    proof {
        reveal(without_prerequisites);
    }
    let a = parse_commands_inline(src, p);
    if a.res.is_some() {
        a
    } else {
        let b = parse_commands_below(src, p);
        Parsed { res: b.res, fail: a.fail.join(b.fail) }
    }
}

/// The body of a rule with neither prerequisites nor commands.
pub fn parse_no_body(src: &Vec<char>, p: usize) -> (r: Parsed<Lists>)
    requires
        p <= src.len(),
    ensures
        is_body(r, no_body(src@, p as int)),
        within(r, p, src@.len()),
        r.res matches Some((l, _)) ==> solid(texts(l.cs@)),
{
    proof {
        reveal(no_body);
    }
    let t = parse_line_close(src, p);
    match t.res {
        Some((_, e)) => {
            let ps: Vec<String> = Vec::new();
            let cs: Vec<String> = Vec::new();
            assert(texts(cs@) =~= Seq::<Seq<char>>::empty());
            Parsed { res: Some((Lists { ps, cs }, e)), fail: t.fail }
        },
        None => Parsed { res: None, fail: t.fail },
    }
}

/// The body of shape `s` at `p`.
pub fn parse_body(src: &Vec<char>, p: usize, s: Shape) -> (r: Parsed<Lists>)
    requires
        p <= src.len(),
    ensures
        is_body(r, body(src@, p as int, s)),
        within(r, p, src@.len()),
        r.res matches Some((l, _)) ==> solid(texts(l.cs@)),
{
    proof {
        reveal(body);
    }
    match s {
        Shape::Unit => parse_no_body(src, p),
        Shape::Commands => parse_without_prerequisites(src, p),
        Shape::Config => {
            let a = parse_only_prerequisites(src, p);
            if a.res.is_some() {
                a
            } else {
                let b = parse_no_body(src, p);
                Parsed { res: b.res, fail: a.fail.join(b.fail) }
            }
        },
        Shape::General => {
            let a = parse_with_prerequisites(src, p);
            if a.res.is_some() {
                a
            } else {
                let b = parse_without_prerequisites(src, p);
                Parsed { res: b.res, fail: a.fail.join(b.fail) }
            }
        },
    }
}

/// What follows the targets of a rule at `p`.
pub fn parse_after_targets(src: &Vec<char>, p: usize, s: Shape) -> (r: Parsed<Lists>)
    requires
        p <= src.len(),
    ensures
        is_body(r, after_targets(src@, p as int, s)),
        beyond(r, p, src@.len()),
        r.res matches Some((l, _)) ==> solid(texts(l.cs@)),
{
    proof {
        reveal(after_targets);
    }
    let q = scan_ws(src, p);
    if !is_at(src, q, ':') {
        Parsed { res: None, fail: Marks::at(q, Token::Colon) }
    } else {
        let q2 = scan_ws(src, q + 1);
        parse_body(src, q2, s)
    }
}

/// A rule for a special target of shape `s` at `p`.
pub fn parse_special_rule(src: &Vec<char>, p: usize, s: Shape) -> (r: Parsed<Ore>)
    requires
        p <= src.len(),
    ensures
        is_ore(r, special_rule(src@, p as int, s)),
        beyond(r, p, src@.len()),
        r.res matches Some((o, _)) ==> tidy(o@),
{
    proof {
        reveal(special_rule);
    }
    match scan_special(src, p, s) {
        None => Parsed { res: None, fail: Marks::at(p, Token::Target) },
        Some(e) => {
            let b = parse_after_targets(src, e, s);
            match b.res {
                Some((l, e2)) => {
                    let mut ts: Vec<String> = Vec::new();
                    let t = slice_string(src, p, e);
                    proof {
                        texts_push(ts@, t);
                        assert(texts(ts@) =~= Seq::<Seq<char>>::empty());
                        assert(Seq::<Seq<char>>::empty().push(t@) =~= seq![t@]);
                    }
                    ts.push(t);
                    Parsed { res: Some((Ore::Ru { ts, ps: l.ps, cs: l.cs }, e2)), fail: b.fail }
                },
                None => Parsed { res: None, fail: b.fail },
            }
        },
    }
}

/// A rule for a special target at `p`.
pub fn parse_any_special_rule(src: &Vec<char>, p: usize) -> (r: Parsed<Ore>)
    requires
        p <= src.len(),
    ensures
        is_ore(r, any_special_rule(src@, p as int)),
        beyond(r, p, src@.len()),
        r.res matches Some((o, _)) ==> tidy(o@),
{
    proof {
        reveal(any_special_rule);
    }
    let a = parse_special_rule(src, p, Shape::Unit);
    if a.res.is_some() {
        return a;
    }
    let b = parse_special_rule(src, p, Shape::Commands);
    if b.res.is_some() {
        return Parsed { res: b.res, fail: a.fail.join(b.fail) };
    }
    let c = parse_special_rule(src, p, Shape::Config);
    Parsed { res: c.res, fail: a.fail.join(b.fail).join(c.fail) }
}

/// A rule at `p`.
pub fn parse_general_rule(src: &Vec<char>, p: usize) -> (r: Parsed<Ore>)
    requires
        p <= src.len(),
    ensures
        is_ore(r, general_rule(src@, p as int)),
        beyond(r, p, src@.len()),
        r.res matches Some((o, _)) ==> tidy(o@),
{
    proof {
        reveal(general_rule);
    }
    let ts = parse_words(src, p, Word::Target);
    match ts.res {
        None => Parsed { res: None, fail: ts.fail },
        Some((tv, e)) => {
            let b = parse_after_targets(src, e, Shape::General);
            match b.res {
                Some((l, e2)) => Parsed {
                    res: Some((Ore::Ru { ts: tv, ps: l.ps, cs: l.cs }, e2)),
                    fail: ts.fail.join(b.fail),
                },
                None => Parsed { res: None, fail: ts.fail.join(b.fail) },
            }
        },
    }
}

/// An include line at `p`.
pub fn parse_include_line(src: &Vec<char>, p: usize) -> (r: Parsed<Ore>)
    requires
        p <= src.len(),
    ensures
        is_ore(r, include_line(src@, p as int)),
        beyond(r, p, src@.len()),
        r.res matches Some((o, _)) ==> tidy(o@),
{
    proof {
        reveal(include_line);
    }
    match scan_include_opening(src, p) {
        None => Parsed { res: None, fail: Marks::at(p, Token::IncludeOpening) },
        Some(e) => {
            let q = scan_run(src, e, Class::Blank);
            if q <= e {
                return Parsed { res: None, fail: Marks::at(e, Token::Whitespace) };
            }
            let ps = parse_words(src, q, Word::Path);
            match ps.res {
                None => Parsed { res: None, fail: ps.fail },
                Some((pv, e2)) => {
                    let q2 = scan_ws(src, e2);
                    let t = parse_line_close(src, q2);
                    match t.res {
                        Some((_, e3)) => Parsed {
                            res: Some((Ore::In { ps: pv }, e3)),
                            fail: ps.fail.join(t.fail),
                        },
                        None => Parsed { res: None, fail: ps.fail.join(t.fail) },
                    }
                },
            }
        },
    }
}

/// A piece of a macro's value at `p`.
pub fn parse_value_piece(src: &Vec<char>, p: usize) -> (r: Parsed<String>)
    requires
        p <= src.len(),
    ensures
        is_text(r, value_piece(src@, p as int)),
        beyond(r, p, src@.len()),
    decreases src.len() - p,
{
    let e = scan_run(src, p, Class::ValueText);
    if e > p {
        Parsed { res: Some((slice_string(src, p, e), e)), fail: Marks::new() }
    } else if is_at(src, p, '\\') && is_at(src, p + 1, '\n') {
        let r = scan_ws(src, p + 2);
        let x = parse_value_piece(src, r);
        match x.res {
            Some((v, e2)) => {
                let mut out = String::new();
                out.push(' ');
                push_text(&mut out, &v);
                proof {
                    assert(out@ =~= splice() + v@);
                }
                Parsed {
                    res: Some((out, e2)),
                    fail: Marks::at(p, Token::MacroValueLiteral).join(x.fail),
                }
            },
            None => Parsed {
                res: None,
                fail: Marks::at(p, Token::MacroValueLiteral).join(x.fail).and(
                    p,
                    Token::CStyleEscape,
                ),
            },
        }
    } else {
        let f = Marks::at(p, Token::MacroValueLiteral).and(p, Token::EscapedLf);
        match scan_escape(src, p) {
            Some(e2) => Parsed { res: Some((slice_string(src, p, e2), e2)), fail: f },
            None => Parsed { res: None, fail: f.and(p, Token::CStyleEscape) },
        }
    }
}

/// Appends `s` to `out`.
pub fn push_text(out: &mut String, s: &String)
    ensures
        final(out)@ == old(out)@ + s@,
{
    out.append(s.as_str());
}

/// A macro's value at `p`, up to the end of its line.
pub fn parse_value(src: &Vec<char>, p: usize) -> (r: Parsed<String>)
    requires
        p <= src.len(),
    ensures
        is_text(r, value(src@, p as int)),
        within(r, p, src@.len()),
{
    proof {
        reveal(value);
    }
    let mut acc = String::new();
    let mut cur: usize = p;
    let mut f: Marks = Marks::new();
    loop
        invariant
            p <= cur <= src.len(),
            f.far <= src.len(),
            value(src@, p as int) == value_more(src@, acc@, cur as int, f@),
        decreases src.len() - cur,
    {
        let x = parse_value_piece(src, cur);
        match x.res {
            Some((v, e)) => {
                push_text(&mut acc, &v);
                f = f.join(x.fail);
                cur = e;
            },
            None => {
                let t = parse_line_close(src, cur);
                return match t.res {
                    Some((_, e)) => Parsed {
                        res: Some((acc, e)),
                        fail: f.join(x.fail).join(t.fail),
                    },
                    None => Parsed { res: None, fail: f.join(x.fail).join(t.fail) },
                };
            },
        }
    }
}

/// A macro's name at `p`.
pub fn parse_name(src: &Vec<char>, p: usize) -> (r: Parsed<String>)
    requires
        p <= src.len(),
    ensures
        is_text(r, name(src@, p as int)),
        beyond(r, p, src@.len()),
{
    proof {
        reveal(name);
    }
    let q = scan_comments(src, p);
    let f = Marks::at(q, Token::Comment);
    match scan_name_span(src, p) {
        Some((s, e)) => {
            if scan_run(src, q, Class::NameText) > q {
                Parsed { res: Some((slice_string(src, s, e), e)), fail: f }
            } else {
                Parsed {
                    res: Some((slice_string(src, s, e), e)),
                    fail: f.and(q, Token::MacroNameLiteral),
                }
            }
        },
        None => Parsed {
            res: None,
            fail: f.and(q, Token::MacroNameLiteral).and(q, Token::MacroExpansion),
        },
    }
}

/// A macro definition at `p`.
pub fn parse_definition(src: &Vec<char>, p: usize) -> (r: Parsed<Ore>)
    requires
        p <= src.len(),
    ensures
        is_ore(r, definition(src@, p as int)),
        beyond(r, p, src@.len()),
        r.res matches Some((o, _)) ==> tidy(o@),
{
    proof {
        reveal(definition);
    }
    let n = parse_name(src, p);
    match n.res {
        None => Parsed { res: None, fail: n.fail },
        Some((nv, e)) => {
            let q = scan_ws(src, e);
            match scan_operator(src, q) {
                None => Parsed { res: None, fail: n.fail.and(q, Token::AssignmentOperator) },
                Some(e2) => {
                    let q2 = scan_ws(src, e2);
                    let v = parse_value(src, q2);
                    match v.res {
                        Some((vv, e3)) => Parsed {
                            res: Some((Ore::Mc { n: nv, v: vv }, e3)),
                            fail: n.fail.join(v.fail),
                        },
                        None => Parsed { res: None, fail: n.fail.join(v.fail) },
                    }
                },
            }
        },
    }
}

/// A general macro expression at `p`.
pub fn parse_expression(src: &Vec<char>, p: usize) -> (r: Parsed<Ore>)
    requires
        p <= src.len(),
    ensures
        is_ore(r, expression(src@, p as int)),
        beyond(r, p, src@.len()),
        r.res matches Some((o, _)) ==> tidy(o@),
{
    proof {
        reveal(expression);
    }
    match scan_expansion(src, p) {
        None => Parsed { res: None, fail: Marks::at(p, Token::MacroExpansion) },
        Some(e) => {
            let v = parse_value(src, e);
            let mut text = slice_string(src, p, e);
            match v.res {
                Some((vv, e2)) => {
                    push_text(&mut text, &vv);
                    Parsed { res: Some((Ore::Ex { e: text }, e2)), fail: v.fail }
                },
                None => Parsed { res: Some((Ore::Ex { e: text }, e)), fail: v.fail },
            }
        },
    }
}

/// A directive at `p`, after any comments and empty lines.
pub fn parse_node(src: &Vec<char>, p: usize) -> (r: Parsed<Gem>)
    requires
        p <= src.len(),
    ensures
        is_item(r, node(src@, p as int)),
        beyond(r, p, src@.len()),
        r.res matches Some((g, e)) ==> p <= g.o < e && src@[g.o as int] != '\n' && tidy(g.n@),
{
    proof {
        reveal(node);
    }
    let q = scan_blanks(src, p);
    let a = parse_any_special_rule(src, q);
    let fa = Marks::at(q, Token::Comment).and(q, Token::Lf).join(a.fail);
    if let Some((v, e)) = a.res {
        return Parsed { res: Some((Gem { o: q, l: 0, n: v }, e)), fail: fa };
    }
    let b = parse_general_rule(src, q);
    let fb = fa.join(b.fail);
    if let Some((v, e)) = b.res {
        return Parsed { res: Some((Gem { o: q, l: 0, n: v }, e)), fail: fb };
    }
    let c = parse_include_line(src, q);
    let fc = fb.join(c.fail);
    if let Some((v, e)) = c.res {
        return Parsed { res: Some((Gem { o: q, l: 0, n: v }, e)), fail: fc };
    }
    let d = parse_definition(src, q);
    let fd = fc.join(d.fail);
    if let Some((v, e)) = d.res {
        return Parsed { res: Some((Gem { o: q, l: 0, n: v }, e)), fail: fd };
    }
    let x = parse_expression(src, q);
    let fe = fd.join(x.fail);
    if let Some((v, e)) = x.res {
        return Parsed { res: Some((Gem { o: q, l: 0, n: v }, e)), fail: fe };
    }
    Parsed { res: None, fail: fe }
}

/// The places and directives that a list of located directives holds.
pub open spec fn items(v: Seq<Gem>) -> Seq<Item> {
    v.map_values(|g: Gem| Item { at: g.o as int, ore: g.n@ })
}

/// Whether every directive of `v` has for its offset a position of `src`
/// that holds no line feed, and has no line yet; whether the directives stand
/// in the order of their positions; and whether each is tidy.
pub open spec fn fresh(v: Seq<Gem>, src: Seq<char>) -> bool {
    &&& forall|i: int|
        0 <= i < v.len() ==> (#[trigger] v[i]).l == 0 && v[i].o < src.len() && src[v[i].o as int]
            != '\n' && tidy(v[i].n@)
    &&& forall|i: int, j: int| 0 <= i < j < v.len() ==> (#[trigger] v[i]).o < (#[trigger] v[j]).o
}

/// What [`items`] and [`fresh`] say of a list that grows by one directive.
pub proof fn items_push(v: Seq<Gem>, g: Gem, src: Seq<char>)
    ensures
        items(v.push(g)) == items(v).push(Item { at: g.o as int, ore: g.n@ }),
        fresh(v, src) && g.l == 0 && g.o < src.len() && src[g.o as int] != '\n' && tidy(g.n@) && (
        forall|i: int| 0 <= i < v.len() ==> (#[trigger] v[i]).o < g.o) ==> fresh(v.push(g), src),
{
    assert(items(v.push(g)) =~= items(v).push(Item { at: g.o as int, ore: g.n@ }));
}

/// The directives of the source, from its start on.
pub fn parse_nodes(src: &Vec<char>) -> (r: (Vec<Gem>, usize, Marks))
    ensures
        nodes_more(src@, Seq::empty(), 0, Fail::none()) == crate::grammar::pass(
            items(r.0@),
            r.1 as int,
            r.2@,
        ),
        r.1 <= src.len(),
        r.2.far <= src.len(),
        fresh(r.0@, src@),
        forall|i: int| 0 <= i < r.0.len() ==> (#[trigger] r.0[i]).o < r.1,
{
    let mut acc: Vec<Gem> = Vec::new();
    let mut cur: usize = 0;
    let mut f: Marks = Marks::new();
    assert(items(acc@) =~= Seq::<Item>::empty());
    loop
        invariant
            cur <= src.len(),
            f.far <= src.len(),
            nodes_more(src@, Seq::empty(), 0, Fail::none()) == nodes_more(
                src@,
                items(acc@),
                cur as int,
                f@,
            ),
            fresh(acc@, src@),
            forall|i: int| 0 <= i < acc.len() ==> (#[trigger] acc[i]).o < cur,
        decreases src.len() - cur,
    {
        let x = parse_node(src, cur);
        match x.res {
            Some((g, e)) => {
                proof {
                    items_push(acc@, g, src@);
                }
                acc.push(g);
                f = f.join(x.fail);
                cur = e;
            },
            None => {
                return (acc, cur, f.join(x.fail));
            },
        }
    }
}

/// The whole source as a makefile: its directives, each with the position of
/// its first character in the offset and with line 0; or the furthest failure.
pub fn parse_makefile(src: &Vec<char>) -> (r: Result<Vec<Gem>, Marks>)
    ensures
        match r {
            Ok(v) => makefile(src@) == Ok::<Seq<Item>, Fail>(items(v@)) && fresh(v@, src@),
            Err(m) => makefile(src@) == Err::<Seq<Item>, Fail>(m@) && m.far <= src.len(),
        },
{
    let (acc, cur, f) = parse_nodes(src);
    let q = scan_blanks(src, cur);
    if q >= src.len() {
        Ok(acc)
    } else {
        Err(f.join(Marks::at(q, Token::Comment).and(q, Token::Lf)).and(q, Token::Eof))
    }
}

} // verus!
