//! The syntax tree of a makefile.

use vstd::prelude::*;
use vstd::utf8::encode_utf8;
use crate::diagnostic::{error_at, message, report, ParseError};
use crate::grammar::{makefile, Item};
use crate::lines::{index_gives_line, line_index, offsets_grow};
use crate::locate::{byte_offset, line_of, Places};
use crate::parser::{fresh, items, parse_makefile, tidy};
use crate::text::chars_of;

verus! {

/// What one directive of a makefile says.
///
/// Values are kept as they stand in the source; no macro is expanded.
#[derive(Debug, PartialEq)]
pub enum Ore {
    /// A rule.
    Ru {
        /// The targets the rule produces.
        ts: Vec<String>,
        /// The prerequisites the rule depends on.
        ps: Vec<String>,
        /// The shell commands of the rule.
        cs: Vec<String>,
    },
    /// A macro definition.
    Mc {
        /// The macro's name.
        n: String,
        /// The macro's unexpanded value.
        v: String,
    },
    /// An include line.
    In {
        /// The paths of the makefiles to include.
        ps: Vec<String>,
    },
    /// A general macro expression.
    Ex {
        /// The unexpanded expression.
        e: String,
    },
}

/// The mathematical value of an [`Ore`].
pub enum OreView {
    Ru { ts: Seq<Seq<char>>, ps: Seq<Seq<char>>, cs: Seq<Seq<char>> },
    Mc { n: Seq<char>, v: Seq<char> },
    In { ps: Seq<Seq<char>> },
    Ex { e: Seq<char> },
}

/// The texts of a list of strings.
pub open spec fn texts(v: Seq<String>) -> Seq<Seq<char>> {
    v.map_values(|s: String| s@)
}

impl View for Ore {
    type V = OreView;

    open spec fn view(&self) -> OreView {
        match *self {
            Ore::Ru { ts, ps, cs } => OreView::Ru {
                ts: texts(ts@),
                ps: texts(ps@),
                cs: texts(cs@),
            },
            Ore::Mc { n, v } => OreView::Mc { n: n@, v: v@ },
            Ore::In { ps } => OreView::In { ps: texts(ps@) },
            Ore::Ex { e } => OreView::Ex { e: e@ },
        }
    }
}

/// A directive together with where it starts in the source.
#[derive(Debug, PartialEq)]
pub struct Gem {
    /// The offset, in bytes, of the directive's first byte.
    pub o: usize,
    /// The line the directive starts on, counted from 1; 0 until resolved.
    pub l: usize,
    /// The directive.
    pub n: Ore,
}

/// The mathematical value of a [`Gem`].
pub struct GemView {
    pub o: nat,
    pub l: nat,
    pub n: OreView,
}

impl View for Gem {
    type V = GemView;

    open spec fn view(&self) -> GemView {
        GemView { o: self.o as nat, l: self.l as nat, n: self.n@ }
    }
}

/// The views of a list of located directives.
pub open spec fn gems(v: Seq<Gem>) -> Seq<GemView> {
    v.map_values(|g: Gem| g@)
}

/// A makefile: its directives in the order of the source.
#[derive(Debug, PartialEq)]
pub struct Mk {
    /// The offset of the makefile's first byte: 0.
    pub o: usize,
    /// The line the makefile starts on: 1.
    pub l: usize,
    /// The directives.
    pub ns: Vec<Gem>,
}

impl Mk {
    /// A makefile of the directives `ns`.
    pub fn new(ns: Vec<Gem>) -> (mk: Mk)
        ensures
            mk.o == 0,
            mk.l == 1,
            mk.ns == ns,
    {
        Mk { o: 0, l: 1, ns }
    }
}

impl Default for Mk {
    /// A makefile without directives.
    fn default() -> (mk: Mk)
        ensures
            mk.o == 0,
            mk.l == 1,
            mk.ns@.len() == 0,
    {
        Mk::new(Vec::new())
    }
}

/// A stretch of the source that counts as one line: the offsets from `start`
/// up to, not including, `end`.
#[derive(Clone, Copy, Debug, PartialEq, Eq)]
pub struct Span {
    pub start: usize,
    pub end: usize,
    pub line: usize,
}

/// The line of the first stretch of `index` that holds `offset`.
pub open spec fn line_at(index: Seq<Span>, offset: usize) -> Option<usize>
    decreases index.len(),
{
    if index.len() == 0 {
        None
    } else if index[0].start <= offset < index[0].end {
        Some(index[0].line)
    } else {
        line_at(index.drop_first(), offset)
    }
}

/// The line that `index` gives to `offset`, or `line` where it gives none.
pub open spec fn line_or(index: Seq<Span>, offset: usize, line: usize) -> usize {
    match line_at(index, offset) {
        Some(l) => l,
        None => line,
    }
}

/// The line of the first stretch of `index` that holds `offset`.
pub fn find_line(index: &Vec<Span>, offset: usize) -> (r: Option<usize>)
    ensures
        r == line_at(index@, offset),
{
    let mut i: usize = 0;
    proof {
        assert(index@.skip(0) =~= index@);
    }
    while i < index.len()
        invariant
            i <= index.len(),
            line_at(index@, offset) == line_at(index@.skip(i as int), offset),
        decreases index.len() - i,
    {
        if index[i].start <= offset && offset < index[i].end {
            return Some(index[i].line);
        }
        proof {
            assert(index@.skip(i as int).drop_first() =~= index@.skip(i + 1));
        }
        i += 1;
    }
    None
}

/// What has a place in the source.
pub trait Traceable {
    /// The offset in bytes.
    spec fn offset(&self) -> usize;

    /// The line, counted from 1.
    spec fn line(&self) -> usize;

    /// Sets the offset.
    fn set_offset(&mut self, offset: usize)
        ensures
            final(self).offset() == offset,
            final(self).line() == old(self).line(),
    ;

    /// The offset.
    fn get_offset(&self) -> (r: usize)
        ensures
            r == self.offset(),
    ;

    /// Sets the line.
    fn set_line(&mut self, line: usize)
        ensures
            final(self).line() == line,
            final(self).offset() == old(self).offset(),
    ;

    /// The line.
    fn get_line(&self) -> (r: usize)
        ensures
            r == self.line(),
    ;

    /// Corrects the lines by `index`.
    fn update(&mut self, index: &Vec<Span>)
        ensures
            final(self).offset() == old(self).offset(),
    ;
}

impl Traceable for Gem {
    open spec fn offset(&self) -> usize {
        self.o
    }

    open spec fn line(&self) -> usize {
        self.l
    }

    fn set_offset(&mut self, offset: usize)
        ensures
            final(self).n == old(self).n,
    {
        self.o = offset;
    }

    fn get_offset(&self) -> (r: usize) {
        self.o
    }

    fn set_line(&mut self, line: usize)
        ensures
            final(self).n == old(self).n,
    {
        self.l = line;
    }

    fn get_line(&self) -> (r: usize) {
        self.l
    }

    /// Sets the line to that of the first stretch of `index` that holds the
    /// offset; where none does, the line stays.
    fn update(&mut self, index: &Vec<Span>)
        ensures
            final(self).n == old(self).n,
            final(self).l == line_or(index@, old(self).o, old(self).l),
    {
        match find_line(index, self.o) {
            Some(l) => {
                self.set_line(l);
            },
            None => {},
        }
    }
}

/// Whether `after` is `before` with each directive's line corrected by
/// `index`.
pub open spec fn updated(before: Seq<Gem>, after: Seq<Gem>, index: Seq<Span>) -> bool {
    &&& after.len() == before.len()
    &&& forall|i: int|
        0 <= i < before.len() ==> (#[trigger] after[i]).o == before[i].o && after[i].n
            == before[i].n && after[i].l == line_or(index, before[i].o, before[i].l)
}

impl Traceable for Mk {
    open spec fn offset(&self) -> usize {
        self.o
    }

    open spec fn line(&self) -> usize {
        self.l
    }

    fn set_offset(&mut self, offset: usize)
        ensures
            final(self).ns == old(self).ns,
    {
        self.o = offset;
    }

    fn get_offset(&self) -> (r: usize) {
        self.o
    }

    fn set_line(&mut self, line: usize)
        ensures
            final(self).ns == old(self).ns,
    {
        self.l = line;
    }

    fn get_line(&self) -> (r: usize) {
        self.l
    }

    /// Corrects the line of each directive by `index`; the makefile's own
    /// place stays.
    fn update(&mut self, index: &Vec<Span>)
        ensures
            final(self).l == old(self).l,
            updated(old(self).ns@, final(self).ns@, index@),
    {
        let mut i: usize = 0;
        while i < self.ns.len()
            invariant
                i <= self.ns.len(),
                self.o == old(self).o,
                self.l == old(self).l,
                self.ns.len() == old(self).ns.len(),
                forall|j: int|
                    0 <= j < i ==> (#[trigger] self.ns[j]).o == old(self).ns[j].o && self.ns[j].n
                        == old(self).ns[j].n && self.ns[j].l == line_or(
                        index@,
                        old(self).ns[j].o,
                        old(self).ns[j].l,
                    ),
                forall|j: int| i <= j < self.ns.len() ==> self.ns[j] == old(self).ns[j],
            decreases self.ns.len() - i,
        {
            self.ns[i].update(index);
            i += 1;
        }
    }
}

/// What is a node of the tree: it has a place, and can be shown and compared.
pub trait Node: Traceable + std::fmt::Debug + PartialEq {
}

impl Node for Gem {
}

impl Node for Mk {
}

/// The directive `it` of the source `src`, with its place: the offset of its
/// first character in bytes, and its line, which is one more than the number
/// of line feeds before it.
pub open spec fn located(src: Seq<char>, it: Item) -> GemView {
    GemView { o: byte_offset(src, it.at), l: line_of(src, it.at), n: it.ore }
}

/// The directives `its` of the source `src`, each with its place.
pub open spec fn tree(src: Seq<char>, its: Seq<Item>) -> Seq<GemView> {
    its.map_values(|it: Item| located(src, it))
}

/// What parsing the source `s` comes to: the directives in the order of the
/// source, each with its place, or else the report of the furthest failure.
pub open spec fn outcome(s: Seq<char>) -> Result<Seq<GemView>, ParseError> {
    match makefile(s) {
        Ok(its) => Ok(tree(s, its)),
        Err(f) => Err(error_at(s, f)),
    }
}

/// Whether the directives `v` are in order in the source `src`: each starts
/// within the source, on a line that has a number; one that stands after
/// another starts after it, and not on an earlier line; and each rule has a
/// target and no empty command.
pub open spec fn orderly(src: Seq<char>, v: Seq<GemView>) -> bool {
    &&& forall|i: int|
        0 <= i < v.len() ==> (#[trigger] v[i]).o < encode_utf8(src).len() && v[i].l >= 1 && tidy(
            v[i].n,
        )
    &&& forall|i: int, j: int|
        0 <= i < j < v.len() ==> (#[trigger] v[i]).o < (#[trigger] v[j]).o && v[i].l <= v[j].l
}

/// Whether `r` is what parsing the source `s` yields.
pub open spec fn parsed(s: Seq<char>, r: Result<Mk, ParseError>) -> bool {
    match r {
        Ok(mk) => outcome(s) == Ok::<Seq<GemView>, ParseError>(gems(mk.ns@)) && mk.o == 0 && mk.l
            == 1 && orderly(s, gems(mk.ns@)),
        Err(e) => outcome(s) == Err::<Seq<GemView>, ParseError>(e),
    }
}

/// Whether `r` is what parsing the source `s`, read from `pth`, yields.
pub open spec fn parsed_posix(pth: Seq<char>, s: Seq<char>, r: Result<Mk, String>) -> bool {
    match r {
        Ok(mk) => outcome(s) == Ok::<Seq<GemView>, ParseError>(gems(mk.ns@)) && mk.o == 0 && mk.l
            == 1 && orderly(s, gems(mk.ns@)),
        Err(text) => outcome(s) is Err && text@ == message(pth, outcome(s)->Err_0),
    }
}

/// Parsing the same source twice yields the same: two trees with the same
/// directives at the same places, or two reports that read the same.
pub proof fn parse_is_repeatable(
    pth: Seq<char>,
    s: Seq<char>,
    a: Result<Mk, String>,
    b: Result<Mk, String>,
)
    requires
        parsed_posix(pth, s, a),
        parsed_posix(pth, s, b),
    ensures
        a is Ok <==> b is Ok,
        a is Ok ==> gems(a->Ok_0.ns@) == gems(b->Ok_0.ns@) && a->Ok_0.o == b->Ok_0.o && a->Ok_0.l
            == b->Ok_0.l,
        a is Err ==> a->Err_0@ == b->Err_0@,
{
}

/// Gives each directive of `nodes`, which holds the position of its first
/// character, its offset in bytes.
fn place(src: &Vec<char>, places: &Places, nodes: Vec<Gem>) -> (out: Vec<Gem>)
    requires
        places.of(src@),
        fresh(nodes@, src@),
    ensures
        out.len() == nodes.len(),
        forall|i: int|
            0 <= i < out.len() ==> (#[trigger] out[i]).o == byte_offset(src@, nodes[i].o as int)
                && out[i].l == 0 && out[i].n == nodes[i].n,
{
    let mut out = nodes;
    let mut i: usize = 0;
    while i < out.len()
        invariant
            i <= out.len(),
            out.len() == nodes.len(),
            places.of(src@),
            fresh(nodes@, src@),
            forall|j: int|
                0 <= j < i ==> (#[trigger] out[j]).o == byte_offset(src@, nodes[j].o as int)
                    && out[j].l == 0 && out[j].n == nodes[j].n,
            forall|j: int| i <= j < out.len() ==> out[j] == nodes[j],
        decreases out.len() - i,
    {
        let k = out[i].get_offset();
        assert(nodes[i as int].o == k);
        out[i].set_offset(places.offsets[k]);
        i += 1;
    }
    out
}

/// Parses the makefile `s`.
///
/// Yields the directives in the order of the source, each with the offset of
/// its first byte and with its line, or else the report of the furthest
/// failure.
pub fn parse(s: &str) -> (r: Result<Mk, ParseError>)
    ensures
        parsed(s@, r),
{
    let src = chars_of(s);
    let places = Places::new(&src, s.as_bytes().len());
    match parse_makefile(&src) {
        Ok(nodes) => {
            let ghost its = items(nodes@);
            let mut mk = Mk::new(place(&src, &places, nodes));
            let index = line_index(&src, &places);
            mk.update(&index);
            proof {
                assert forall|i: int| 0 <= i < mk.ns.len() implies (#[trigger] mk.ns[i])@
                    == located(src@, its[i]) by {
                    index_gives_line(src@, nodes[i].o as int);
                    offsets_grow(src@, nodes[i].o as int, src@.len() as int);
                }
                assert(gems(mk.ns@) =~= tree(src@, its));
                assert forall|i: int, j: int| 0 <= i < j < mk.ns.len() implies (#[trigger] gems(
                    mk.ns@,
                )[i]).o < (#[trigger] gems(mk.ns@)[j]).o && gems(mk.ns@)[i].l <= gems(
                    mk.ns@,
                )[j].l by {
                    offsets_grow(src@, nodes[i].o as int, nodes[j].o as int);
                }
                assert forall|i: int| 0 <= i < mk.ns.len() implies (#[trigger] gems(mk.ns@)[i]).o
                    < encode_utf8(src@).len() && gems(mk.ns@)[i].l >= 1 && tidy(
                    gems(mk.ns@)[i].n,
                ) by {
                    offsets_grow(src@, nodes[i].o as int, src@.len() as int);
                }
            }
            Ok(mk)
        },
        Err(m) => Err(report(&src, &places, m)),
    }
}

/// Parses the makefile `s`, which was read from `pth`.
///
/// Yields the directives in the order of the source, each with the offset of
/// its first byte and with its line, or else one line of text that reports
/// the furthest failure.
pub fn parse_posix(pth: &str, s: &str) -> (r: Result<Mk, String>)
    ensures
        parsed_posix(pth@, s@, r),
{
    match parse(s) {
        Ok(mk) => Ok(mk),
        Err(e) => Err(e.describe(pth)),
    }
}

} // verus!
