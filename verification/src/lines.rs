//! The index of the lines of a source: for each line, the stretch of byte
//! offsets that lies on it.

use vstd::prelude::*;
use vstd::utf8::encode_utf8;
use crate::ast::{line_at, Span};
use crate::locate::{byte_offset, line_of, newlines, step, Places};

verus! {

/// The offset at which the stretch of position `k` starts: that of the last
/// line feed before `k`, or 0 where there is none.
pub open spec fn stretch_start(src: Seq<char>, k: int) -> nat
    decreases k,
{
    if k <= 0 {
        0
    } else if src[k - 1] == '\n' {
        byte_offset(src, k - 1)
    } else {
        stretch_start(src, k - 1)
    }
}

/// The stretch that ends at position `j`, where a line feed stands: it
/// starts at the line feed before, which belongs to it, and ends before the
/// one at `j`.
pub open spec fn stretch(src: Seq<char>, j: int) -> Span {
    Span {
        start: stretch_start(src, j) as usize,
        end: byte_offset(src, j) as usize,
        line: line_of(src, j) as usize,
    }
}

/// The stretches that the line feeds among the first `k` characters end.
pub open spec fn stretches(src: Seq<char>, k: int) -> Seq<Span>
    decreases k,
{
    if k <= 0 {
        Seq::empty()
    } else if src[k - 1] == '\n' {
        stretches(src, k - 1).push(stretch(src, k - 1))
    } else {
        stretches(src, k - 1)
    }
}

/// The index of the lines of `src`: the source is split at its line feeds
/// into stretches, numbered from 1, each of which starts at a line feed,
/// but for the first, and ends before the next, or with the source.
pub open spec fn line_spans(src: Seq<char>) -> Seq<Span> {
    stretches(src, src.len() as int).push(stretch(src, src.len() as int))
}

/// Whether the offsets and the lines of `src` fit the machine's integers.
pub open spec fn fits(src: Seq<char>) -> bool {
    encode_utf8(src).len() <= usize::MAX && src.len() < usize::MAX
}

/// Offsets grow with positions, and lines do not shrink.
pub proof fn offsets_grow(src: Seq<char>, j: int, k: int)
    requires
        0 <= j <= k <= src.len(),
    ensures
        byte_offset(src, j) <= byte_offset(src, k),
        j < k ==> byte_offset(src, j) < byte_offset(src, k),
        byte_offset(src, k) <= encode_utf8(src).len(),
        newlines(src.take(j)) <= newlines(src.take(k)) <= k,
        stretch_start(src, k) <= byte_offset(src, k),
    decreases k,
{
    if k == 0 {
        assert(src.take(0) =~= Seq::<char>::empty());
    } else {
        step(src, k - 1);
        vstd::utf8::char_is_scalar(src[k - 1]);
        if j < k {
            offsets_grow(src, j, k - 1);
        } else {
            offsets_grow(src, k - 1, k - 1);
        }
    }
}

/// What a list of stretches gives once one more is added: what it gave
/// before, or else the line of the new stretch where that holds the offset.
pub proof fn line_at_push(index: Seq<Span>, x: Span, offset: usize)
    ensures
        line_at(index.push(x), offset) == match line_at(index, offset) {
            Some(l) => Some(l),
            None => if x.start <= offset < x.end {
                Some(x.line)
            } else {
                None
            },
        },
    decreases index.len(),
{
    if index.len() == 0 {
        assert(index.push(x).drop_first() =~= Seq::<Span>::empty());
        reveal_with_fuel(line_at, 2);
    } else {
        assert(index.push(x).drop_first() =~= index.drop_first().push(x));
        line_at_push(index.drop_first(), x, offset);
    }
}

/// The stretches that end before position `k` do not hold its offset.
pub proof fn earlier_stretches_miss(src: Seq<char>, j: int, k: int)
    requires
        0 <= j <= k <= src.len(),
        fits(src),
    ensures
        line_at(stretches(src, j), byte_offset(src, k) as usize) is None,
    decreases j,
{
    if j > 0 {
        earlier_stretches_miss(src, j - 1, k);
        if src[j - 1] == '\n' {
            offsets_grow(src, j - 1, k);
            offsets_grow(src, k, src.len() as int);
            line_at_push(stretches(src, j - 1), stretch(src, j - 1), byte_offset(src, k) as usize);
        }
    }
}

/// What the stretches that end before position `j` give to the offset of
/// position `k`, which is before `j` and holds no line feed: the line of
/// `k` once a line feed was met after `k`, and nothing before that.
pub proof fn later_stretches_hit(src: Seq<char>, k: int, j: int)
    requires
        0 <= k <= j <= src.len(),
        k < src.len(),
        src[k] != '\n',
        fits(src),
    ensures
        newlines(src.take(j)) == newlines(src.take(k)) ==> line_at(
            stretches(src, j),
            byte_offset(src, k) as usize,
        ) is None && stretch_start(src, j) == stretch_start(src, k),
        newlines(src.take(j)) != newlines(src.take(k)) ==> line_at(
            stretches(src, j),
            byte_offset(src, k) as usize,
        ) == Some(line_of(src, k) as usize),
    decreases j - k,
{
    if j == k {
        earlier_stretches_miss(src, k, k);
    } else {
        later_stretches_hit(src, k, j - 1);
        step(src, j - 1);
        offsets_grow(src, k, j - 1);
        offsets_grow(src, j - 1, src.len() as int);
        offsets_grow(src, k, k);
        if src[j - 1] == '\n' {
            line_at_push(stretches(src, j - 1), stretch(src, j - 1), byte_offset(src, k) as usize);
        }
    }
}

/// The index of the lines of a source gives each position that holds no
/// line feed its line: one more than the number of line feeds before it.
pub proof fn index_gives_line(src: Seq<char>, k: int)
    requires
        0 <= k < src.len(),
        src[k] != '\n',
        fits(src),
    ensures
        line_at(line_spans(src), byte_offset(src, k) as usize) == Some(line_of(src, k) as usize),
{
    let n = src.len() as int;
    later_stretches_hit(src, k, n);
    offsets_grow(src, k, n);
    offsets_grow(src, k, k);
    line_at_push(stretches(src, n), stretch(src, n), byte_offset(src, k) as usize);
}

/// The index of the lines of `src`.
pub fn line_index(src: &Vec<char>, places: &Places) -> (index: Vec<Span>)
    requires
        places.of(src@),
    ensures
        index@ == line_spans(src@),
{
    let mut index: Vec<Span> = Vec::new();
    let mut start: usize = 0;
    let mut k: usize = 0;
    while k < src.len()
        invariant
            k <= src.len(),
            places.of(src@),
            index@ == stretches(src@, k as int),
            start == stretch_start(src@, k as int),
        decreases src.len() - k,
    {
        if src[k] == '\n' {
            index.push(Span { start, end: places.offsets[k], line: places.counts[k] + 1 });
            start = places.offsets[k];
        }
        k = k + 1;
    }
    index.push(Span { start, end: places.offsets[k], line: places.counts[k] + 1 });
    index
}

} // verus!
