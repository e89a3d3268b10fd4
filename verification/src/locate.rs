//! Where a position of the source lies: its offset in bytes, its line and
//! its column.

use vstd::prelude::*;
use vstd::utf8::{encode_scalar, encode_utf8};

verus! {

/// `char::len_utf8` is the number of bytes that the character takes in UTF-8.
pub assume_specification[ char::len_utf8 ](c: char) -> (n: usize)
    ensures
        n == encode_scalar(c as u32).len(),
        1 <= n <= 4,
;

/// The number of line feeds in `s`.
pub open spec fn newlines(s: Seq<char>) -> nat
    decreases s.len(),
{
    if s.len() == 0 {
        0
    } else {
        newlines(s.drop_last()) + if s.last() == '\n' {
            1nat
        } else {
            0nat
        }
    }
}

/// The number of characters of `s` after its last line feed.
pub open spec fn tail_len(s: Seq<char>) -> nat
    decreases s.len(),
{
    if s.len() == 0 || s.last() == '\n' {
        0
    } else {
        tail_len(s.drop_last()) + 1
    }
}

/// The offset in bytes of the character at position `k` of `src`, where the
/// source is encoded as UTF-8.
pub open spec fn byte_offset(src: Seq<char>, k: int) -> nat {
    encode_utf8(src.take(k)).len()
}

/// The line of position `k` of `src`, counted from 1.
pub open spec fn line_of(src: Seq<char>, k: int) -> nat {
    1 + newlines(src.take(k))
}

/// The column of position `k` of `src` in its line, counted from 1.
pub open spec fn column_of(src: Seq<char>, k: int) -> nat {
    1 + tail_len(src.take(k))
}

/// The encoding of two texts, one after the other, is the encoding of the
/// first followed by that of the second.
pub proof fn encode_concat(a: Seq<char>, b: Seq<char>)
    ensures
        encode_utf8(a + b) == encode_utf8(a) + encode_utf8(b),
    decreases a.len(),
{
    if a.len() == 0 {
        assert(a + b =~= b);
        assert(encode_utf8(a) + encode_utf8(b) =~= encode_utf8(b));
    } else {
        encode_concat(a.drop_first(), b);
        assert((a + b).drop_first() =~= a.drop_first() + b);
        assert(encode_utf8(a + b) =~= encode_utf8(a) + encode_utf8(b));
    }
}

/// What one more character adds to the offset, the line count and the column.
pub proof fn step(src: Seq<char>, k: int)
    requires
        0 <= k < src.len(),
    ensures
        byte_offset(src, k + 1) == byte_offset(src, k) + encode_scalar(src[k] as u32).len(),
        byte_offset(src, k + 1) <= encode_utf8(src).len(),
        newlines(src.take(k + 1)) == newlines(src.take(k)) + if src[k] == '\n' {
            1nat
        } else {
            0nat
        },
        tail_len(src.take(k + 1)) == if src[k] == '\n' {
            0nat
        } else {
            tail_len(src.take(k)) + 1
        },
{
    let one = seq![src[k]];
    assert(src.take(k + 1) =~= src.take(k) + one);
    assert(src.take(k + 1).drop_last() =~= src.take(k));
    encode_concat(src.take(k), one);
    assert(one.drop_first() =~= Seq::<char>::empty());
    assert(encode_utf8(one) =~= encode_scalar(src[k] as u32)) by {
        reveal_with_fuel(encode_utf8, 2);
    }
    assert(src =~= src.take(k + 1) + src.skip(k + 1));
    encode_concat(src.take(k + 1), src.skip(k + 1));
}

/// For each position of a source, its end included, the offset in bytes and
/// the number of line feeds before it.
pub struct Places {
    pub offsets: Vec<usize>,
    pub counts: Vec<usize>,
}

impl Places {
    /// Whether the tables are those of `src`.
    pub open spec fn of(&self, src: Seq<char>) -> bool {
        &&& self.offsets.len() == src.len() + 1
        &&& self.counts.len() == src.len() + 1
        &&& forall|k: int|
            0 <= k <= src.len() ==> #[trigger] self.offsets[k] == byte_offset(src, k)
        &&& forall|k: int|
            0 <= k <= src.len() ==> #[trigger] self.counts[k] == newlines(src.take(k))
        &&& forall|k: int| 0 <= k <= src.len() ==> #[trigger] self.counts[k] <= k
    }

    /// The tables of `src`, whose encoding takes `total` bytes.
    pub fn new(src: &Vec<char>, total: usize) -> (out: Places)
        requires
            total == encode_utf8(src@).len(),
        ensures
            out.of(src@),
    {
        let mut offsets: Vec<usize> = Vec::new();
        let mut counts: Vec<usize> = Vec::new();
        let mut b: usize = 0;
        let mut c: usize = 0;
        let mut k: usize = 0;
        proof {
            assert(src@.take(0) =~= Seq::<char>::empty());
        }
        while k < src.len()
            invariant
                k <= src.len(),
                total == encode_utf8(src@).len(),
                offsets.len() == k,
                counts.len() == k,
                b == byte_offset(src@, k as int),
                c == newlines(src@.take(k as int)),
                c <= k,
                forall|j: int| 0 <= j < k ==> #[trigger] offsets[j] == byte_offset(src@, j),
                forall|j: int| 0 <= j < k ==> #[trigger] counts[j] == newlines(src@.take(j)),
                forall|j: int| 0 <= j < k ==> #[trigger] counts[j] <= j,
            decreases src.len() - k,
        {
            proof {
                step(src@, k as int);
            }
            offsets.push(b);
            counts.push(c);
            b = b + src[k].len_utf8();
            if src[k] == '\n' {
                c = c + 1;
            }
            k = k + 1;
        }
        offsets.push(b);
        counts.push(c);
        Places { offsets, counts }
    }
}

} // verus!
