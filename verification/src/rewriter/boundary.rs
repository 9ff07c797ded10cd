//! Facts about UTF-8 character boundaries used when the source is cut into
//! pieces and put back together.
use vstd::prelude::*;
use vstd::utf8::{
    encode_utf8, encode_utf8_valid_utf8, is_char_boundary, is_char_boundary_iff_not_is_continuation_byte,
    is_char_boundary_start_end_of_seq, is_continuation_byte, length_of_first_scalar, pop_first_scalar,
    valid_first_scalar, valid_utf8, valid_utf8_concat, valid_utf8_split,
};

use crate::text::occurs_at;

verus! {

/// A valid prefix of valid UTF-8 ends at a character boundary.
pub proof fn lemma_valid_prefix_boundary(b: Seq<u8>, k: int)
    requires
        valid_utf8(b),
        0 <= k <= b.len(),
        valid_utf8(b.subrange(0, k)),
    ensures
        is_char_boundary(b, k),
    decreases b.len(),
{
    if k > 0 {
        let p = b.subrange(0, k);
        assert(valid_first_scalar(p));
        assert(p[0] == b[0]);
        let l = length_of_first_scalar(b);
        assert(length_of_first_scalar(p) == l);
        assert(l <= k);
        let rest = pop_first_scalar(b);
        assert(pop_first_scalar(p) =~= rest.subrange(0, k - l));
        lemma_valid_prefix_boundary(rest, k - l);
    }
}

/// A boundary of a piece cut out between two boundaries is a boundary of the whole.
pub proof fn lemma_piece_boundary(b: Seq<u8>, ls: int, le: int, c: int)
    requires
        valid_utf8(b),
        0 <= ls <= le <= b.len(),
        is_char_boundary(b, ls),
        is_char_boundary(b, le),
        0 <= c <= le - ls,
        valid_utf8(b.subrange(ls, le)),
        is_char_boundary(b.subrange(ls, le), c),
    ensures
        is_char_boundary(b, ls + c),
{
    if c < le - ls {
        let t = b.subrange(ls, le);
        is_char_boundary_iff_not_is_continuation_byte(t, c);
        is_char_boundary_iff_not_is_continuation_byte(b, ls + c);
        assert(t[c] == b[ls + c]);
    }
}

/// The bytes between two boundaries of valid UTF-8 are valid UTF-8.
pub proof fn lemma_piece_valid(b: Seq<u8>, x: int, y: int)
    requires
        valid_utf8(b),
        0 <= x <= y <= b.len(),
        is_char_boundary(b, x),
        is_char_boundary(b, y),
    ensures
        valid_utf8(b.subrange(x, y)),
{
    valid_utf8_split(b, y);
    let head = b.subrange(0, y);
    lemma_boundary_in_prefix(b, x, y);
    valid_utf8_split(head, x);
    assert(head.subrange(x, head.len() as int) =~= b.subrange(x, y));
}

/// A boundary before `y` is a boundary of the prefix ending at `y`.
pub proof fn lemma_boundary_in_prefix(b: Seq<u8>, x: int, y: int)
    requires
        valid_utf8(b),
        0 <= x <= y <= b.len(),
        is_char_boundary(b, x),
        is_char_boundary(b, y),
    ensures
        valid_utf8(b.subrange(0, y)),
        is_char_boundary(b.subrange(0, y), x),
{
    valid_utf8_split(b, y);
    let head = b.subrange(0, y);
    is_char_boundary_start_end_of_seq(head);
    if x < y {
        is_char_boundary_iff_not_is_continuation_byte(b, x);
        is_char_boundary_iff_not_is_continuation_byte(head, x);
        assert(head[x] == b[x]);
    }
}

/// Where the encoding of some characters occurs in valid UTF-8, the
/// occurrence starts and ends at character boundaries.
pub proof fn lemma_occurrence_boundaries(t: Seq<u8>, i: int, cs: Seq<char>)
    requires
        valid_utf8(t),
        occurs_at(t, encode_utf8(cs), i),
        encode_utf8(cs).len() > 0,
    ensures
        is_char_boundary(t, i),
        is_char_boundary(t, i + encode_utf8(cs).len()),
{
    let p = encode_utf8(cs);
    let n = p.len() as int;
    encode_utf8_valid_utf8(cs);
    is_char_boundary_start_end_of_seq(p);
    is_char_boundary_iff_not_is_continuation_byte(p, 0);
    assert(t.subrange(i, i + n)[0] == t[i]);
    is_char_boundary_iff_not_is_continuation_byte(t, i);
    valid_utf8_split(t, i);
    valid_utf8_concat(t.subrange(0, i), p);
    assert(t.subrange(0, i) + p =~= t.subrange(0, i + n));
    lemma_valid_prefix_boundary(t, i + n);
}

/// An index holding no continuation byte, or the end, is a boundary.
pub proof fn lemma_start_byte_boundary(t: Seq<u8>, i: int)
    requires
        valid_utf8(t),
        0 <= i <= t.len(),
        i < t.len() ==> !is_continuation_byte(t[i]),
    ensures
        is_char_boundary(t, i),
{
    is_char_boundary_start_end_of_seq(t);
    if i < t.len() {
        is_char_boundary_iff_not_is_continuation_byte(t, i);
    }
}

/// The encoding of a concatenation is the concatenation of the encodings.
pub proof fn lemma_encode_concat(a: Seq<char>, b: Seq<char>)
    ensures
        encode_utf8(a + b) == encode_utf8(a) + encode_utf8(b),
    decreases a.len(),
{
    if a.len() == 0 {
        assert(a + b =~= b);
    } else {
        lemma_encode_concat(a.drop_first(), b);
        assert((a + b).drop_first() =~= a.drop_first() + b);
        assert((a + b)[0] == a[0]);
    }
}

} // verus!
