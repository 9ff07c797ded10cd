//! Applying the planned edits: sorted by position, overlapping replacements
//! dropped, and the source rebuilt piece by piece.
use vstd::prelude::*;
use vstd::string::StringSliceAdditionalSpecFns;
use vstd::utf8::{encode_utf8, is_char_boundary, valid_utf8};

use crate::rewriter::boundary::{lemma_boundary_in_prefix, lemma_encode_concat};
use crate::rewriter::plan::{Action, EditView, edit_bounded, edit_views};
use crate::sort::{first_after, isort, lemma_first_after_skip, lemma_isort_members};

verus! {

/// The order in which edits are applied: by position; at one position an
/// insertion before a replacement, and a longer replacement before a shorter one.
pub open spec fn edit_lt(a: EditView, b: EditView) -> bool {
    a.1 < b.1 || (a.1 == b.1 && ((a.0 && !b.0) || (!a.0 && !b.0 && a.2 > b.2)))
}

/// The order of edits, as a function value.
pub open spec fn edit_order() -> spec_fn(EditView, EditView) -> bool {
    |a: EditView, b: EditView| edit_lt(a, b)
}

/// The edits with each replacement that starts before the end of the last
/// replacement kept dropped; insertions are all kept.
pub open spec fn drop_overlaps(es: Seq<EditView>, last_end: int) -> Seq<EditView>
    decreases es.len(),
{
    if es.len() == 0 {
        Seq::empty()
    } else {
        let e = es[0];
        if e.0 {
            seq![e] + drop_overlaps(es.drop_first(), last_end)
        } else if e.1 >= last_end {
            seq![e] + drop_overlaps(es.drop_first(), e.2 as int)
        } else {
            drop_overlaps(es.drop_first(), last_end)
        }
    }
}

/// The source `b` rebuilt from byte `cur` on with the edits `es` applied in
/// order: the text up to each edit's start, then the edit's text; a
/// replacement resumes the source at its end.
pub open spec fn apply_edits(b: Seq<u8>, es: Seq<EditView>, cur: int) -> Seq<u8>
    decreases es.len(),
{
    if es.len() == 0 {
        b.subrange(cur, b.len() as int)
    } else {
        let e = es[0];
        let gap = if e.1 > cur {
            b.subrange(cur, e.1 as int)
        } else {
            Seq::empty()
        };
        let next = if e.0 {
            if e.1 > cur {
                e.1 as int
            } else {
                cur
            }
        } else {
            e.2 as int
        };
        gap + encode_utf8(e.4) + apply_edits(b, es.drop_first(), next)
    }
}

/// The (replaced text, new text) pairs of the replacements, in order.
pub open spec fn replaced_pairs(es: Seq<EditView>) -> Seq<(Seq<char>, Seq<char>)>
    decreases es.len(),
{
    if es.len() == 0 {
        Seq::empty()
    } else if es[0].0 {
        replaced_pairs(es.drop_first())
    } else {
        seq![(es[0].3, es[0].4)] + replaced_pairs(es.drop_first())
    }
}

/// The edits in the order they are applied, overlapping replacements dropped.
pub open spec fn ordered_edits(es: Seq<EditView>) -> Seq<EditView> {
    drop_overlaps(isort(es, edit_order()), 0)
}

/// A copy of an edit.
fn copy_action(a: &Action) -> (r: Action)
    ensures
        r@ == a@,
{
    match a {
        Action::Insert { pos, text } => Action::Insert { pos: *pos, text: text.clone() },
        Action::Replace { start, end, original, replacement } => Action::Replace {
            start: *start,
            end: *end,
            original: original.clone(),
            replacement: replacement.clone(),
        },
    }
}

impl Action {
    /// Where the edit starts.
    fn start(&self) -> (r: usize)
        ensures
            r == self@.1,
    {
        match self {
            Action::Insert { pos, .. } => *pos,
            Action::Replace { start, .. } => *start,
        }
    }
}

/// Does `a` go strictly before `b`?
fn edit_before(a: &Action, b: &Action) -> (r: bool)
    ensures
        r == edit_lt(a@, b@),
{
    match (a, b) {
        (Action::Insert { pos: pa, .. }, Action::Insert { pos: pb, .. }) => *pa < *pb,
        (Action::Insert { pos: pa, .. }, Action::Replace { start: sb, .. }) => *pa <= *sb,
        (Action::Replace { start: sa, .. }, Action::Insert { pos: pb, .. }) => *sa < *pb,
        (Action::Replace { start: sa, end: ea, .. }, Action::Replace { start: sb, end: eb, .. }) => *sa < *sb || (*sa
            == *sb && *ea > *eb),
    }
}

/// The edits sorted in the order they are applied (stable).
pub(crate) fn sort_edits(v: &Vec<Action>, Ghost(b): Ghost<Seq<u8>>) -> (r: Vec<Action>)
    requires
        forall|i: int| 0 <= i < v@.len() ==> edit_bounded(b, #[trigger] v@[i]@),
    ensures
        edit_views(r@) == isort(edit_views(v@), edit_order()),
        forall|i: int| 0 <= i < r@.len() ==> edit_bounded(b, #[trigger] r@[i]@),
{
    let ghost input = edit_views(v@);
    let mut r: Vec<Action> = Vec::new();
    let mut i: usize = 0;
    assert(input.take(0) =~= Seq::<EditView>::empty());
    assert(edit_views(r@) =~= Seq::<EditView>::empty());
    while i < v.len()
        invariant
            i <= v@.len(),
            input == edit_views(v@),
            edit_views(r@) == isort(input.take(i as int), edit_order()),
            forall|i: int| 0 <= i < v@.len() ==> edit_bounded(b, #[trigger] v@[i]@),
            forall|k: int| 0 <= k < r@.len() ==> edit_bounded(b, #[trigger] r@[k]@),
        decreases v@.len() - i,
    {
        let x = copy_action(&v[i]);
        let ghost sorted = edit_views(r@);
        let mut j: usize = 0;
        let mut found = false;
        while j < r.len() && !found
            invariant
                j <= r@.len(),
                sorted == edit_views(r@),
                x@ == input[i as int],
                forall|k: int| 0 <= k < j ==> !edit_lt(x@, #[trigger] sorted[k]),
                found ==> j < r@.len() && edit_lt(x@, sorted[j as int]),
            decreases r@.len() - j + (if found {
                0int
            } else {
                1int
            }),
        {
            if edit_before(&x, &r[j]) {
                found = true;
            } else {
                j = j + 1;
            }
        }
        proof {
            lemma_first_after_skip(sorted, x@, edit_order(), j as int);
            if j < r@.len() {
                assert(edit_order()(x@, sorted[j as int]));
                assert(first_after(sorted, x@, edit_order(), j as int) == j);
            } else {
                assert(first_after(sorted, x@, edit_order(), j as int) == j);
            }
            assert(input.take(i + 1).drop_last() =~= input.take(i as int));
            assert(input.take(i + 1).last() == x@);
        }
        let ghost prev = r@;
        r.insert(j, x);
        proof {
            assert(r@ == prev.insert(j as int, x));
            assert(edit_views(r@) =~= sorted.insert(j as int, x@));
            assert forall|k: int| 0 <= k < r@.len() implies edit_bounded(b, #[trigger] r@[k]@) by {
                if k < j {
                    assert(r@[k] == prev[k]);
                } else if k > j {
                    assert(r@[k] == prev[k - 1]);
                }
            }
        }
        i = i + 1;
    }
    assert(input.take(v@.len() as int) =~= input);
    r
}

/// The edits with the replacements that overlap an earlier one dropped.
pub(crate) fn drop_overlapping(v: Vec<Action>, Ghost(b): Ghost<Seq<u8>>) -> (r: Vec<Action>)
    requires
        forall|i: int| 0 <= i < v@.len() ==> edit_bounded(b, #[trigger] v@[i]@),
    ensures
        edit_views(r@) == drop_overlaps(edit_views(v@), 0),
        forall|i: int| 0 <= i < r@.len() ==> edit_bounded(b, #[trigger] r@[i]@),
{
    let ghost input = edit_views(v@);
    let mut r: Vec<Action> = Vec::new();
    let mut last_end: usize = 0;
    let mut i: usize = 0;
    assert(input.skip(0) =~= input);
    assert(edit_views(r@) =~= Seq::<EditView>::empty());
    while i < v.len()
        invariant
            i <= v@.len(),
            input == edit_views(v@),
            drop_overlaps(input, 0) == edit_views(r@) + drop_overlaps(input.skip(i as int), last_end as int),
            forall|i: int| 0 <= i < v@.len() ==> edit_bounded(b, #[trigger] v@[i]@),
            forall|k: int| 0 <= k < r@.len() ==> edit_bounded(b, #[trigger] r@[k]@),
        decreases v@.len() - i,
    {
        let ghost rest = input.skip(i as int);
        assert(rest[0] == v@[i as int]@);
        assert(rest.drop_first() =~= input.skip(i + 1));
        let ghost before = edit_views(r@);
        let keep = match &v[i] {
            Action::Insert { .. } => true,
            Action::Replace { start, end, .. } => {
                if *start >= last_end {
                    last_end = *end;
                    true
                } else {
                    false
                }
            },
        };
        if keep {
            let a = copy_action(&v[i]);
            r.push(a);
            assert(edit_views(r@) =~= before.push(a@));
            assert(before.push(a@) + drop_overlaps(input.skip(i + 1), last_end as int) =~= before + (seq![a@]
                + drop_overlaps(input.skip(i + 1), last_end as int)));
        }
        i = i + 1;
    }
    assert(input.skip(v@.len() as int) =~= Seq::<EditView>::empty());
    assert(edit_views(r@) + Seq::<EditView>::empty() =~= edit_views(r@));
    r
}

/// The text of `s` between the byte offsets `from` and `to`.
fn str_slice(s: &str, from: usize, to: usize) -> (r: &str)
    requires
        from <= to <= s.spec_bytes().len(),
        is_char_boundary(s.spec_bytes(), from as int),
        is_char_boundary(s.spec_bytes(), to as int),
    ensures
        r.spec_bytes() == s.spec_bytes().subrange(from as int, to as int),
{
    proof {
        vstd::utf8::encode_utf8_valid_utf8(s@);
        lemma_boundary_in_prefix(s.spec_bytes(), from as int, to as int);
    }
    let (head, _) = s.split_at(to);
    let (_, piece) = head.split_at(from);
    assert(piece.spec_bytes() =~= s.spec_bytes().subrange(from as int, to as int));
    piece
}

/// The source rebuilt with the edits applied, and the (replaced text, new
/// text) pairs of the replacements made.
pub(crate) fn apply(source: &str, edits: &Vec<Action>) -> (r: (String, Vec<(String, String)>))
    requires
        forall|i: int| 0 <= i < edits@.len() ==> edit_bounded(source.spec_bytes(), #[trigger] edits@[i]@),
    ensures
        encode_utf8(r.0@) == apply_edits(source.spec_bytes(), edit_views(edits@), 0),
        r.1.deep_view() == replaced_pairs(edit_views(edits@)),
{
    let ghost b = source.spec_bytes();
    let ghost es = edit_views(edits@);
    let mut content = String::new();
    let mut replacements: Vec<(String, String)> = Vec::new();
    let mut cur: usize = 0;
    let mut i: usize = 0;
    proof {
        vstd::utf8::encode_utf8_valid_utf8(source@);
        vstd::utf8::is_char_boundary_start_end_of_seq(b);
    }
    assert(es.skip(0) =~= es);
    assert(encode_utf8(content@) =~= Seq::<u8>::empty());
    assert(replacements.deep_view() =~= Seq::<(Seq<char>, Seq<char>)>::empty());
    while i < edits.len()
        invariant
            i <= edits@.len(),
            b == source.spec_bytes(),
            es == edit_views(edits@),
            valid_utf8(b),
            cur <= b.len(),
            is_char_boundary(b, cur as int),
            forall|i: int| 0 <= i < edits@.len() ==> edit_bounded(b, #[trigger] edits@[i]@),
            apply_edits(b, es, 0) == encode_utf8(content@) + apply_edits(b, es.skip(i as int), cur as int),
            replaced_pairs(es) == replacements.deep_view() + replaced_pairs(es.skip(i as int)),
        decreases edits@.len() - i,
    {
        let ghost rest = es.skip(i as int);
        let ghost before = content@;
        let ghost pairs_before = replacements.deep_view();
        assert(rest[0] == edits@[i as int]@);
        assert(rest.drop_first() =~= es.skip(i + 1));
        assert(edit_bounded(b, edits@[i as int]@));
        let ghost c0 = cur as int;
        let ghost e = rest[0];
        let ghost gap = if e.1 > c0 {
            b.subrange(c0, e.1 as int)
        } else {
            Seq::<u8>::empty()
        };
        if edits[i].start() > cur {
            let piece = str_slice(source, cur, edits[i].start());
            content.append(piece);
            proof {
                lemma_encode_concat(before, piece@);
            }
        } else {
            assert(encode_utf8(before) + gap =~= encode_utf8(before));
        }
        let ghost mid = content@;
        assert(encode_utf8(mid) == encode_utf8(before) + gap);
        match &edits[i] {
            Action::Insert { pos, text } => {
                if *pos > cur {
                    cur = *pos;
                }
                content.append(text.as_str());
                proof {
                    lemma_encode_concat(mid, text@);
                }
            },
            Action::Replace { start, end, original, replacement } => {
                content.append(replacement.as_str());
                cur = *end;
                replacements.push((original.clone(), replacement.clone()));
                proof {
                    lemma_encode_concat(mid, replacement@);
                    assert(replacements.deep_view() =~= pairs_before.push((original@, replacement@)));
                    assert(replaced_pairs(rest) == seq![(original@, replacement@)] + replaced_pairs(rest.drop_first()));
                    assert(pairs_before.push((original@, replacement@)) + replaced_pairs(rest.drop_first())
                        =~= pairs_before + (seq![(original@, replacement@)] + replaced_pairs(rest.drop_first())));
                }
            },
        }
        proof {
            assert(apply_edits(b, rest, c0) == gap + encode_utf8(e.4) + apply_edits(b, rest.drop_first(), cur as int));
            assert(encode_utf8(content@) == encode_utf8(before) + gap + encode_utf8(e.4));
            assert(encode_utf8(before) + apply_edits(b, rest, c0) =~= encode_utf8(content@) + apply_edits(
                b,
                rest.drop_first(),
                cur as int,
            ));
        }
        i = i + 1;
    }
    assert(es.skip(i as int) =~= Seq::<EditView>::empty());
    let n = source.as_bytes().len();
    let tail = str_slice(source, cur, n);
    let ghost before = content@;
    content.append(tail);
    proof {
        lemma_encode_concat(before, tail@);
        assert(apply_edits(b, es.skip(i as int), cur as int) == b.subrange(cur as int, b.len() as int));
    }
    (content, replacements)
}

/// Every replacement kept starts at or after `last_end` and after the end
/// of every replacement kept before it.
proof fn lemma_drop_overlaps_disjoint(es: Seq<EditView>, last_end: int)
    requires
        forall|k: int| 0 <= k < es.len() ==> (#[trigger] es[k]).1 <= es[k].2,
    ensures
        forall|i: int|
            0 <= i < drop_overlaps(es, last_end).len() && !(#[trigger] drop_overlaps(es, last_end)[i]).0 ==> last_end
                <= drop_overlaps(es, last_end)[i].1,
        forall|i: int, j: int|
            0 <= i < j < drop_overlaps(es, last_end).len() && !(#[trigger] drop_overlaps(es, last_end)[i]).0
                && !(#[trigger] drop_overlaps(es, last_end)[j]).0 ==> drop_overlaps(es, last_end)[i].2
                <= drop_overlaps(es, last_end)[j].1,
    decreases es.len(),
{
    if es.len() > 0 {
        let e = es[0];
        let rest = es.drop_first();
        assert forall|k: int| 0 <= k < rest.len() implies (#[trigger] rest[k]).1 <= rest[k].2 by {
            assert(rest[k] == es[k + 1]);
        }
        let r = drop_overlaps(es, last_end);
        if e.0 {
            lemma_drop_overlaps_disjoint(rest, last_end);
            let t = drop_overlaps(rest, last_end);
            assert(r == seq![e] + t);
            assert forall|i: int| 0 <= i < r.len() && !(#[trigger] r[i]).0 implies last_end <= r[i].1 by {
                assert(r[i] == t[i - 1]);
            }
            assert forall|i: int, j: int| 0 <= i < j < r.len() && !(#[trigger] r[i]).0 && !(#[trigger] r[j]).0 implies r[i].2
                <= r[j].1 by {
                assert(r[i] == t[i - 1]);
                assert(r[j] == t[j - 1]);
            }
        } else if e.1 >= last_end {
            assert(e.1 <= e.2);
            lemma_drop_overlaps_disjoint(rest, e.2 as int);
            let t = drop_overlaps(rest, e.2 as int);
            assert(r == seq![e] + t);
            assert forall|i: int| 0 <= i < r.len() && !(#[trigger] r[i]).0 implies last_end <= r[i].1 by {
                if i > 0 {
                    assert(r[i] == t[i - 1]);
                }
            }
            assert forall|i: int, j: int| 0 <= i < j < r.len() && !(#[trigger] r[i]).0 && !(#[trigger] r[j]).0 implies r[i].2
                <= r[j].1 by {
                assert(r[j] == t[j - 1]);
                if i > 0 {
                    assert(r[i] == t[i - 1]);
                }
            }
        } else {
            lemma_drop_overlaps_disjoint(rest, last_end);
            assert(r == drop_overlaps(rest, last_end));
        }
    }
}

/// No two replacements of a plan overlap: each replacement that comes
/// after another starts at or after the other's end.
pub proof fn law_replacements_disjoint(es: Seq<EditView>)
    requires
        forall|k: int| 0 <= k < es.len() ==> (#[trigger] es[k]).1 <= es[k].2,
    ensures
        forall|i: int, j: int|
            0 <= i < j < ordered_edits(es).len() && !(#[trigger] ordered_edits(es)[i]).0
                && !(#[trigger] ordered_edits(es)[j]).0 ==> ordered_edits(es)[i].2 <= ordered_edits(es)[j].1,
{
    let s = isort(es, edit_order());
    lemma_isort_members(es, edit_order());
    assert forall|k: int| 0 <= k < s.len() implies (#[trigger] s[k]).1 <= s[k].2 by {
        let m = choose|m: int| 0 <= m < es.len() && es[m] == s[k];
        assert(es[m].1 <= es[m].2);
    }
    lemma_drop_overlaps_disjoint(s, 0);
}

/// What `drop_overlaps` keeps comes from its input.
proof fn lemma_drop_overlaps_members(es: Seq<EditView>, last_end: int)
    ensures
        forall|k: int|
            0 <= k < drop_overlaps(es, last_end).len() ==> exists|m: int|
                0 <= m < es.len() && es[m] == #[trigger] drop_overlaps(es, last_end)[k],
    decreases es.len(),
{
    if es.len() > 0 {
        let e = es[0];
        let rest = es.drop_first();
        let next = if e.0 {
            last_end
        } else {
            e.2 as int
        };
        lemma_drop_overlaps_members(rest, next);
        lemma_drop_overlaps_members(rest, last_end);
        let r = drop_overlaps(es, last_end);
        assert forall|k: int| 0 <= k < r.len() implies exists|m: int| 0 <= m < es.len() && es[m] == #[trigger] r[k] by {
            if e.0 || e.1 >= last_end {
                let t = drop_overlaps(rest, next);
                assert(r == seq![e] + t);
                if k == 0 {
                    assert(es[0] == r[k]);
                } else {
                    assert(r[k] == t[k - 1]);
                    let m = choose|m: int| 0 <= m < rest.len() && rest[m] == #[trigger] t[k - 1];
                    assert(es[m + 1] == r[k]);
                }
            } else {
                let t = drop_overlaps(rest, last_end);
                assert(r == t);
                let m = choose|m: int| 0 <= m < rest.len() && rest[m] == #[trigger] t[k];
                assert(es[m + 1] == r[k]);
            }
        }
    }
}

/// The pairs of `replaced_pairs` come from the replacements of the edits.
proof fn lemma_replaced_pairs_members(es: Seq<EditView>)
    ensures
        forall|k: int|
            0 <= k < replaced_pairs(es).len() ==> exists|m: int|
                0 <= m < es.len() && !es[m].0 && (es[m].3, es[m].4) == #[trigger] replaced_pairs(es)[k],
    decreases es.len(),
{
    if es.len() > 0 {
        let rest = es.drop_first();
        lemma_replaced_pairs_members(rest);
        let r = replaced_pairs(es);
        let t = replaced_pairs(rest);
        assert forall|k: int| 0 <= k < r.len() implies exists|m: int|
            0 <= m < es.len() && !es[m].0 && (es[m].3, es[m].4) == #[trigger] r[k] by {
            if es[0].0 {
                assert(r[k] == t[k]);
                let m = choose|m: int| 0 <= m < rest.len() && !rest[m].0 && (rest[m].3, rest[m].4) == #[trigger] t[k];
                assert(es[m + 1] == rest[m]);
            } else if k == 0 {
                assert(r[0] == (es[0].3, es[0].4));
            } else {
                assert(r[k] == t[k - 1]);
                let m = choose|m: int| 0 <= m < rest.len() && !rest[m].0 && (rest[m].3, rest[m].4) == #[trigger] t[k - 1];
                assert(es[m + 1] == rest[m]);
            }
        }
    }
}

/// Each edit of the plan made from `es` is one of `es`.
pub proof fn lemma_ordered_edits_members(es: Seq<EditView>)
    ensures
        forall|k: int|
            0 <= k < ordered_edits(es).len() ==> exists|m: int| 0 <= m < es.len() && es[m] == #[trigger] ordered_edits(es)[k],
{
    let s = isort(es, edit_order());
    let d = ordered_edits(es);
    lemma_isort_members(es, edit_order());
    lemma_drop_overlaps_members(s, 0);
    assert forall|k: int| 0 <= k < d.len() implies exists|m: int| 0 <= m < es.len() && es[m] == #[trigger] d[k] by {
        let m2 = choose|m2: int| 0 <= m2 < s.len() && s[m2] == #[trigger] d[k];
        let m3 = choose|m3: int| 0 <= m3 < es.len() && es[m3] == #[trigger] s[m2];
        assert(es[m3] == d[k]);
    }
}

/// When each replacement among the edits changes the text, so does each
/// replacement of the plan made from them.
pub proof fn lemma_ordered_pairs_change(es: Seq<EditView>)
    requires
        forall|k: int| 0 <= k < es.len() ==> (#[trigger] es[k]).0 || es[k].3 != es[k].4,
    ensures
        forall|k: int|
            0 <= k < replaced_pairs(ordered_edits(es)).len() ==> (#[trigger] replaced_pairs(ordered_edits(es))[k]).0
                != replaced_pairs(ordered_edits(es))[k].1,
{
    let d = ordered_edits(es);
    lemma_ordered_edits_members(es);
    lemma_replaced_pairs_members(d);
    let r = replaced_pairs(d);
    assert forall|k: int| 0 <= k < r.len() implies (#[trigger] r[k]).0 != r[k].1 by {
        let m = choose|m: int| 0 <= m < d.len() && !d[m].0 && (d[m].3, d[m].4) == #[trigger] r[k];
        let m2 = choose|m2: int| 0 <= m2 < es.len() && es[m2] == #[trigger] d[m];
        assert(es[m2].0 || es[m2].3 != es[m2].4);
    }
}

} // verus!
