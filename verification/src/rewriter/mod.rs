//! Rewriting of a source file: qualified paths replaced by their short
//! forms and the needed `use` declarations inserted, module by module.
use vstd::prelude::*;
use vstd::slice::slice_subrange;
use vstd::string::StringSliceAdditionalSpecFns;
use vstd::utf8::{
    encode_utf8, encode_utf8_valid_utf8, is_char_boundary, is_char_boundary_start_end_of_seq, is_continuation_byte,
    valid_utf8,
};

use crate::text::{
    bytes_find_from, bytes_starts_with, chars_of, chars_trim_start, find_from, lemma_find_from_occurs,
    occurs_at, starts_with, string_of, trim_start,
};
use crate::options::Options;
use crate::parser::collector::{ModuleContext, ModuleView, module_views, path_views};
use crate::parser::path::{PathView, QualifiedPath};
use crate::parser::scope::{FileScope, ScopeView};
use crate::text::str_eq;

pub mod apply;
pub mod boundary;
pub mod naming;
pub mod plan;

use apply::{apply, apply_edits, drop_overlapping, ordered_edits, replaced_pairs, sort_edits};
use plan::{Action, EditView, all_edits, edit_bounded, edit_views, inserted_imports, plan_module};
use boundary::{
    lemma_occurrence_boundaries, lemma_piece_boundary, lemma_piece_valid, lemma_start_byte_boundary,
};

verus! {

/// The rewritten source and the replacements made, in source order, as
/// (original text, replacement text) pairs.
pub struct RewriteResult {
    pub content: String,
    pub replacements: Vec<(String, String)>,
}

/// Positions, in order, of the newline bytes from index `i` on.
pub open spec fn newlines_from(b: Seq<u8>, i: int) -> Seq<usize>
    decreases b.len() - i,
{
    if i < 0 || i >= b.len() {
        Seq::empty()
    } else if b[i] == 10u8 {
        seq![i as usize] + newlines_from(b, i + 1)
    } else {
        newlines_from(b, i + 1)
    }
}

/// `memchr::memchr_iter`: the positions of the newline bytes of `bytes`,
/// in increasing order (the crate's documentation: an iterator over all
/// occurrences of the needle in the haystack).
#[verifier::external_body]
fn newline_positions(bytes: &[u8]) -> (r: Vec<usize>)
    ensures
        r@ == newlines_from(bytes@, 0),
{
    memchr::memchr_iter(b'\n', bytes).collect()
}

/// The byte offsets at which the lines of `b` start: 0, and the index after each newline.
pub open spec fn line_offsets_spec(b: Seq<u8>) -> Seq<usize> {
    seq![0usize] + newlines_from(b, 0).map_values(|p: usize| (p + 1) as usize)
}

proof fn lemma_newlines_bound(b: Seq<u8>, i: int)
    requires
        0 <= i,
        b.len() <= usize::MAX,
    ensures
        forall|k: int| 0 <= k < newlines_from(b, i).len() ==> i <= #[trigger] newlines_from(b, i)[k] < b.len(),
    decreases b.len() - i,
{
    if i < b.len() {
        lemma_newlines_bound(b, i + 1);
        if b[i] == 10u8 {
            let r = newlines_from(b, i);
            assert forall|k: int| 0 <= k < r.len() implies i <= #[trigger] r[k] < b.len() by {
                if k > 0 {
                    assert(r[k] == newlines_from(b, i + 1)[k - 1]);
                }
            }
        }
    }
}

/// The byte offsets at which the lines of `source` start.
pub fn compute_line_offsets(source: &str) -> (r: Vec<usize>)
    ensures
        r@ == line_offsets_spec(source.spec_bytes()),
{
    let bytes = source.as_bytes();
    let nl = newline_positions(bytes);
    assert(bytes.len() == bytes@.len());
    proof {
        lemma_newlines_bound(bytes@, 0);
    }
    let mut offsets: Vec<usize> = Vec::new();
    offsets.push(0);
    let mut i: usize = 0;
    while i < nl.len()
        invariant
            i <= nl@.len(),
            nl@ == newlines_from(bytes@, 0),
            bytes@.len() <= usize::MAX,
            forall|k: int| 0 <= k < nl@.len() ==> #[trigger] nl@[k] < bytes@.len(),
            offsets@ == seq![0usize] + nl@.take(i as int).map_values(|p: usize| (p + 1) as usize),
        decreases nl@.len() - i,
    {
        assert(nl@[i as int] < bytes@.len());
        offsets.push(nl[i] + 1);
        i = i + 1;
        assert(offsets@ =~= seq![0usize] + nl@.take(i as int).map_values(|p: usize| (p + 1) as usize));
    }
    assert(nl@.take(nl@.len() as int) =~= nl@);
    offsets
}

/// Are the line offsets usable with `b`: within it, in order, and each at a
/// character boundary?
pub open spec fn offsets_wf(b: Seq<u8>, offsets: Seq<usize>) -> bool {
    &&& forall|i: int| 0 <= i < offsets.len() ==> #[trigger] offsets[i] <= b.len()
    &&& forall|i: int, j: int| 0 <= i <= j < offsets.len() ==> #[trigger] offsets[i] <= #[trigger] offsets[j]
    &&& forall|i: int| 0 <= i < offsets.len() ==> is_char_boundary(b, #[trigger] offsets[i] as int)
}

/// Byte index of the `n`-th character start (a byte that is not a UTF-8
/// continuation byte) at or after `i`, or the length when there is none.
pub open spec fn char_start_from(b: Seq<u8>, i: int, n: int) -> int
    decreases b.len() - i,
{
    if i < 0 || i >= b.len() {
        b.len() as int
    } else if is_continuation_byte(b[i]) {
        char_start_from(b, i + 1, n)
    } else if n <= 0 {
        i
    } else {
        char_start_from(b, i + 1, n - 1)
    }
}

/// Where, within the line `text`, the path `target` (or its form without
/// leading colons, `trimmed`) stands, searching from the column's byte
/// index `ss` first, then from the start of the line: (start, length).
pub open spec fn match_in_line(text: Seq<u8>, ss: int, target: Seq<u8>, trimmed: Seq<u8>) -> Option<(int, int)> {
    if starts_with(text.skip(ss), target) {
        Some((ss, target.len() as int))
    } else if starts_with(text.skip(ss), trimmed) {
        Some((ss, trimmed.len() as int))
    } else if find_from(text, target, ss) is Some {
        Some((find_from(text, target, ss)->0, target.len() as int))
    } else if find_from(text, trimmed, ss) is Some {
        Some((find_from(text, trimmed, ss)->0, trimmed.len() as int))
    } else if find_from(text, target, 0) is Some {
        Some((find_from(text, target, 0)->0, target.len() as int))
    } else if find_from(text, trimmed, 0) is Some {
        Some((find_from(text, trimmed, 0)->0, trimmed.len() as int))
    } else {
        None
    }
}

/// The byte range of the source that the path `q` occupies, found on the
/// line and from the column its span gives.
pub open spec fn locate_spec(b: Seq<u8>, offsets: Seq<usize>, q: PathView) -> Option<(int, int)> {
    let (line, col) = q.4;
    if line == 0 || line > offsets.len() {
        None
    } else {
        let ls = offsets[line - 1] as int;
        let le = if line < offsets.len() { offsets[line as int] as int } else { b.len() as int };
        let text = b.subrange(ls, le);
        let ss = char_start_from(text, 0, col as int);
        match match_in_line(text, ss, encode_utf8(q.0), encode_utf8(trim_start(q.0, ':'))) {
            Some((c, l)) => Some((ls + c, ls + c + l)),
            None => None,
        }
    }
}

proof fn lemma_char_start_range(b: Seq<u8>, i: int, n: int)
    requires
        0 <= i,
    ensures
        i <= char_start_from(b, i, n) <= b.len() || (i > b.len() && char_start_from(b, i, n) == b.len()),
    decreases b.len() - i,
{
    if i < b.len() {
        if is_continuation_byte(b[i]) {
            lemma_char_start_range(b, i + 1, n);
        } else if n > 0 {
            lemma_char_start_range(b, i + 1, n - 1);
        }
    }
}

/// Byte index of the `col`-th character of `text` (or its length).
fn char_start(text: &[u8], col: usize) -> (r: usize)
    ensures
        r == char_start_from(text@, 0, col as int),
        r <= text@.len(),
{
    let mut i: usize = 0;
    let mut n: usize = col;
    while i < text.len()
        invariant
            i <= text@.len(),
            char_start_from(text@, 0, col as int) == char_start_from(text@, i as int, n as int),
        decreases text@.len() - i,
    {
        let b = text[i];
        if 0x80u8 <= b && b <= 0xbfu8 {
            i = i + 1;
        } else if n == 0 {
            return i;
        } else {
            i = i + 1;
            n = n - 1;
        }
    }
    i
}

/// The bytes of the path's text and of its form without leading colons.
fn target_bytes(q: &QualifiedPath) -> (r: (Vec<u8>, Vec<u8>))
    ensures
        r.0@ == encode_utf8(q.original@),
        r.1@ == encode_utf8(trim_start(q.original@, ':')),
{
    let orig = q.original.as_str();
    let target = vstd::slice::slice_to_vec(orig.as_bytes());
    let oc = chars_of(orig);
    let tc = chars_trim_start(oc.as_slice(), ':');
    let ts = string_of(tc.as_slice());
    let trimmed = vstd::slice::slice_to_vec(ts.as_str().as_bytes());
    (target, trimmed)
}

/// Where, within the line `text`, the path stands: (start, length).
fn match_line(text: &[u8], ss: usize, target: &[u8], trimmed: &[u8]) -> (r: Option<(usize, usize)>)
    requires
        ss <= text@.len(),
    ensures
        r is Some <==> match_in_line(text@, ss as int, target@, trimmed@) is Some,
        r matches Some(p) ==> match_in_line(text@, ss as int, target@, trimmed@) == Some((p.0 as int, p.1 as int)),
        r matches Some(p) ==> p.0 + p.1 <= text@.len(),
        r matches Some(p) ==> (p.1 == 0 && p.0 == ss) || (p.1 > 0 && ((p.1 == target@.len()
            && occurs_at(text@, target@, p.0 as int)) || (p.1 == trimmed@.len() && occurs_at(
            text@,
            trimmed@,
            p.0 as int,
        )))),
{
    let rest = slice_subrange(text, ss, text.len());
    assert(rest@ =~= text@.skip(ss as int));
    proof {
        lemma_find_from_occurs(text@, target@, ss as int);
        lemma_find_from_occurs(text@, trimmed@, ss as int);
        lemma_find_from_occurs(text@, target@, 0);
        lemma_find_from_occurs(text@, trimmed@, 0);
    }
    if bytes_starts_with(rest, target) {
        assert(text@.subrange(ss as int, ss + target@.len()) =~= rest@.take(target@.len() as int));
        return Some((ss, target.len()));
    }
    assert(target@.len() > 0) by {
        if target@.len() == 0 {
            assert(rest@.take(0) =~= target@);
        }
    }
    if bytes_starts_with(rest, trimmed) {
        assert(text@.subrange(ss as int, ss + trimmed@.len()) =~= rest@.take(trimmed@.len() as int));
        return Some((ss, trimmed.len()));
    }
    assert(trimmed@.len() > 0) by {
        if trimmed@.len() == 0 {
            assert(rest@.take(0) =~= trimmed@);
        }
    }
    if let Some(p) = bytes_find_from(text, target, ss) {
        return Some((p, target.len()));
    }
    if let Some(p) = bytes_find_from(text, trimmed, ss) {
        return Some((p, trimmed.len()));
    }
    if let Some(p) = bytes_find_from(text, target, 0) {
        return Some((p, target.len()));
    }
    if let Some(p) = bytes_find_from(text, trimmed, 0) {
        return Some((p, trimmed.len()));
    }
    None
}

proof fn lemma_char_start_at_char(b: Seq<u8>, i: int, n: int)
    requires
        0 <= i,
    ensures
        char_start_from(b, i, n) == b.len() || (0 <= char_start_from(b, i, n) < b.len()
            && !is_continuation_byte(b[char_start_from(b, i, n)])),
    decreases b.len() - i,
{
    if i < b.len() {
        if is_continuation_byte(b[i]) {
            lemma_char_start_at_char(b, i + 1, n);
        } else if n > 0 {
            lemma_char_start_at_char(b, i + 1, n - 1);
        }
    }
}

/// The byte range of the source that the path `q` occupies.
pub(crate) fn locate(bytes: &[u8], offsets: &[usize], q: &QualifiedPath) -> (r: Option<(usize, usize)>)
    requires
        offsets_wf(bytes@, offsets@),
        valid_utf8(bytes@),
    ensures
        r is Some <==> locate_spec(bytes@, offsets@, q@) is Some,
        r matches Some(p) ==> locate_spec(bytes@, offsets@, q@) == Some((p.0 as int, p.1 as int)),
        r matches Some(p) ==> p.0 <= p.1 <= bytes@.len(),
        r matches Some(p) ==> is_char_boundary(bytes@, p.0 as int) && is_char_boundary(bytes@, p.1 as int),
{
    let line = q.span.line;
    let col = q.span.column;
    if line == 0 || line > offsets.len() {
        return None;
    }
    let ls = offsets[line - 1];
    let le = if line < offsets.len() { offsets[line] } else { bytes.len() };
    assert(ls <= le <= bytes@.len());
    proof {
        is_char_boundary_start_end_of_seq(bytes@);
    }
    let text = slice_subrange(bytes, ls, le);
    let ss = char_start(text, col);
    let (target, trimmed) = target_bytes(q);
    let m = match_line(text, ss, target.as_slice(), trimmed.as_slice());
    match m {
        Some((c, l)) => {
            proof {
                let t = text@;
                assert(t =~= bytes@.subrange(ls as int, le as int));
                lemma_piece_valid(bytes@, ls as int, le as int);
                if l == 0 {
                    lemma_char_start_range(t, 0, col as int);
                    lemma_char_start_at_char(t, 0, col as int);
                    lemma_start_byte_boundary(t, c as int);
                    lemma_start_byte_boundary(t, (c + l) as int);
                } else if l == target@.len() && occurs_at(t, target@, c as int) {
                    lemma_occurrence_boundaries(t, c as int, q.original@);
                } else {
                    lemma_occurrence_boundaries(t, c as int, trim_start(q.original@, ':'));
                }
                lemma_piece_boundary(bytes@, ls as int, le as int, c as int);
                lemma_piece_boundary(bytes@, ls as int, le as int, (c + l) as int);
            }
            Some((ls + c, ls + c + l))
        },
        None => None,
    }
}

/// Do the bytes `b[s..e]` spell the path `path`, or the path without its
/// leading colons?
pub open spec fn spells_path(b: Seq<u8>, s: int, e: int, path: Seq<char>) -> bool {
    b.subrange(s, e) == encode_utf8(path) || b.subrange(s, e) == encode_utf8(trim_start(path, ':'))
}

/// What `match_in_line` finds is an occurrence of the target or of its
/// trimmed form within the line.
proof fn lemma_match_in_line_text(text: Seq<u8>, ss: int, target: Seq<u8>, trimmed: Seq<u8>)
    requires
        0 <= ss <= text.len(),
    ensures
        match_in_line(text, ss, target, trimmed) matches Some((c, l)) ==> 0 <= c && c + l <= text.len() && (
        text.subrange(c, c + l) == target || text.subrange(c, c + l) == trimmed),
{
    lemma_find_from_occurs(text, target, ss);
    lemma_find_from_occurs(text, trimmed, ss);
    lemma_find_from_occurs(text, target, 0);
    lemma_find_from_occurs(text, trimmed, 0);
    if starts_with(text.skip(ss), target) {
        assert(text.subrange(ss, ss + target.len()) =~= text.skip(ss).take(target.len() as int));
    } else if starts_with(text.skip(ss), trimmed) {
        assert(text.subrange(ss, ss + trimmed.len()) =~= text.skip(ss).take(trimmed.len() as int));
    }
}

/// The byte range found for a path holds the path's text (or that text
/// without its leading colons).
pub proof fn lemma_locate_spec_text(b: Seq<u8>, offsets: Seq<usize>, q: PathView)
    requires
        offsets_wf(b, offsets),
    ensures
        locate_spec(b, offsets, q) matches Some((s, e)) ==> 0 <= s <= e <= b.len() && spells_path(b, s, e, q.0),
{
    let (line, col) = q.4;
    if !(line == 0 || line > offsets.len()) {
        let ls = offsets[line - 1] as int;
        let le = if line < offsets.len() {
            offsets[line as int] as int
        } else {
            b.len() as int
        };
        assert(ls <= le <= b.len());
        let text = b.subrange(ls, le);
        let ss = char_start_from(text, 0, col as int);
        lemma_char_start_range(text, 0, col as int);
        let target = encode_utf8(q.0);
        let trimmed = encode_utf8(trim_start(q.0, ':'));
        lemma_match_in_line_text(text, ss, target, trimmed);
        if let Some((c, l)) = match_in_line(text, ss, target, trimmed) {
            assert(b.subrange(ls + c, ls + c + l) =~= text.subrange(c, c + l));
        }
    }
}

proof fn lemma_newlines_increasing(b: Seq<u8>, i: int)
    requires
        0 <= i,
        b.len() <= usize::MAX,
    ensures
        forall|x: int, y: int| 0 <= x < y < newlines_from(b, i).len() ==> newlines_from(b, i)[x] < newlines_from(b, i)[y],
        forall|x: int| 0 <= x < newlines_from(b, i).len() ==> i <= newlines_from(b, i)[x] < b.len() && b[newlines_from(b, i)[x] as int] == 10u8,
    decreases b.len() - i,
{
    if i < b.len() {
        lemma_newlines_increasing(b, i + 1);
        let r = newlines_from(b, i);
        let t = newlines_from(b, i + 1);
        if b[i] == 10u8 {
            assert forall|x: int| 0 <= x < r.len() implies i <= r[x] < b.len() && b[r[x] as int] == 10u8 by {
                if x > 0 {
                    assert(r[x] == t[x - 1]);
                }
            }
            assert forall|x: int, y: int| 0 <= x < y < r.len() implies r[x] < r[y] by {
                assert(r[y] == t[y - 1]);
                if x > 0 {
                    assert(r[x] == t[x - 1]);
                }
            }
        }
    }
}

/// The line offsets of valid UTF-8 are usable with it.
pub proof fn lemma_line_offsets_wf(b: Seq<u8>)
    requires
        valid_utf8(b),
        b.len() <= usize::MAX,
    ensures
        offsets_wf(b, line_offsets_spec(b)),
{
    let nl = newlines_from(b, 0);
    let offs = line_offsets_spec(b);
    lemma_newlines_increasing(b, 0);
    is_char_boundary_start_end_of_seq(b);
    assert forall|i: int| 0 <= i < offs.len() implies #[trigger] offs[i] <= b.len() && is_char_boundary(b, offs[i] as int) by {
        if i > 0 {
            let p = nl[i - 1] as int;
            assert(offs[i] == p + 1);
            vstd::utf8::is_char_boundary_iff_not_is_continuation_byte(b, p);
            vstd::utf8::valid_utf8_split(b, p);
            let one = seq![10u8];
            assert(vstd::utf8::valid_utf8(one)) by {
                reveal_with_fuel(vstd::utf8::valid_utf8, 2);
                assert(vstd::utf8::pop_first_scalar(one) =~= Seq::<u8>::empty());
            }
            vstd::utf8::valid_utf8_concat(b.subrange(0, p), one);
            assert(b.subrange(0, p) + one =~= b.subrange(0, p + 1));
            boundary::lemma_valid_prefix_boundary(b, p + 1);
        }
    }
    assert forall|i: int, j: int| 0 <= i <= j < offs.len() implies #[trigger] offs[i] <= #[trigger] offs[j] by {
        if i > 0 && i < j {
            assert(nl[i - 1] < nl[j - 1]);
        }
    }
}

/// The plan of edits for the modules `ms` of the source `b`: the edits of
/// every module, in the order they are applied, overlapping replacements dropped.
pub open spec fn rewrite_plan(b: Seq<u8>, offsets: Seq<usize>, ms: Seq<ModuleView>) -> Seq<EditView> {
    ordered_edits(all_edits(b, offsets, ms))
}

/// Can the modules be planned in the source `b`: is each insertion point a
/// character boundary within it?
pub open spec fn modules_fit(b: Seq<u8>, ms: Seq<ModuleView>) -> bool {
    forall|i: int| 0 <= i < ms.len() ==> (#[trigger] ms[i]).0 <= b.len() && is_char_boundary(b, ms[i].0 as int)
}

/// Can the imports be inserted: is the insertion point of each module that
/// receives `use` declarations a character boundary within `b`?
pub open spec fn imports_fit(b: Seq<u8>, offsets: Seq<usize>, ms: Seq<ModuleView>) -> bool {
    forall|i: int|
        0 <= i < ms.len() && inserted_imports(b, offsets, #[trigger] ms[i]).len() > 0 ==> ms[i].0 <= b.len()
            && is_char_boundary(b, ms[i].0 as int)
}

/// Modules whose insertion points all fit leave their imports room.
pub proof fn lemma_modules_fit_imports(b: Seq<u8>, offsets: Seq<usize>, ms: Seq<ModuleView>)
    requires
        modules_fit(b, ms),
    ensures
        imports_fit(b, offsets, ms),
{
}

/// The result of rewriting `b` with the modules `ms`: `None` when the
/// edits leave the text as it was, else the new text's bytes and the
/// replacements made.
pub open spec fn rewrite_spec(b: Seq<u8>, offsets: Seq<usize>, ms: Seq<ModuleView>) -> Option<(Seq<u8>, Seq<(Seq<char>, Seq<char>)>)> {
    let plan = rewrite_plan(b, offsets, ms);
    let out = apply_edits(b, plan, 0);
    if out == b {
        None
    } else {
        Some((out, replaced_pairs(plan)))
    }
}

/// Does the result match `rewrite_spec`?
pub open spec fn rewrite_matches(r: Option<RewriteResult>, expected: Option<(Seq<u8>, Seq<(Seq<char>, Seq<char>)>)>) -> bool {
    match r {
        None => expected is None,
        Some(res) => expected == Some((encode_utf8(res.content@), res.replacements.deep_view())),
    }
}

/// Rewrites the qualified paths of the modules of `source` (the file's top
/// level and its inline modules) into their short forms and inserts the
/// `use` declarations they need; `None` when nothing changes.
pub fn rewrite_modules_with_offsets(
    source: &str,
    line_offsets: &[usize],
    modules: &[ModuleContext],
    _options: &Options,
) -> (r: Option<RewriteResult>)
    requires
        offsets_wf(source.spec_bytes(), line_offsets@),
        imports_fit(source.spec_bytes(), line_offsets@, module_views(modules@)),
    ensures
        rewrite_matches(r, rewrite_spec(source.spec_bytes(), line_offsets@, module_views(modules@))),
{
    let bytes = source.as_bytes();
    let ghost b = source.spec_bytes();
    let ghost ms = module_views(modules@);
    proof {
        encode_utf8_valid_utf8(source@);
    }
    let mut edits: Vec<Action> = Vec::new();
    let mut i: usize = 0;
    assert(edit_views(edits@) =~= Seq::<EditView>::empty());
    assert(ms.take(0) =~= Seq::<ModuleView>::empty());
    while i < modules.len()
        invariant
            i <= modules@.len(),
            b == bytes@,
            ms == module_views(modules@),
            valid_utf8(b),
            offsets_wf(b, line_offsets@),
            imports_fit(b, line_offsets@, ms),
            edit_views(edits@) == all_edits(b, line_offsets@, ms.take(i as int)),
            forall|k: int| 0 <= k < edits@.len() ==> edit_bounded(b, #[trigger] edits@[k]@),
        decreases modules@.len() - i,
    {
        let m = &modules[i];
        assert(ms[i as int] == m@);
        plan_module(bytes, line_offsets, m, &mut edits);
        assert(ms.take(i + 1).drop_last() =~= ms.take(i as int));
        assert(ms.take(i + 1).last() == m@);
        i = i + 1;
    }
    assert(ms.take(ms.len() as int) =~= ms);
    let ghost plan = rewrite_plan(b, line_offsets@, ms);
    if edits.len() == 0 {
        assert(plan =~= Seq::<EditView>::empty());
        assert(b.subrange(0, b.len() as int) =~= b);
        return None;
    }
    let sorted = sort_edits(&edits, Ghost(b));
    let kept = drop_overlapping(sorted, Ghost(b));
    let (content, replacements) = apply(source, &kept);
    proof {
        vstd::utf8::encode_utf8_decode_utf8(content@);
        vstd::utf8::encode_utf8_decode_utf8(source@);
    }
    if str_eq(content.as_str(), source) {
        return None;
    }
    Some(RewriteResult { content, replacements })
}

/// No replacement leaves a path as it was: in every (original, new) pair
/// of a rewrite, the new text differs from the text it replaces.
pub proof fn law_replacements_change_text(b: Seq<u8>, offsets: Seq<usize>, ms: Seq<ModuleView>)
    ensures
        rewrite_spec(b, offsets, ms) matches Some(r) ==> forall|k: int| 0 <= k < r.1.len() ==> (#[trigger] r.1[k]).0 != r.1[k].1,
{
    plan::lemma_all_edits_change(b, offsets, ms);
    apply::lemma_ordered_pairs_change(all_edits(b, offsets, ms));
}

/// A rewrite replaces only the text of paths: every replacement of the
/// plan covers bytes of the source that spell the path it reports as
/// replaced (or that path without its leading colons).
pub proof fn law_replacements_replace_path_text(b: Seq<u8>, offsets: Seq<usize>, ms: Seq<ModuleView>)
    requires
        offsets_wf(b, offsets),
        b.len() <= usize::MAX,
    ensures
        forall|k: int|
            0 <= k < rewrite_plan(b, offsets, ms).len() && !(#[trigger] rewrite_plan(b, offsets, ms)[k]).0
                ==> spells_path(
                b,
                rewrite_plan(b, offsets, ms)[k].1 as int,
                rewrite_plan(b, offsets, ms)[k].2 as int,
                rewrite_plan(b, offsets, ms)[k].3,
            ),
{
    let es = all_edits(b, offsets, ms);
    let plan = rewrite_plan(b, offsets, ms);
    plan::lemma_all_edits_text(b, offsets, ms);
    apply::lemma_ordered_edits_members(es);
    assert forall|k: int| 0 <= k < plan.len() && !(#[trigger] plan[k]).0 implies spells_path(
        b,
        plan[k].1 as int,
        plan[k].2 as int,
        plan[k].3,
    ) by {
        let m = choose|m: int| 0 <= m < es.len() && es[m] == #[trigger] plan[k];
        assert(es[m].0 || spells_path(b, es[m].1 as int, es[m].2 as int, es[m].3));
    }
}

/// The module that stands for a whole file: its insertion point, no
/// indentation, its scope and its paths.
pub open spec fn root_module(insert_pos: usize, scope: ScopeView, paths: Seq<PathView>) -> ModuleView {
    (insert_pos, Seq::empty(), scope.1.len() > 0, scope, paths)
}

/// Rewrites the qualified paths of `source`, taken as one module, with
/// the line offsets already computed.
pub fn rewrite_source_with_offsets(
    source: &str,
    line_offsets: &[usize],
    paths: &[QualifiedPath],
    insert_pos: usize,
    scope: &FileScope,
    options: &Options,
) -> (r: Option<RewriteResult>)
    requires
        offsets_wf(source.spec_bytes(), line_offsets@),
        inserted_imports(source.spec_bytes(), line_offsets@, root_module(insert_pos, scope@, path_views(paths@))).len()
            > 0 ==> insert_pos <= source.spec_bytes().len() && is_char_boundary(source.spec_bytes(), insert_pos as int),
    ensures
        rewrite_matches(
            r,
            rewrite_spec(source.spec_bytes(), line_offsets@, seq![root_module(insert_pos, scope@, path_views(paths@))]),
        ),
{
    let mut copied: Vec<QualifiedPath> = Vec::new();
    let mut i: usize = 0;
    while i < paths.len()
        invariant
            i <= paths@.len(),
            path_views(copied@) == path_views(paths@).take(i as int),
        decreases paths@.len() - i,
    {
        let q = paths[i].duplicate();
        let ghost prev = copied@;
        copied.push(q);
        assert(path_views(copied@) =~= path_views(prev).push(q@));
        assert(path_views(paths@).take(i + 1) =~= path_views(paths@).take(i as int).push(paths@[i as int]@));
        i = i + 1;
    }
    assert(path_views(paths@).take(paths@.len() as int) =~= path_views(paths@));
    let root = ModuleContext {
        insert_pos,
        indent: String::new(),
        has_existing_use: scope.existing_use_paths.len() > 0,
        scope: scope.duplicate(),
        paths: copied,
    };
    let modules = vec![root];
    proof {
        assert(module_views(modules@) =~= seq![root_module(insert_pos, scope@, path_views(paths@))]);
    }
    rewrite_modules_with_offsets(source, line_offsets, modules.as_slice(), options)
}

/// Rewrites the qualified paths of `source`, taken as one module.
pub fn rewrite_source(
    source: &str,
    paths: &[QualifiedPath],
    insert_pos: usize,
    scope: &FileScope,
    options: &Options,
) -> (r: Option<RewriteResult>)
    requires
        inserted_imports(
            source.spec_bytes(),
            line_offsets_spec(source.spec_bytes()),
            root_module(insert_pos, scope@, path_views(paths@)),
        ).len() > 0 ==> insert_pos <= source.spec_bytes().len() && is_char_boundary(
            source.spec_bytes(),
            insert_pos as int,
        ),
    ensures
        rewrite_matches(
            r,
            rewrite_spec(
                source.spec_bytes(),
                line_offsets_spec(source.spec_bytes()),
                seq![root_module(insert_pos, scope@, path_views(paths@))],
            ),
        ),
{
    let line_offsets = compute_line_offsets(source);
    let bytes = source.as_bytes();
    let n = bytes.len();
    proof {
        encode_utf8_valid_utf8(source@);
        assert(bytes@.len() == n);
        lemma_line_offsets_wf(source.spec_bytes());
    }
    rewrite_source_with_offsets(source, line_offsets.as_slice(), paths, insert_pos, scope, options)
}

} // verus!
