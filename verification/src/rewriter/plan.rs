//! Planning the edits of one module: for each qualified path, the text that
//! replaces it and the `use` declaration it needs, with the fallbacks taken
//! when the short name would clash with a name already in scope.
use vstd::prelude::*;

use crate::parser::collector::{ModuleContext, ModuleView, path_views};
use crate::rewriter::{lemma_locate_spec_text, locate, locate_spec, offsets_wf, spells_path};
use crate::sort::{
    isort, lemma_isort_len, lemma_isort_multiset, lemma_isort_sorted, lemma_lex_strict_total, lex_order, sort_strings,
    sorted_by,
};
use vstd::utf8::{is_char_boundary, valid_utf8};
use crate::parser::path::{PathView, QualifiedPath, core_ident_of};
use crate::parser::scope::{FileScope, ScopeView, concat_chars};
use crate::rewriter::naming::{alias_candidates_spec, generate_alias_candidates};
use crate::sets::{
    has_str, has_text, insert_text, map_get, map_has, map_insert, map_lookup, map_store, set_insert,
};
use crate::text::{
    chars_count_pieces, chars_eq, chars_find_from, chars_first_piece, chars_of, chars_slice,
    chars_starts_with, chars_trim_start, colons, contains_sub, first_piece, join, join_range,
    last_piece, split_pieces, starts_with, str_eq, string_of, trim_start,
};

verus! {

/// An edit of the source: text inserted at a byte offset, or a byte range
/// replaced.
pub enum Action {
    Insert { pos: usize, text: String },
    Replace { start: usize, end: usize, original: String, replacement: String },
}

/// The abstract value of an edit: (is it an insertion, start, end, text
/// replaced, new text).  An insertion starts and ends at its position and
/// replaces nothing.
pub type EditView = (bool, usize, usize, Seq<char>, Seq<char>);

impl View for Action {
    type V = EditView;

    open spec fn view(&self) -> EditView {
        match self {
            Action::Insert { pos, text } => (true, *pos, *pos, Seq::empty(), text@),
            Action::Replace { start, end, original, replacement } => (
                false,
                *start,
                *end,
                original@,
                replacement@,
            ),
        }
    }
}

pub open spec fn edit_views(v: Seq<Action>) -> Seq<EditView> {
    v.map_values(|a: Action| a@)
}

/// What planning a module has gathered so far: the imports it needs, the
/// names those bring into scope, the aliases chosen (import, alias) and the
/// edits.
pub type PlanState = (Seq<Seq<char>>, Seq<Seq<char>>, Seq<(Seq<char>, Seq<char>)>, Seq<EditView>);

pub open spec fn empty_plan() -> PlanState {
    (Seq::empty(), Seq::empty(), Seq::empty(), Seq::empty())
}

/// Is `x` a name of the module's scope, or one that a planned import brings in?
pub open spec fn in_scope(sc: ScopeView, fresh: Seq<Seq<char>>, x: Seq<char>) -> bool {
    sc.0.contains(x) || fresh.contains(x)
}

/// The replacement with its leading `tail` (the import's last name) put
/// under the name `alias`: `alias` alone when nothing follows the tail.
pub open spec fn with_alias(repl: Seq<char>, tail: Seq<char>, alias: Seq<char>) -> Seq<char> {
    if starts_with(repl, tail) && repl.len() > tail.len() {
        alias + repl.skip(tail.len() as int)
    } else {
        alias
    }
}

/// Writing a path under an alias swaps only the import's last name: when
/// the replacement starts with that name (`Mutex` in `Mutex::new`), the new
/// text is the alias followed by the same rest (`AsyncLockMutex::new`); a
/// replacement that is just that name becomes the alias alone.
pub proof fn law_alias_keeps_the_rest(repl: Seq<char>, tail: Seq<char>, alias: Seq<char>)
    requires
        starts_with(repl, tail),
    ensures
        starts_with(with_alias(repl, tail, alias), alias),
        with_alias(repl, tail, alias).skip(alias.len() as int) == repl.skip(tail.len() as int),
{
    let r = with_alias(repl, tail, alias);
    if repl.len() > tail.len() {
        assert(r.take(alias.len() as int) =~= alias);
        assert(r.skip(alias.len() as int) =~= repl.skip(tail.len() as int));
    } else {
        assert(r.take(alias.len() as int) =~= alias);
        assert(r.skip(alias.len() as int) =~= Seq::<char>::empty());
        assert(repl.skip(tail.len() as int) =~= Seq::<char>::empty());
    }
}

/// The import of `import` under the name `alias`: `import as alias`.
pub open spec fn as_clause(import: Seq<char>, alias: Seq<char>) -> Seq<char> {
    import + " as "@ + alias
}

/// Do two paths of the module whose type name is `t` come from different imports?
pub open spec fn conflicting(ps: Seq<PathView>, t: Seq<char>) -> bool {
    exists|i: int, j: int|
        0 <= i < ps.len() && 0 <= j < ps.len() && #[trigger] core_ident_of(ps[i].3) == t
            && #[trigger] core_ident_of(ps[j].3) == t && ps[i].2 != ps[j].2
}

/// The first candidate that names nothing in scope.
pub open spec fn first_free(cands: Seq<Seq<char>>, sc: ScopeView, fresh: Seq<Seq<char>>) -> Option<Seq<char>>
    decreases cands.len(),
{
    if cands.len() == 0 {
        None
    } else if !in_scope(sc, fresh, cands[0]) {
        Some(cands[0])
    } else {
        first_free(cands.drop_first(), sc, fresh)
    }
}

/// The alias chosen for `import`: its first candidate not yet in scope.
pub open spec fn pick_alias_spec(import: Seq<char>, sc: ScopeView, fresh: Seq<Seq<char>>) -> Option<Seq<char>> {
    first_free(alias_candidates_spec(import), sc, fresh)
}

/// Adds the edit replacing the path by `repl`, unless `repl` reads as the path already.
pub open spec fn finish_step(st: PlanState, q: PathView, loc: (int, int), repl: Seq<char>) -> PlanState {
    if repl == q.0 || repl == trim_start(q.0, ':') {
        st
    } else {
        (st.0, st.1, st.2, st.3.push((false, loc.0 as usize, loc.1 as usize, q.0, repl)))
    }
}

/// The fallback importing the path's parent module (`use std::io;` and
/// `io::Error`) when the import has at least three segments: the
/// replacement, the import and the module's name.
pub open spec fn parent_fallback(q: PathView) -> Option<(Seq<char>, Seq<char>, Seq<char>)> {
    let n = split_pieces(q.2, colons()).len() as int;
    let segs = q.3;
    if n >= 3 && n - 2 < segs.len() && segs[n - 2] != "crate"@ {
        let ci = join(segs.take(n - 1), colons());
        if ci != "crate"@ {
            Some((join(segs.skip(n - 2), colons()), ci, segs[n - 2]))
        } else {
            None
        }
    } else {
        None
    }
}

/// A path whose import is already imported under an alias (by the module
/// or earlier in this plan) is written with that alias.
pub open spec fn alias_step(st: PlanState, sc: ScopeView, q: PathView, loc: (int, int), alias: Seq<char>) -> PlanState {
    let r = with_alias(q.1, last_piece(q.2, colons()), alias);
    if r != q.0 && r != trim_start(q.0, ':') {
        let ai = as_clause(q.2, alias);
        let st2 = if !sc.1.contains(ai) && !sc.1.contains("super::*"@) && !st.0.contains(ai) {
            (set_insert(st.0, ai), set_insert(st.1, alias), st.2, st.3)
        } else {
            st
        };
        finish_step(st2, q, loc, r)
    } else {
        st
    }
}

/// The short name clashes: import the parent module if its name is free
/// (or it is imported already), else import the path under a free alias,
/// else leave the path as it is.
pub open spec fn fallback_step(st: PlanState, sc: ScopeView, q: PathView, loc: (int, int)) -> PlanState {
    let (needed, fresh, aliased, edits) = st;
    let imp = q.2;
    let parent = parent_fallback(q);
    let (r1, ci, ct) = match parent {
        Some(p) => p,
        None => (Seq::empty(), Seq::empty(), Seq::empty()),
    };
    if parent is Some && (sc.1.contains(ci) || needed.contains(ci) || !in_scope(sc, fresh, ct)) {
        let st2 = if sc.1.contains(ci) || needed.contains(ci) {
            st
        } else {
            (set_insert(needed, ci), set_insert(fresh, ct), aliased, edits)
        };
        finish_step(st2, q, loc, r1)
    } else {
        match pick_alias_spec(imp, sc, fresh) {
            Some(alias) => {
                let ai = as_clause(imp, alias);
                let already = map_get(sc.2, imp) == Some(alias) || needed.contains(ai);
                let (n2, f2) = if already {
                    (needed, fresh)
                } else {
                    (set_insert(needed, ai), set_insert(fresh, alias))
                };
                finish_step(
                    (n2, f2, map_insert(aliased, imp, alias), edits),
                    q,
                    loc,
                    with_alias(q.1, last_piece(imp, colons()), alias),
                )
            },
            None => st,
        }
    }
}

/// The plan after the path `q`, found at the byte range `loc`, of a module
/// with scope `sc` and paths `all`.
pub open spec fn located_step(st: PlanState, sc: ScopeView, all: Seq<PathView>, q: PathView, loc: (int, int)) -> PlanState {
    let (needed, fresh, aliased, edits) = st;
    let imp = q.2;
    let repl = q.1;
    let first = first_piece(repl, colons());
    let known = if map_has(aliased, imp) {
        map_get(aliased, imp)
    } else {
        map_get(sc.2, imp)
    };
    if known is Some {
        alias_step(st, sc, q, loc, known->0)
    } else if conflicting(all, first) || (!contains_sub(repl, colons()) && conflicting(all, core_ident_of(q.3))) || (
    !sc.1.contains(imp) && !needed.contains(imp) && in_scope(sc, fresh, first)) {
        fallback_step(st, sc, q, loc)
    } else if !sc.1.contains(imp) && !needed.contains(imp) {
        if imp == "crate"@ {
            st
        } else {
            finish_step(
                (set_insert(needed, imp), set_insert(fresh, last_piece(imp, colons())), aliased, edits),
                q,
                loc,
                repl,
            )
        }
    } else {
        finish_step(st, q, loc, repl)
    }
}

/// The plan after the path `q`; a path that cannot be found in the source is left alone.
pub open spec fn path_step(st: PlanState, sc: ScopeView, all: Seq<PathView>, q: PathView, loc: Option<(int, int)>) -> PlanState {
    match loc {
        Some(l) => located_step(st, sc, all, q, l),
        None => st,
    }
}

/// The replacement with its leading `tail` put under the name `alias`.
fn alias_replacement(repl: &[char], tail: &[char], alias: &[char]) -> (r: Vec<char>)
    ensures
        r@ == with_alias(repl@, tail@, alias@),
{
    if chars_starts_with(repl, tail) && repl.len() > tail.len() {
        let rest = chars_slice(repl, tail.len(), repl.len());
        assert(rest@ =~= repl@.skip(tail@.len() as int));
        concat_chars(alias, rest.as_slice())
    } else {
        chars_slice(alias, 0, alias.len())
    }
}

/// `import as alias`.
fn as_import(import: &[char], alias: &[char]) -> (r: Vec<char>)
    ensures
        r@ == as_clause(import@, alias@),
{
    let kw = chars_of(" as ");
    let head = concat_chars(import, kw.as_slice());
    concat_chars(head.as_slice(), alias)
}

/// Is `x` in scope, or brought in by a planned import?
fn is_in_scope(scope: &FileScope, fresh: &Vec<String>, x: &[char]) -> (r: bool)
    ensures
        r == in_scope(scope@, fresh.deep_view(), x@),
{
    has_text(&scope.in_scope_idents, x) || has_text(fresh, x)
}

/// The first alias proposed for `import` that names nothing in scope.
fn pick_available_alias(import: &str, scope: &FileScope, new_in_scope: &Vec<String>) -> (r: Option<String>)
    ensures
        r is Some <==> pick_alias_spec(import@, scope@, new_in_scope.deep_view()) is Some,
        r matches Some(a) ==> pick_alias_spec(import@, scope@, new_in_scope.deep_view()) == Some(a@),
{
    let candidates = generate_alias_candidates(import);
    let ghost cs = candidates.deep_view();
    let mut i: usize = 0;
    assert(cs.skip(0) =~= cs);
    while i < candidates.len()
        invariant
            i <= cs.len(),
            cs == candidates.deep_view(),
            cs == alias_candidates_spec(import@),
            first_free(cs, scope@, new_in_scope.deep_view()) == first_free(cs.skip(i as int), scope@, new_in_scope.deep_view()),
        decreases cs.len() - i,
    {
        let c = chars_of(candidates[i].as_str());
        assert(cs.skip(i as int)[0] == c@);
        if !is_in_scope(scope, new_in_scope, c.as_slice()) {
            return Some(candidates[i].clone());
        }
        assert(cs.skip(i as int).drop_first() =~= cs.skip(i + 1));
        i = i + 1;
    }
    None
}

/// The type names of the module's paths that come from more than one import.
fn conflicting_tails(paths: &Vec<QualifiedPath>) -> (r: Vec<String>)
    ensures
        forall|t: Seq<char>| #[trigger] r.deep_view().contains(t) <==> conflicting(path_views(paths@), t),
{
    let ghost ps = path_views(paths@);
    let mut first: Vec<(String, String)> = Vec::new();
    let mut conflicts: Vec<String> = Vec::new();
    let mut k: usize = 0;
    while k < paths.len()
        invariant
            k <= paths@.len(),
            ps == path_views(paths@),
            forall|t: Seq<char>| #[trigger] map_has(first.deep_view(), t) ==> exists|i: int|
                0 <= i < k && core_ident_of(ps[i].3) == t && Some(ps[i].2) == map_get(first.deep_view(), t),
            forall|t: Seq<char>, i: int| 0 <= i < k && #[trigger] core_ident_of(ps[i].3) == t ==> #[trigger] map_has(first.deep_view(), t),
            forall|t: Seq<char>| #[trigger] conflicts.deep_view().contains(t) <==> conflicting(ps.take(k as int), t),
        decreases paths@.len() - k,
    {
        let q = &paths[k];
        let t = chars_of(q.core_ident());
        let imp = chars_of(q.import.as_str());
        assert(ps[k as int] == q@);
        let ghost old_first = first.deep_view();
        let ghost old_conf = conflicts.deep_view();
        let ghost pre = ps.take(k as int);
        let ghost post = ps.take(k + 1);
        assert(post =~= pre.push(q@));
        match map_lookup(&first, t.as_slice()) {
            None => {
                map_store(&mut first, t.as_slice(), imp.as_slice());
                proof {
                    assert forall|t2: Seq<char>| #[trigger] map_has(first.deep_view(), t2) implies exists|i: int|
                        0 <= i < k + 1 && core_ident_of(ps[i].3) == t2 && Some(ps[i].2) == map_get(first.deep_view(), t2) by {
                        crate::sets::lemma_map_insert_get(old_first, t@, imp@, t2);
                        if t2 != t@ {
                            assert(map_has(old_first, t2));
                        } else {
                            assert(core_ident_of(ps[k as int].3) == t2);
                        }
                    }
                    assert forall|t2: Seq<char>, i: int| 0 <= i < k + 1 && #[trigger] core_ident_of(ps[i].3) == t2 implies #[trigger] map_has(first.deep_view(), t2) by {
                        crate::sets::lemma_map_insert_get(old_first, t@, imp@, t2);
                        if i < k {
                            assert(map_has(old_first, t2));
                        }
                    }
                    assert forall|t2: Seq<char>| #[trigger] conflicts.deep_view().contains(t2) <==> conflicting(post, t2) by {
                        if conflicting(post, t2) {
                            let (i, j) = choose|i: int, j: int|
                                0 <= i < post.len() && 0 <= j < post.len() && #[trigger] core_ident_of(post[i].3) == t2
                                    && #[trigger] core_ident_of(post[j].3) == t2 && post[i].2 != post[j].2;
                            if i == k || j == k {
                                let o = if i == k { j } else { i };
                                if o != k {
                                    assert(core_ident_of(ps[o].3) == t@);
                                    assert(map_has(old_first, t@));
                                }
                            } else {
                                assert(core_ident_of(pre[i].3) == t2);
                                assert(core_ident_of(pre[j].3) == t2);
                                assert(conflicting(pre, t2));
                            }
                        }
                        if conflicting(pre, t2) {
                            let (i, j) = choose|i: int, j: int|
                                0 <= i < pre.len() && 0 <= j < pre.len() && #[trigger] core_ident_of(pre[i].3) == t2
                                    && #[trigger] core_ident_of(pre[j].3) == t2 && pre[i].2 != pre[j].2;
                            assert(core_ident_of(post[i].3) == t2);
                            assert(core_ident_of(post[j].3) == t2);
                        }
                    }
                }
            },
            Some(f) => {
                let fc = chars_of(f.as_str());
                if !chars_eq(fc.as_slice(), imp.as_slice()) {
                    insert_text(&mut conflicts, t.as_slice());
                }
                proof {
                    assert(map_has(old_first, t@));
                    let i0 = choose|i: int| 0 <= i < k && core_ident_of(ps[i].3) == t@ && Some(ps[i].2) == map_get(old_first, t@);
                    assert forall|t2: Seq<char>| #[trigger] conflicts.deep_view().contains(t2) <==> conflicting(post, t2) by {
                        crate::sets::lemma_set_insert_contains(old_conf, t@, t2);
                        if conflicting(post, t2) {
                            let (i, j) = choose|i: int, j: int|
                                0 <= i < post.len() && 0 <= j < post.len() && #[trigger] core_ident_of(post[i].3) == t2
                                    && #[trigger] core_ident_of(post[j].3) == t2 && post[i].2 != post[j].2;
                            if i == k || j == k {
                                let o = if i == k { j } else { i };
                                if f@ == imp@ {
                                    assert(core_ident_of(pre[i0].3) == t2);
                                    assert(core_ident_of(pre[o].3) == t2);
                                    assert(conflicting(pre, t2));
                                }
                            } else {
                                assert(core_ident_of(pre[i].3) == t2);
                                assert(core_ident_of(pre[j].3) == t2);
                                assert(conflicting(pre, t2));
                            }
                        }
                        if conflicting(pre, t2) {
                            let (i, j) = choose|i: int, j: int|
                                0 <= i < pre.len() && 0 <= j < pre.len() && #[trigger] core_ident_of(pre[i].3) == t2
                                    && #[trigger] core_ident_of(pre[j].3) == t2 && pre[i].2 != pre[j].2;
                            assert(core_ident_of(post[i].3) == t2);
                            assert(core_ident_of(post[j].3) == t2);
                        }
                        if f@ != imp@ && t2 == t@ {
                            assert(core_ident_of(post[i0].3) == t2);
                            assert(core_ident_of(post[k as int].3) == t2);
                        }
                    }
                }
            },
        }
        k = k + 1;
    }
    assert(ps.take(paths@.len() as int) =~= ps);
    conflicts
}

/// The planning of one module under way.
struct Planner {
    needed: Vec<String>,
    fresh: Vec<String>,
    aliased: Vec<(String, String)>,
    edits: Vec<Action>,
}

impl View for Planner {
    type V = PlanState;

    closed spec fn view(&self) -> PlanState {
        (self.needed.deep_view(), self.fresh.deep_view(), self.aliased.deep_view(), edit_views(self.edits@))
    }
}

impl Planner {
    fn new() -> (p: Planner)
        ensures
            p@ == empty_plan(),
    {
        let p = Planner { needed: Vec::new(), fresh: Vec::new(), aliased: Vec::new(), edits: Vec::new() };
        assert(p.needed.deep_view() =~= Seq::<Seq<char>>::empty());
        assert(p.fresh.deep_view() =~= Seq::<Seq<char>>::empty());
        assert(p.aliased.deep_view() =~= Seq::<(Seq<char>, Seq<char>)>::empty());
        assert(edit_views(p.edits@) =~= Seq::<EditView>::empty());
        p
    }

    /// Adds the edit replacing the path by `repl`, unless `repl` reads as the path already.
    fn finish(&mut self, q: &QualifiedPath, loc: (usize, usize), repl: &[char], orig: &[char], trimmed: &[char])
        requires
            orig@ == q.original@,
            trimmed@ == trim_start(q.original@, ':'),
        ensures
            final(self)@ == finish_step(old(self)@, q@, (loc.0 as int, loc.1 as int), repl@),
    {
        if chars_eq(repl, orig) || chars_eq(repl, trimmed) {
            return;
        }
        let ghost prev = self.edits@;
        let a = Action::Replace { start: loc.0, end: loc.1, original: q.original.clone(), replacement: string_of(repl) };
        self.edits.push(a);
        assert(edit_views(self.edits@) =~= edit_views(prev).push((false, loc.0, loc.1, q.original@, repl@)));
    }

    /// The short name clashes: the parent module, or an alias, or nothing.
    fn fallback(
        &mut self,
        scope: &FileScope,
        q: &QualifiedPath,
        loc: (usize, usize),
        imp: &[char],
        repl: &[char],
        tail: &[char],
        orig: &[char],
        trimmed: &[char],
    )
        requires
            imp@ == q.import@,
            repl@ == q.replacement@,
            tail@ == last_piece(q.import@, colons()),
            orig@ == q.original@,
            trimmed@ == trim_start(q.original@, ':'),
        ensures
            final(self)@ == fallback_step(old(self)@, scope@, q@, (loc.0 as int, loc.1 as int)),
    {
        let sep = chars_of("::");
        proof {
            reveal_strlit("::");
            assert(sep@ =~= colons());
        }
        let n = chars_count_pieces(imp, sep.as_slice());
        let segs = &q.segments;
        let ghost sv = segs.deep_view();
        if n >= 3 && n - 2 < segs.len() && !str_eq(segs[n - 2].as_str(), "crate") {
            let ci_s = join_range(segs, 0, n - 1, "::");
            assert(sv.subrange(0, n - 1) =~= sv.take(n - 1));
            assert(sv[n - 2] == segs@[n - 2]@);
            if !str_eq(ci_s.as_str(), "crate") {
                let ci = chars_of(ci_s.as_str());
                let ct = chars_of(segs[n - 2].as_str());
                let already = has_text(&scope.existing_use_paths, ci.as_slice()) || has_text(&self.needed, ci.as_slice());
                if already || !is_in_scope(scope, &self.fresh, ct.as_slice()) {
                    let r1 = join_range(segs, n - 2, segs.len(), "::");
                    assert(sv.subrange(n - 2, sv.len() as int) =~= sv.skip(n - 2));
                    let r1c = chars_of(r1.as_str());
                    if !already {
                        insert_text(&mut self.needed, ci.as_slice());
                        insert_text(&mut self.fresh, ct.as_slice());
                    }
                    self.finish(q, loc, r1c.as_slice(), orig, trimmed);
                    return;
                }
            }
        }
        match pick_available_alias(q.import.as_str(), scope, &self.fresh) {
            Some(alias_s) => {
                let alias = chars_of(alias_s.as_str());
                let ai = as_import(imp, alias.as_slice());
                let renamed = match map_lookup(&scope.renamed_uses, imp) {
                    Some(a) => str_eq(a.as_str(), alias_s.as_str()),
                    None => false,
                };
                let already = renamed || has_text(&self.needed, ai.as_slice());
                let r = alias_replacement(repl, tail, alias.as_slice());
                if !already {
                    insert_text(&mut self.needed, ai.as_slice());
                    insert_text(&mut self.fresh, alias.as_slice());
                }
                map_store(&mut self.aliased, imp, alias.as_slice());
                self.finish(q, loc, r.as_slice(), orig, trimmed);
            },
            None => {},
        }
    }

    /// Plans the path `q`, found at the byte range `loc`.
    fn step(
        &mut self,
        scope: &FileScope,
        conflicts: &Vec<String>,
        Ghost(all): Ghost<Seq<PathView>>,
        q: &QualifiedPath,
        loc: (usize, usize),
    )
        requires
            forall|t: Seq<char>| #[trigger] conflicts.deep_view().contains(t) <==> conflicting(all, t),
        ensures
            final(self)@ == located_step(old(self)@, scope@, all, q@, (loc.0 as int, loc.1 as int)),
    {
        let orig = chars_of(q.original.as_str());
        let trimmed = chars_trim_start(orig.as_slice(), ':');
        let imp = chars_of(q.import.as_str());
        let repl = chars_of(q.replacement.as_str());
        let sep = chars_of("::");
        proof {
            reveal_strlit("::");
            assert(sep@ =~= colons());
        }
        let tail_s = q.import_tail();
        let tail = chars_of(tail_s.as_str());
        let first = chars_first_piece(repl.as_slice(), sep.as_slice());
        let known = match map_lookup(&self.aliased, imp.as_slice()) {
            Some(a) => Some(a),
            None => map_lookup(&scope.renamed_uses, imp.as_slice()),
        };
        if let Some(alias_s) = known {
            let alias = chars_of(alias_s.as_str());
            let r = alias_replacement(repl.as_slice(), tail.as_slice(), alias.as_slice());
            if !chars_eq(r.as_slice(), orig.as_slice()) && !chars_eq(r.as_slice(), trimmed.as_slice()) {
                let ai = as_import(imp.as_slice(), alias.as_slice());
                if !has_text(&scope.existing_use_paths, ai.as_slice()) && !has_str(&scope.existing_use_paths, "super::*")
                    && !has_text(&self.needed, ai.as_slice()) {
                    insert_text(&mut self.needed, ai.as_slice());
                    insert_text(&mut self.fresh, alias.as_slice());
                }
                self.finish(q, loc, r.as_slice(), orig.as_slice(), trimmed.as_slice());
            }
            return;
        }
        let core = chars_of(q.core_ident());
        let has_sep = chars_find_from(repl.as_slice(), sep.as_slice(), 0).is_some();
        let in_uses = has_text(&scope.existing_use_paths, imp.as_slice());
        let in_needed = has_text(&self.needed, imp.as_slice());
        let clash = has_text(conflicts, first.as_slice()) || (!has_sep && has_text(conflicts, core.as_slice())) || (!in_uses
            && !in_needed && is_in_scope(scope, &self.fresh, first.as_slice()));
        if clash {
            self.fallback(
                scope,
                q,
                loc,
                imp.as_slice(),
                repl.as_slice(),
                tail.as_slice(),
                orig.as_slice(),
                trimmed.as_slice(),
            );
            return;
        }
        if !in_uses && !in_needed {
            if str_eq(q.import.as_str(), "crate") {
                return;
            }
            insert_text(&mut self.needed, imp.as_slice());
            insert_text(&mut self.fresh, tail.as_slice());
        }
        self.finish(q, loc, repl.as_slice(), orig.as_slice(), trimmed.as_slice());
    }
}

/// Does the edit lie within the source, between character boundaries?
pub open spec fn edit_bounded(b: Seq<u8>, e: EditView) -> bool {
    e.1 <= e.2 <= b.len() && is_char_boundary(b, e.1 as int) && is_char_boundary(b, e.2 as int)
}

/// Planning a path keeps the edits made so far and adds at most the
/// replacement of the path's own byte range.
proof fn lemma_step_edits(st: PlanState, sc: ScopeView, all: Seq<PathView>, q: PathView, loc: (int, int))
    ensures
        located_step(st, sc, all, q, loc).3.len() >= st.3.len(),
        forall|i: int|
            0 <= i < located_step(st, sc, all, q, loc).3.len() ==> (i < st.3.len()
                && #[trigger] located_step(st, sc, all, q, loc).3[i] == st.3[i]) || (located_step(
                st,
                sc,
                all,
                q,
                loc,
            ).3[i].1 == loc.0 as usize && located_step(st, sc, all, q, loc).3[i].2 == loc.1 as usize
                && !located_step(st, sc, all, q, loc).3[i].0 && located_step(st, sc, all, q, loc).3[i].3
                != located_step(st, sc, all, q, loc).3[i].4 && located_step(st, sc, all, q, loc).3[i].3 == q.0),
{
}

/// Every edit that planning the paths makes replaces bytes that spell the
/// path it names.
proof fn lemma_plan_paths_text(b: Seq<u8>, offsets: Seq<usize>, sc: ScopeView, all: Seq<PathView>, ps: Seq<PathView>)
    requires
        offsets_wf(b, offsets),
        b.len() <= usize::MAX,
    ensures
        forall|i: int|
            0 <= i < plan_paths(b, offsets, sc, all, ps).3.len() ==> spells_path(
                b,
                (#[trigger] plan_paths(b, offsets, sc, all, ps).3[i]).1 as int,
                plan_paths(b, offsets, sc, all, ps).3[i].2 as int,
                plan_paths(b, offsets, sc, all, ps).3[i].3,
            ),
    decreases ps.len(),
{
    if ps.len() > 0 {
        let prev = plan_paths(b, offsets, sc, all, ps.drop_last());
        lemma_plan_paths_text(b, offsets, sc, all, ps.drop_last());
        let q = ps.last();
        match locate_spec(b, offsets, q) {
            Some(l) => {
                lemma_step_edits(prev, sc, all, q, l);
                lemma_locate_spec_text(b, offsets, q);
            },
            None => {},
        }
    }
}

/// Every replacement among the edits of the modules replaces bytes that
/// spell the path it names.
pub proof fn lemma_all_edits_text(b: Seq<u8>, offsets: Seq<usize>, ms: Seq<ModuleView>)
    requires
        offsets_wf(b, offsets),
        b.len() <= usize::MAX,
    ensures
        forall|i: int|
            0 <= i < all_edits(b, offsets, ms).len() ==> (#[trigger] all_edits(b, offsets, ms)[i]).0 || spells_path(
                b,
                all_edits(b, offsets, ms)[i].1 as int,
                all_edits(b, offsets, ms)[i].2 as int,
                all_edits(b, offsets, ms)[i].3,
            ),
    decreases ms.len(),
{
    if ms.len() > 0 {
        lemma_all_edits_text(b, offsets, ms.drop_last());
        let m = ms.last();
        let prev = all_edits(b, offsets, ms.drop_last());
        let me = module_edits(b, offsets, m);
        if m.4.len() > 0 {
            let st = plan_paths(b, offsets, m.3, m.4, m.4);
            lemma_plan_paths_text(b, offsets, m.3, m.4, m.4);
            assert forall|i: int| 0 <= i < me.len() implies (#[trigger] me[i]).0 || spells_path(
                b,
                me[i].1 as int,
                me[i].2 as int,
                me[i].3,
            ) by {
                if i < st.3.len() {
                    assert(me[i] == st.3[i]);
                } else {
                    assert(me[i] == insert_edit(b, m, st.0)[i - st.3.len()]);
                }
            }
        }
        let r = all_edits(b, offsets, ms);
        assert forall|i: int| 0 <= i < r.len() implies (#[trigger] r[i]).0 || spells_path(
            b,
            r[i].1 as int,
            r[i].2 as int,
            r[i].3,
        ) by {
            if i < prev.len() {
                assert(r[i] == prev[i]);
            } else {
                assert(r[i] == me[i - prev.len()]);
            }
        }
    }
}

/// Every edit that planning the paths makes replaces a path by a different text.
pub proof fn lemma_plan_paths_change(b: Seq<u8>, offsets: Seq<usize>, sc: ScopeView, all: Seq<PathView>, ps: Seq<PathView>)
    ensures
        forall|i: int|
            0 <= i < plan_paths(b, offsets, sc, all, ps).3.len() ==> !(#[trigger] plan_paths(b, offsets, sc, all, ps).3[i]).0
                && plan_paths(b, offsets, sc, all, ps).3[i].3 != plan_paths(b, offsets, sc, all, ps).3[i].4,
    decreases ps.len(),
{
    if ps.len() > 0 {
        let prev = plan_paths(b, offsets, sc, all, ps.drop_last());
        lemma_plan_paths_change(b, offsets, sc, all, ps.drop_last());
        match locate_spec(b, offsets, ps.last()) {
            Some(l) => {
                lemma_step_edits(prev, sc, all, ps.last(), l);
            },
            None => {},
        }
    }
}

proof fn lemma_step_needed_unique(st: PlanState, sc: ScopeView, all: Seq<PathView>, q: PathView, loc: Option<(int, int)>)
    requires
        st.0.no_duplicates(),
    ensures
        path_step(st, sc, all, q, loc).0.no_duplicates(),
{
    assert forall|x: Seq<char>| #[trigger] set_insert(st.0, x).no_duplicates() by {
        crate::sets::lemma_set_insert_unique(st.0, x);
    }
}

proof fn lemma_plan_needed_unique(b: Seq<u8>, offsets: Seq<usize>, sc: ScopeView, all: Seq<PathView>, ps: Seq<PathView>)
    ensures
        plan_paths(b, offsets, sc, all, ps).0.no_duplicates(),
    decreases ps.len(),
{
    if ps.len() > 0 {
        lemma_plan_needed_unique(b, offsets, sc, all, ps.drop_last());
        lemma_step_needed_unique(
            plan_paths(b, offsets, sc, all, ps.drop_last()),
            sc,
            all,
            ps.last(),
            locate_spec(b, offsets, ps.last()),
        );
    }
}

proof fn lemma_new_imports_unique(needed: Seq<Seq<char>>, sc: ScopeView)
    requires
        needed.no_duplicates(),
    ensures
        new_imports(needed, sc).no_duplicates(),
        forall|x: Seq<char>| new_imports(needed, sc).contains(x) ==> needed.contains(x),
    decreases needed.len(),
{
    if needed.len() > 0 {
        let prev = needed.drop_last();
        assert forall|i: int, j: int| 0 <= i < prev.len() && 0 <= j < prev.len() && i != j implies prev[i] != prev[j] by {
            assert(prev[i] == needed[i] && prev[j] == needed[j]);
        }
        lemma_new_imports_unique(prev, sc);
        let r = new_imports(prev, sc);
        let x = needed.last();
        assert forall|y: Seq<char>| prev.contains(y) implies needed.contains(y) by {
            let i = choose|i: int| 0 <= i < prev.len() && prev[i] == y;
            assert(needed[i] == y);
        }
        assert(needed[needed.len() - 1] == x);
        if !r.contains(x) {
            crate::sets::lemma_set_insert_unique(r, x);
            assert(set_insert(r, x) == r.push(x));
        } else {
            assert(prev.contains(x));
            let i = choose|i: int| 0 <= i < prev.len() && prev[i] == x;
            assert(needed[i] == needed[needed.len() - 1]);
        }
    }
}

/// The imports a module's new `use` declarations name, in the order written.
pub open spec fn inserted_imports(b: Seq<u8>, offsets: Seq<usize>, m: ModuleView) -> Seq<Seq<char>> {
    isort(new_imports(plan_paths(b, offsets, m.3, m.4, m.4).0, m.3), lex_order())
}

/// The `use` declarations inserted into a module come in lexicographic
/// order and name each import once.
pub proof fn law_inserted_imports_sorted_once(b: Seq<u8>, offsets: Seq<usize>, m: ModuleView)
    ensures
        sorted_by(inserted_imports(b, offsets, m), lex_order()),
        inserted_imports(b, offsets, m).no_duplicates(),
{
    let needed = plan_paths(b, offsets, m.3, m.4, m.4).0;
    let imps = new_imports(needed, m.3);
    lemma_plan_needed_unique(b, offsets, m.3, m.4, m.4);
    lemma_new_imports_unique(needed, m.3);
    lemma_lex_strict_total();
    lemma_isort_sorted(imps, lex_order());
    lemma_isort_multiset(imps, lex_order());
    imps.lemma_multiset_has_no_duplicates();
    isort(imps, lex_order()).lemma_multiset_has_no_duplicates_conv();
}

/// Every edit of the modules inserts text or replaces a path by a different text.
pub proof fn lemma_all_edits_change(b: Seq<u8>, offsets: Seq<usize>, ms: Seq<ModuleView>)
    ensures
        forall|i: int|
            0 <= i < all_edits(b, offsets, ms).len() ==> (#[trigger] all_edits(b, offsets, ms)[i]).0 || all_edits(
                b,
                offsets,
                ms,
            )[i].3 != all_edits(b, offsets, ms)[i].4,
    decreases ms.len(),
{
    if ms.len() > 0 {
        lemma_all_edits_change(b, offsets, ms.drop_last());
        let m = ms.last();
        let prev = all_edits(b, offsets, ms.drop_last());
        let me = module_edits(b, offsets, m);
        if m.4.len() > 0 {
            let st = plan_paths(b, offsets, m.3, m.4, m.4);
            lemma_plan_paths_change(b, offsets, m.3, m.4, m.4);
            assert forall|i: int| 0 <= i < me.len() implies (#[trigger] me[i]).0 || me[i].3 != me[i].4 by {
                if i < st.3.len() {
                    assert(me[i] == st.3[i]);
                } else {
                    assert(me[i] == insert_edit(b, m, st.0)[i - st.3.len()]);
                }
            }
        }
        let r = all_edits(b, offsets, ms);
        assert forall|i: int| 0 <= i < r.len() implies (#[trigger] r[i]).0 || r[i].3 != r[i].4 by {
            if i < prev.len() {
                assert(r[i] == prev[i]);
            } else {
                assert(r[i] == me[i - prev.len()]);
            }
        }
    }
}

/// The plan after the paths `ps` (in order) of a module with scope `sc`
/// and paths `all`, in the source `b` with line offsets `offsets`.
pub open spec fn plan_paths(
    b: Seq<u8>,
    offsets: Seq<usize>,
    sc: ScopeView,
    all: Seq<PathView>,
    ps: Seq<PathView>,
) -> PlanState
    decreases ps.len(),
{
    if ps.len() == 0 {
        empty_plan()
    } else {
        path_step(plan_paths(b, offsets, sc, all, ps.drop_last()), sc, all, ps.last(), locate_spec(b, offsets, ps.last()))
    }
}

/// The planned imports that are still to be written: not `crate`, `self`
/// or `super`, and not imported by the module already.
pub open spec fn new_imports(needed: Seq<Seq<char>>, sc: ScopeView) -> Seq<Seq<char>>
    decreases needed.len(),
{
    if needed.len() == 0 {
        Seq::empty()
    } else {
        let rest = new_imports(needed.drop_last(), sc);
        let x = needed.last();
        if x != "crate"@ && x != "self"@ && x != "super"@ && !sc.1.contains(x) {
            rest.push(x)
        } else {
            rest
        }
    }
}

/// One `use` declaration per import, each on its own line after `indent`.
pub open spec fn use_lines(indent: Seq<char>, imps: Seq<Seq<char>>) -> Seq<char>
    decreases imps.len(),
{
    if imps.len() == 0 {
        Seq::empty()
    } else {
        use_lines(indent, imps.drop_last()) + indent + "use "@ + imps.last() + ";\n"@
    }
}

/// The insertion of the module's new `use` declarations, sorted, at its
/// insertion point; a blank line follows them when the module had no `use`
/// declaration and the text there does not start a new line already.
pub open spec fn insert_edit(b: Seq<u8>, m: ModuleView, needed: Seq<Seq<char>>) -> Seq<EditView> {
    let imps = isort(new_imports(needed, m.3), lex_order());
    if imps.len() == 0 {
        Seq::empty()
    } else {
        let blank = !m.2 && m.0 < b.len() && b[m.0 as int] != 10u8;
        let text = use_lines(m.1, imps) + if blank {
            "\n"@
        } else {
            Seq::empty()
        };
        seq![(true, m.0, m.0, Seq::empty(), text)]
    }
}

/// The edits of one module: the replacements of its paths, then the
/// insertion of its imports.
pub open spec fn module_edits(b: Seq<u8>, offsets: Seq<usize>, m: ModuleView) -> Seq<EditView> {
    if m.4.len() == 0 {
        Seq::empty()
    } else {
        let st = plan_paths(b, offsets, m.3, m.4, m.4);
        st.3 + insert_edit(b, m, st.0)
    }
}

/// The edits of all modules, module after module.
pub open spec fn all_edits(b: Seq<u8>, offsets: Seq<usize>, ms: Seq<ModuleView>) -> Seq<EditView>
    decreases ms.len(),
{
    if ms.len() == 0 {
        Seq::empty()
    } else {
        all_edits(b, offsets, ms.drop_last()) + module_edits(b, offsets, ms.last())
    }
}

/// The sorted `use` declarations to insert for the planned imports `needed`.
fn use_block(needed: &Vec<String>, m: &ModuleContext, bytes: &[u8]) -> (r: Option<String>)
    ensures
        r is Some <==> insert_edit(bytes@, m@, needed.deep_view()).len() > 0,
        r matches Some(t) ==> insert_edit(bytes@, m@, needed.deep_view()) == seq![
            (true, m.insert_pos, m.insert_pos, Seq::<char>::empty(), t@),
        ],
{
    let ghost nv = needed.deep_view();
    let mut to_insert: Vec<String> = Vec::new();
    let mut i: usize = 0;
    while i < needed.len()
        invariant
            i <= nv.len(),
            nv == needed.deep_view(),
            to_insert.deep_view() == new_imports(nv.take(i as int), m.scope@),
        decreases nv.len() - i,
    {
        let x = needed[i].as_str();
        assert(nv.take(i + 1).drop_last() =~= nv.take(i as int));
        assert(nv.take(i + 1).last() == x@);
        if !str_eq(x, "crate") && !str_eq(x, "self") && !str_eq(x, "super") && !has_str(&m.scope.existing_use_paths, x) {
            let ghost prev = to_insert.deep_view();
            to_insert.push(needed[i].clone());
            assert(to_insert.deep_view() =~= prev.push(x@));
        }
        i = i + 1;
    }
    assert(nv.take(nv.len() as int) =~= nv);
    let sorted = sort_strings(to_insert);
    proof {
        lemma_isort_len(new_imports(nv, m.scope@), lex_order());
    }
    if sorted.len() == 0 {
        return None;
    }
    let ghost sv = sorted.deep_view();
    let mut text = String::new();
    let mut j: usize = 0;
    while j < sorted.len()
        invariant
            j <= sv.len(),
            sv == sorted.deep_view(),
            text@ == use_lines(m.indent@, sv.take(j as int)),
        decreases sv.len() - j,
    {
        text.append(m.indent.as_str());
        text.append("use ");
        text.append(sorted[j].as_str());
        text.append(";\n");
        assert(sv.take(j + 1).drop_last() =~= sv.take(j as int));
        assert(sv.take(j + 1).last() == sorted@[j as int]@);
        j = j + 1;
    }
    assert(sv.take(sv.len() as int) =~= sv);
    if !m.has_existing_use && m.insert_pos < bytes.len() && bytes[m.insert_pos] != 10u8 {
        text.append("\n");
    } else {
        assert(text@ + Seq::<char>::empty() =~= text@);
    }
    Some(text)
}

/// Plans the edits of the module `m` and appends them to `edits`.
pub fn plan_module(bytes: &[u8], offsets: &[usize], m: &ModuleContext, edits: &mut Vec<Action>)
    requires
        offsets_wf(bytes@, offsets@),
        valid_utf8(bytes@),
        inserted_imports(bytes@, offsets@, m@).len() > 0 ==> m.insert_pos <= bytes@.len() && is_char_boundary(
            bytes@,
            m.insert_pos as int,
        ),
        forall|i: int| 0 <= i < old(edits)@.len() ==> edit_bounded(bytes@, #[trigger] old(edits)@[i]@),
    ensures
        edit_views(final(edits)@) == edit_views(old(edits)@) + module_edits(bytes@, offsets@, m@),
        forall|i: int| 0 <= i < final(edits)@.len() ==> edit_bounded(bytes@, #[trigger] final(edits)@[i]@),
{
    if m.paths.len() == 0 {
        assert(edit_views(edits@) + Seq::<EditView>::empty() =~= edit_views(edits@));
        return;
    }
    let ghost all = path_views(m.paths@);
    let conflicts = conflicting_tails(&m.paths);
    let mut planner = Planner::new();
    let mut k: usize = 0;
    while k < m.paths.len()
        invariant
            k <= m.paths@.len(),
            all == path_views(m.paths@),
            offsets_wf(bytes@, offsets@),
            valid_utf8(bytes@),
            forall|t: Seq<char>| #[trigger] conflicts.deep_view().contains(t) <==> conflicting(all, t),
            planner@ == plan_paths(bytes@, offsets@, m.scope@, all, all.take(k as int)),
            forall|i: int| 0 <= i < planner@.3.len() ==> edit_bounded(bytes@, #[trigger] planner@.3[i]),
        decreases m.paths@.len() - k,
    {
        let q = &m.paths[k];
        assert(all.take(k + 1).drop_last() =~= all.take(k as int));
        assert(all.take(k + 1).last() == q@);
        match locate(bytes, offsets, q) {
            Some(loc) => {
                let ghost before = planner@;
                planner.step(&m.scope, &conflicts, Ghost(all), q, loc);
                proof {
                    lemma_step_edits(before, m.scope@, all, q@, (loc.0 as int, loc.1 as int));
                    assert forall|i: int| 0 <= i < planner@.3.len() implies edit_bounded(bytes@, #[trigger] planner@.3[i]) by {
                        if i < before.3.len() && planner@.3[i] == before.3[i] {
                        }
                    }
                }
            },
            None => {},
        }
        k = k + 1;
    }
    assert(all.take(all.len() as int) =~= all);
    let ghost st = planner@;
    let Planner { needed, fresh: _, aliased: _, edits: mut moved } = planner;
    assert(edit_views(moved@) == st.3);
    let ghost old_edits = edits@;
    edits.append(&mut moved);
    assert forall|i: int| 0 <= i < edits@.len() implies edit_bounded(bytes@, #[trigger] edits@[i]@) by {
        if i >= old_edits.len() {
            assert(edits@[i]@ == st.3[i - old_edits.len()]);
        }
    }
    match use_block(&needed, m, bytes) {
        Some(text) => {
            edits.push(Action::Insert { pos: m.insert_pos, text });
        },
        None => {},
    }
    assert(edit_views(edits@) =~= edit_views(old(edits)@) + module_edits(bytes@, offsets@, m@));
}

} // verus!
