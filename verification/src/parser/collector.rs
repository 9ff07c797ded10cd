//! Collection of the qualified paths to shorten, module by module.
use vstd::prelude::*;
use vstd::string::StringSliceAdditionalSpecFns;
use vstd::utf8::{is_char_boundary, is_char_boundary_start_end_of_seq, valid_utf8};

use crate::rewriter::{modules_fit, offsets_wf};

use super::path::{LineColumn, PathView, QualifiedPath, last_ident_of, upper_initial};
use super::scope::{
    FileScope, ItemInfo, ItemKind, ScopeView, collect_items_scope, collect_items_spec,
};
use crate::sets::{copy_strings, has_text, map_has, map_index};
use crate::text::{chars_eq, chars_of, colons, join, join_range, string_of};

verus! {

/// The scope of one module (the file's top level or an inline `mod`), with
/// where its new `use` declarations go and the paths found in it.
pub struct ModuleContext {
    /// Byte offset in the source at which new `use` declarations are inserted.
    pub insert_pos: usize,
    /// Indentation written before each inserted `use` declaration.
    pub indent: String,
    /// Does the module already start with `use` declarations?
    pub has_existing_use: bool,
    /// The names and imports of the module.
    pub scope: FileScope,
    /// The qualified paths found in the module, in the order met.
    pub paths: Vec<QualifiedPath>,
}

/// The abstract value of a module context.
pub type ModuleView = (usize, Seq<char>, bool, ScopeView, Seq<PathView>);

pub open spec fn path_views(v: Seq<QualifiedPath>) -> Seq<PathView> {
    v.map_values(|q: QualifiedPath| q@)
}

impl View for ModuleContext {
    type V = ModuleView;

    open spec fn view(&self) -> ModuleView {
        (self.insert_pos, self.indent@, self.has_existing_use, self.scope@, path_views(self.paths@))
    }
}

pub open spec fn module_views(v: Seq<ModuleContext>) -> Seq<ModuleView> {
    v.map_values(|m: ModuleContext| m@)
}

/// A path met while walking the syntax tree.
pub struct PathInfo {
    /// Does the path start with `::`?
    pub leading_colon: bool,
    /// The names of its segments.
    pub segments: Vec<String>,
    /// The start of the path in the source.
    pub span: LineColumn,
}

/// An inline module (`mod name { ... }`) met while walking the syntax tree.
pub struct ModInfo {
    /// The line on which the module starts.
    pub start_line: usize,
    /// The module's top-level items.
    pub items: Vec<ItemInfo>,
}

/// What the walk over the syntax tree meets, in the order it meets it.
pub enum VisitEvent {
    /// A node carrying a `#[cfg]` or `#[cfg_attr]` attribute is entered.
    EnterCfg,
    /// That node is left.
    ExitCfg,
    /// A `use` declaration is entered.
    EnterUse,
    /// That declaration is left.
    ExitUse,
    /// An attribute is entered.
    EnterAttr,
    /// That attribute is left.
    ExitAttr,
    /// A region that binds local names (a function, a block, an arm, a closure) opens.
    OpenLocals,
    /// That region closes: the names bound inside it go out of scope.
    CloseLocals,
    /// A local name is bound (a parameter, a pattern binding, a local item).
    Local(String),
    /// An inline module is entered.
    EnterMod(ModInfo),
    /// That module is left.
    ExitMod,
    /// A path is met.
    Path(PathInfo),
}

/// Are the path's segments identifiers (no `:` inside a segment)?
pub open spec fn segments_wf(segs: Seq<Seq<char>>) -> bool {
    forall|i: int| 0 <= i < segs.len() ==> !(#[trigger] segs[i]).contains(':')
}

pub open spec fn path_info_wf(p: PathInfo) -> bool {
    segments_wf(p.segments.deep_view())
}

pub open spec fn event_wf(ev: VisitEvent) -> bool {
    match ev {
        VisitEvent::Path(p) => path_info_wf(p),
        _ => true,
    }
}

/// The largest `k` in `1..=n` such that the first `k` segments, joined with
/// `::`, are among the imported paths `uses`.
pub open spec fn largest_used_prefix(segs: Seq<Seq<char>>, uses: Seq<Seq<char>>, n: int) -> Option<int>
    decreases n,
{
    if n <= 0 {
        None
    } else if uses.contains(join(segs.take(n), colons())) {
        Some(n)
    } else {
        largest_used_prefix(segs, uses, n - 1)
    }
}

/// How many leading segments are imported and how many trailing segments
/// are kept in the code, before the check for shadowed names.
pub open spec fn base_counts(segs: Seq<Seq<char>>, keep_segments: usize, matched: Option<int>) -> (int, int) {
    let total = segs.len() as int;
    match matched {
        Some(k) => (k, if total - (k - 1) >= 1 { total - (k - 1) } else { 1 }),
        None => {
            let kc0: int = if keep_segments >= 1 { keep_segments as int } else { 1 };
            let (ic1, kc1) = if total >= 3 && upper_initial(segs[total - 2]) {
                (total - 1, 2int)
            } else {
                (total, kc0)
            };
            let idx = if ic1 >= 2 { ic1 - 2 } else { 0 };
            let (ic2, kc2) = if last_ident_of(segs) == "Result"@ && total >= 2 && segs[idx] != "result"@ {
                (total - 1, 2int)
            } else {
                (ic1, kc1)
            };
            if total >= 3 && (segs[0] == "std"@ || segs[0] == "core"@) && segs[1] == "fmt"@ {
                (2, total - 1)
            } else if total >= 3 && segs[total - 2] == "fmt"@ {
                (total - 1, 2int)
            } else {
                (ic2, kc2)
            }
        },
    }
}

/// The qualified path recorded for a path met with `leading` colon and
/// segments `segs`, or `None` when the path is left as it is.
pub open spec fn inspect_spec(
    max_segments: usize,
    keep_segments: usize,
    allow: Seq<Seq<char>>,
    known: Seq<Seq<char>>,
    cfg_depth: usize,
    locals: Seq<Seq<char>>,
    scope: ScopeView,
    leading: bool,
    segs: Seq<Seq<char>>,
    span: (usize, usize),
) -> Option<PathView> {
    let total = segs.len() as int;
    if total <= max_segments {
        None
    } else if segs[0] == "self"@ || segs[0] == "super"@ {
        None
    } else if allow.contains(segs[0]) {
        None
    } else if !leading && segs[0] != "crate"@ && known.len() > 0 && !known.contains(segs[0]) {
        None
    } else {
        let matched = if cfg_depth > 0 {
            largest_used_prefix(segs, scope.1, total)
        } else {
            None
        };
        if cfg_depth > 0 && matched is None {
            None
        } else {
            let (ic, kc) = base_counts(segs, keep_segments, matched);
            let full = join(segs, colons());
            let last = last_ident_of(segs);
            let shadowed = scope.0.contains(last) || locals.contains(last);
            let adjust = kc == 1 && !scope.1.contains(full) && !map_has(scope.2, full) && shadowed;
            if adjust && total < 3 && segs[0] == "crate"@ {
                None
            } else {
                let (ic2, kc2) = if adjust && total >= 3 {
                    (total - 1, 2int)
                } else {
                    (ic, kc)
                };
                let keep_start = if total >= kc2 {
                    total - kc2
                } else {
                    0
                };
                let replacement = if kc2 == 1 {
                    last
                } else {
                    join(segs.subrange(keep_start, total), colons())
                };
                let original = if leading {
                    colons() + full
                } else {
                    full
                };
                Some((original, replacement, join(segs.take(ic2), colons()), segs, span))
            }
        }
    }
}

/// A path of three or more segments ending in `Result`, met outside `cfg`
/// code, whose segment before `Result` is not `result` and which is not
/// under `std::fmt` or `core::fmt`, is shortened to its last two segments
/// and imports its parent: `std::io::Result` becomes `io::Result` with
/// `use std::io;`, so the prelude's `Result<T, E>` is not shadowed.
pub proof fn law_result_keeps_its_module(
    max_segments: usize,
    keep_segments: usize,
    allow: Seq<Seq<char>>,
    known: Seq<Seq<char>>,
    locals: Seq<Seq<char>>,
    scope: ScopeView,
    leading: bool,
    segs: Seq<Seq<char>>,
    span: (usize, usize),
)
    requires
        segs.len() >= 3,
        segs.len() > max_segments,
        segs[0] != "self"@,
        segs[0] != "super"@,
        !allow.contains(segs[0]),
        leading || segs[0] == "crate"@ || known.len() == 0 || known.contains(segs[0]),
        segs.last() == "Result"@,
        segs[segs.len() - 2] != "result"@,
        !((segs[0] == "std"@ || segs[0] == "core"@) && segs[1] == "fmt"@),
    ensures
        inspect_spec(max_segments, keep_segments, allow, known, 0, locals, scope, leading, segs, span) matches Some(q)
            && q.1 == join(segs.subrange(segs.len() - 2, segs.len() as int), colons()) && q.2 == join(
            segs.take(segs.len() - 1),
            colons(),
        ),
{
    let total = segs.len() as int;
    assert(base_counts(segs, keep_segments, None) == (total - 1, 2int));
}

/// Paths no longer than the limit, paths under `self` or `super`, and
/// paths of the allowed crates are left as they are.
pub proof fn law_untouched_paths(
    max_segments: usize,
    keep_segments: usize,
    allow: Seq<Seq<char>>,
    known: Seq<Seq<char>>,
    cfg_depth: usize,
    locals: Seq<Seq<char>>,
    scope: ScopeView,
    leading: bool,
    segs: Seq<Seq<char>>,
    span: (usize, usize),
)
    requires
        segs.len() <= max_segments || segs[0] == "self"@ || segs[0] == "super"@ || allow.contains(segs[0]),
    ensures
        inspect_spec(max_segments, keep_segments, allow, known, cfg_depth, locals, scope, leading, segs, span) is None,
{
}

proof fn lemma_largest_used_prefix_member(segs: Seq<Seq<char>>, uses: Seq<Seq<char>>, n: int)
    ensures
        largest_used_prefix(segs, uses, n) matches Some(k) ==> uses.contains(join(segs.take(k), colons())),
    decreases n,
{
    if n > 0 && !uses.contains(join(segs.take(n), colons())) {
        lemma_largest_used_prefix_member(segs, uses, n - 1);
    }
}

/// Inside code under a `cfg` attribute, a path is shortened only through a
/// prefix of it that the module already imports: no new import is made for
/// it, so none leaks out of the conditional code.
pub proof fn law_cfg_uses_existing_imports(
    max_segments: usize,
    keep_segments: usize,
    allow: Seq<Seq<char>>,
    known: Seq<Seq<char>>,
    cfg_depth: usize,
    locals: Seq<Seq<char>>,
    scope: ScopeView,
    leading: bool,
    segs: Seq<Seq<char>>,
    span: (usize, usize),
)
    requires
        cfg_depth > 0,
    ensures
        inspect_spec(max_segments, keep_segments, allow, known, cfg_depth, locals, scope, leading, segs, span) matches Some(
            q,
        ) ==> scope.1.contains(q.2),
{
    let total = segs.len() as int;
    lemma_largest_used_prefix_member(segs, scope.1, total);
    lemma_largest_used_prefix_range(segs, scope.1, total);
    if total > max_segments {
        assert(segs.take(total) =~= segs);
    }
}

/// A path into `std::fmt` or `core::fmt` (outside conditional code) keeps
/// its `fmt::` prefix: the module `fmt` is imported, so that a trait
/// method such as `fmt` stays unambiguous.
pub proof fn law_fmt_prefix_kept(
    max_segments: usize,
    keep_segments: usize,
    allow: Seq<Seq<char>>,
    known: Seq<Seq<char>>,
    locals: Seq<Seq<char>>,
    scope: ScopeView,
    leading: bool,
    segs: Seq<Seq<char>>,
    span: (usize, usize),
)
    requires
        segs.len() >= 3,
        segs[0] == "std"@ || segs[0] == "core"@,
        segs[1] == "fmt"@,
    ensures
        inspect_spec(max_segments, keep_segments, allow, known, 0, locals, scope, leading, segs, span) matches Some(q)
            ==> q.2 == join(segs.take(2), colons()) && q.1 == join(segs.skip(1), colons()),
{
    let total = segs.len() as int;
    assert(segs.subrange(1, total) =~= segs.skip(1));
}

/// Joining two or more parts puts the separator between them.
proof fn lemma_join_holds_sep(parts: Seq<Seq<char>>)
    requires
        parts.len() >= 2,
    ensures
        join(parts, colons()).contains(':'),
{
    let j = join(parts, colons());
    let head = join(parts.drop_last(), colons());
    assert(j == head + colons() + parts.last());
    assert(j[head.len() as int] == ':');
}

/// A path of three or more segments whose last name is shadowed by a local
/// name or a name of the module, and whose full text the module neither
/// imports nor renames, is not shortened to that bare name.
pub proof fn law_shadowed_name_kept_qualified(
    max_segments: usize,
    keep_segments: usize,
    allow: Seq<Seq<char>>,
    known: Seq<Seq<char>>,
    locals: Seq<Seq<char>>,
    scope: ScopeView,
    leading: bool,
    segs: Seq<Seq<char>>,
    span: (usize, usize),
)
    requires
        segments_wf(segs),
        segs.len() >= 3,
        scope.0.contains(last_ident_of(segs)) || locals.contains(last_ident_of(segs)),
        !scope.1.contains(join(segs, colons())),
        !map_has(scope.2, join(segs, colons())),
    ensures
        inspect_spec(max_segments, keep_segments, allow, known, 0, locals, scope, leading, segs, span) matches Some(q)
            ==> q.1 != last_ident_of(segs),
{
    let total = segs.len() as int;
    let (ic, kc) = base_counts(segs, keep_segments, None);
    let last = last_ident_of(segs);
    assert(!last.contains(':'));
    if inspect_spec(max_segments, keep_segments, allow, known, 0, locals, scope, leading, segs, span) is Some {
        let kc2 = if kc == 1 {
            2int
        } else {
            kc
        };
        let keep_start = if total >= kc2 {
            total - kc2
        } else {
            0
        };
        if kc2 >= 2 {
            let parts = segs.subrange(keep_start, total);
            assert(parts.len() >= 2);
            lemma_join_holds_sep(parts);
        }
    }
}

proof fn lemma_largest_used_prefix_range(segs: Seq<Seq<char>>, uses: Seq<Seq<char>>, n: int)
    ensures
        largest_used_prefix(segs, uses, n) matches Some(k) ==> 1 <= k <= n,
    decreases n,
{
    if n > 0 {
        lemma_largest_used_prefix_range(segs, uses, n - 1);
    }
}

/// Lemma: joining one more part appends the separator and that part.
proof fn lemma_join_take_step(parts: Seq<Seq<char>>, sep: Seq<char>, i: int)
    requires
        1 <= i < parts.len(),
    ensures
        join(parts.take(i + 1), sep) == join(parts.take(i), sep) + sep + parts[i],
{
    assert(parts.take(i + 1).drop_last() =~= parts.take(i));
}

/// The largest `k` such that the first `k` segments, joined with `::`, are
/// among `uses`.
fn used_prefix(segments: &Vec<String>, uses: &Vec<String>) -> (r: Option<usize>)
    ensures
        r is Some <==> largest_used_prefix(segments.deep_view(), uses.deep_view(), segments@.len() as int) is Some,
        r matches Some(k) ==> largest_used_prefix(segments.deep_view(), uses.deep_view(), segments@.len() as int)
            == Some(k as int),
        r matches Some(k) ==> 1 <= k <= segments@.len(),
{
    let ghost segs = segments.deep_view();
    let total = segments.len();
    let mut matched: Option<usize> = None;
    let mut prefix: Vec<char> = Vec::new();
    let mut i: usize = 0;
    while i < total
        invariant
            segs == segments.deep_view(),
            total == segs.len(),
            i <= total,
            i == 0 ==> prefix@.len() == 0,
            i > 0 ==> prefix@ == join(segs.take(i as int), colons()),
            matched is Some <==> largest_used_prefix(segs, uses.deep_view(), i as int) is Some,
            matched matches Some(k) ==> largest_used_prefix(segs, uses.deep_view(), i as int) == Some(k as int),
            matched matches Some(k) ==> 1 <= k <= i,
        decreases total - i,
    {
        let seg = chars_of(segments[i].as_str());
        if i > 0 {
            prefix.push(':');
            prefix.push(':');
        }
        let mut j: usize = 0;
        let ghost base = prefix@;
        while j < seg.len()
            invariant
                j <= seg@.len(),
                prefix@ == base + seg@.take(j as int),
            decreases seg@.len() - j,
        {
            prefix.push(seg[j]);
            j = j + 1;
            assert(prefix@ =~= base + seg@.take(j as int));
        }
        proof {
            assert(seg@.take(seg@.len() as int) =~= seg@);
            if i > 0 {
                lemma_join_take_step(segs, colons(), i as int);
                assert(prefix@ =~= join(segs.take(i as int), colons()) + colons() + segs[i as int]);
            } else {
                assert(segs.take(1).len() == 1);
                assert(prefix@ =~= segs[0]);
            }
        }
        if has_text(uses, prefix.as_slice()) {
            matched = Some(i + 1);
        }
        i = i + 1;
    }
    matched
}

/// How many leading segments are imported and how many trailing segments
/// are kept, before the check for shadowed names.
fn counts_for(segments: &Vec<String>, keep_segments: usize, matched: Option<usize>) -> (r: (usize, usize))
    requires
        segments@.len() >= 1,
        matched matches Some(k) ==> 1 <= k <= segments@.len(),
    ensures
        (r.0 as int, r.1 as int) == base_counts(
            segments.deep_view(),
            keep_segments,
            match matched {
                Some(k) => Some(k as int),
                None => None::<int>,
            },
        ),
        1 <= r.0 <= segments@.len(),
        r.1 >= 1,
{
    let total = segments.len();
    let ghost segs = segments.deep_view();
    match matched {
        Some(k) => (k, total - (k - 1)),
        None => {
            let mut import_count: usize = total;
            let mut keep_count: usize = if keep_segments >= 1 { keep_segments } else { 1 };
            if total >= 3 {
                let prev = chars_of(segments[total - 2].as_str());
                if crate::parser::path::has_upper_initial(prev.as_slice()) {
                    import_count = total - 1;
                    keep_count = 2;
                }
            }
            let last = chars_of(segments[total - 1].as_str());
            let kw_result = chars_of("Result");
            let kw_result_mod = chars_of("result");
            let idx = if import_count >= 2 { import_count - 2 } else { 0 };
            let at_idx = chars_of(segments[idx].as_str());
            if chars_eq(last.as_slice(), kw_result.as_slice()) && total >= 2 && !chars_eq(
                at_idx.as_slice(),
                kw_result_mod.as_slice(),
            ) {
                import_count = total - 1;
                keep_count = 2;
            }
            if total >= 3 {
                let first = chars_of(segments[0].as_str());
                let kw_std = chars_of("std");
                let kw_core = chars_of("core");
                let kw_fmt = chars_of("fmt");
                let second = chars_of(segments[1].as_str());
                let prev = chars_of(segments[total - 2].as_str());
                if (chars_eq(first.as_slice(), kw_std.as_slice()) || chars_eq(first.as_slice(), kw_core.as_slice()))
                    && chars_eq(second.as_slice(), kw_fmt.as_slice()) {
                    import_count = 2;
                    keep_count = total - 1;
                } else if chars_eq(prev.as_slice(), kw_fmt.as_slice()) {
                    import_count = total - 1;
                    keep_count = 2;
                }
            }
            (import_count, keep_count)
        },
    }
}

/// The qualified path recorded for `path`, or `None` when it is left as it is.
pub fn inspect(
    max_segments: usize,
    keep_segments: usize,
    allow_crates: &Vec<String>,
    known_crates: &Vec<String>,
    cfg_depth: usize,
    local_idents: &Vec<String>,
    scope: &FileScope,
    path: &PathInfo,
) -> (r: Option<QualifiedPath>)
    requires
        path_info_wf(*path),
    ensures
        r is Some <==> inspect_spec(
            max_segments,
            keep_segments,
            allow_crates.deep_view(),
            known_crates.deep_view(),
            cfg_depth,
            local_idents.deep_view(),
            scope@,
            path.leading_colon,
            path.segments.deep_view(),
            (path.span.line, path.span.column),
        ) is Some,
        r matches Some(q) ==> Some(q@) == inspect_spec(
            max_segments,
            keep_segments,
            allow_crates.deep_view(),
            known_crates.deep_view(),
            cfg_depth,
            local_idents.deep_view(),
            scope@,
            path.leading_colon,
            path.segments.deep_view(),
            (path.span.line, path.span.column),
        ),
{
    let segments = &path.segments;
    let ghost segs = segments.deep_view();
    let total = segments.len();
    if total <= max_segments {
        return None;
    }
    let first = chars_of(segments[0].as_str());
    let kw_self = chars_of("self");
    let kw_super = chars_of("super");
    let kw_crate = chars_of("crate");
    assert(segs[0] == first@);
    if chars_eq(first.as_slice(), kw_self.as_slice()) || chars_eq(first.as_slice(), kw_super.as_slice()) {
        return None;
    }
    let is_crate = chars_eq(first.as_slice(), kw_crate.as_slice());
    if has_text(allow_crates, first.as_slice()) {
        return None;
    }
    if !path.leading_colon && !is_crate && known_crates.len() > 0 && !has_text(known_crates, first.as_slice()) {
        return None;
    }
    // With a `cfg` around the path, only a path whose prefix is already
    // imported may be shortened: a new import would stand outside the `cfg`.
    let matched: Option<usize> = if cfg_depth > 0 {
        used_prefix(segments, &scope.existing_use_paths)
    } else {
        None
    };
    if cfg_depth > 0 && matched.is_none() {
        return None;
    }
    let counts = counts_for(segments, keep_segments, matched);
    let mut import_count = counts.0;
    let mut keep_count = counts.1;
    let ghost m_int: Option<int> = match matched {
        Some(k) => Some(k as int),
        None => None,
    };
    assert(m_int == (if cfg_depth > 0 { largest_used_prefix(segs, scope@.1, total as int) } else { None }));
    let ghost ic = import_count as int;
    let ghost kc = keep_count as int;
    let full_import = join_range(segments, 0, total, "::");
    proof {
        reveal_strlit("::");
        assert("::"@ =~= colons());
        assert(segs.subrange(0, total as int) =~= segs);
    }
    let full_chars = chars_of(full_import.as_str());
    let last = chars_of(segments[total - 1].as_str());
    let is_shadowed = has_text(&scope.in_scope_idents, last.as_slice()) || has_text(
        local_idents,
        last.as_slice(),
    );
    assert(full_chars@ == join(segs, colons()));
    assert(last@ == last_ident_of(segs));
    let ghost adjust = kc == 1 && !scope@.1.contains(join(segs, colons())) && !map_has(
        scope@.2,
        join(segs, colons()),
    ) && (scope@.0.contains(last_ident_of(segs)) || local_idents.deep_view().contains(
        last_ident_of(segs),
    ));
    if keep_count == 1 && !has_text(&scope.existing_use_paths, full_chars.as_slice()) && map_index(
        &scope.renamed_uses,
        full_chars.as_slice(),
    ).is_none() && is_shadowed {
        if total >= 3 {
            import_count = total - 1;
            keep_count = 2;
        } else if is_crate {
            return None;
        }
    }
    assert(adjust && total < 3 ==> !is_crate);
    assert(import_count == (if adjust && total >= 3 { total - 1 } else { ic }));
    assert(keep_count == (if adjust && total >= 3 { 2 } else { kc }));
    let import = join_range(segments, 0, import_count, "::");
    proof {
        assert(segs.subrange(0, import_count as int) =~= segs.take(import_count as int));
    }
    let replacement = if keep_count == 1 {
        segments[total - 1].clone()
    } else {
        let keep_start = if total >= keep_count { total - keep_count } else { 0 };
        join_range(segments, keep_start, total, "::")
    };
    let original = if path.leading_colon {
        let mut o = String::new();
        o.append("::");
        o.append(full_import.as_str());
        o
    } else {
        full_import
    };
    assert(original@ == (if path.leading_colon { colons() + join(segs, colons()) } else { join(segs, colons()) }));
    let q = QualifiedPath {
        original,
        replacement,
        import,
        segments: copy_strings(segments),
        span: path.span,
    };
    Some(q)
}

/// Leading spaces and tabs of the bytes from `start` on.
pub open spec fn indent_from(bytes: Seq<u8>, start: int) -> Seq<char>
    decreases bytes.len() - start,
{
    if 0 <= start < bytes.len() && (bytes[start] == 32u8 || bytes[start] == 9u8) {
        seq![bytes[start] as char] + indent_from(bytes, start + 1)
    } else {
        Seq::empty()
    }
}

/// The indentation of the 1-based `line`, or `None` when the line is not
/// there or does not start on a character boundary.
pub open spec fn line_indent_spec(bytes: Seq<u8>, offsets: Seq<usize>, line: int) -> Option<Seq<char>> {
    if line < 1 || line - 1 >= offsets.len() {
        None
    } else if offsets[line - 1] > bytes.len() || !is_char_boundary(bytes, offsets[line - 1] as int) {
        None
    } else {
        Some(indent_from(bytes, offsets[line - 1] as int))
    }
}

/// The indentation of the 1-based `line`.
pub fn line_indent(source: &str, line_offsets: &[usize], line: usize) -> (r: Option<Vec<char>>)
    ensures
        r is Some <==> line_indent_spec(source.spec_bytes(), line_offsets@, line as int) is Some,
        r matches Some(v) ==> Some(v@) == line_indent_spec(source.spec_bytes(), line_offsets@, line as int),
{
    if line == 0 || line - 1 >= line_offsets.len() {
        return None;
    }
    let line_start = line_offsets[line - 1];
    let bytes = source.as_bytes();
    if line_start > bytes.len() || !source.is_char_boundary(line_start) {
        return None;
    }
    let mut v: Vec<char> = Vec::new();
    let mut i = line_start;
    while i < bytes.len() && (bytes[i] == 32u8 || bytes[i] == 9u8)
        invariant
            line_start <= i <= bytes@.len(),
            bytes@ == source.spec_bytes(),
            indent_from(bytes@, line_start as int) == v@ + indent_from(bytes@, i as int),
        decreases bytes@.len() - i,
    {
        let c: char = if bytes[i] == 32u8 { ' ' } else { '\t' };
        assert(c == bytes@[i as int] as char);
        v.push(c);
        i = i + 1;
    }
    Some(v)
}

/// The end of the leading run of `use` items is the end line of its last item.
pub proof fn lemma_leading_use_end(items: Seq<ItemInfo>, k: int)
    requires
        1 <= k <= items.len(),
        forall|i: int| 0 <= i < k ==> (#[trigger] items[i]).kind is Use,
        k == items.len() || !(items[k].kind is Use),
    ensures
        leading_use_end(items) == Some(items[k - 1].end_line),
    decreases k,
{
    let rest = items.drop_first();
    if k == 1 {
        if rest.len() > 0 {
            assert(rest[0] == items[1]);
        }
        assert(leading_use_end(rest) is None);
    } else {
        assert forall|i: int| 0 <= i < k - 1 implies (#[trigger] rest[i]).kind is Use by {
            assert(rest[i] == items[i + 1]);
        }
        if k < items.len() {
            assert(rest[k - 1] == items[k]);
        }
        assert(items[0].kind is Use);
        lemma_leading_use_end(rest, k - 1);
        assert(rest[k - 2] == items[k - 1]);
    }
}

/// When an inline module's body starts with `use` declarations (its first
/// `k` items, the next one being something else), its new `use`
/// declarations go at the start of the line after the one on which the
/// last of them ends (or at the end of the text when there is no such
/// line), and the module counts as having `use` declarations.
pub proof fn law_mod_insert_after_leading_uses(
    mod_line: usize,
    items: Seq<ItemInfo>,
    bytes: Seq<u8>,
    offsets: Seq<usize>,
    k: int,
)
    requires
        1 <= k <= items.len(),
        forall|i: int| 0 <= i < k ==> (#[trigger] items[i]).kind is Use,
        k == items.len() || !(items[k].kind is Use),
    ensures
        mod_insert_spec(mod_line, items, bytes, offsets).0 == if items[k - 1].end_line < offsets.len() {
            offsets[items[k - 1].end_line as int]
        } else {
            bytes.len() as usize
        },
        mod_insert_spec(mod_line, items, bytes, offsets).2,
{
    lemma_leading_use_end(items, k);
}

/// End line of the last `use` item in the leading run of `use` items.
pub open spec fn leading_use_end(items: Seq<ItemInfo>) -> Option<usize>
    decreases items.len(),
{
    if items.len() == 0 || !(items[0].kind is Use) {
        None
    } else {
        match leading_use_end(items.drop_first()) {
            Some(l) => Some(l),
            None => Some(items[0].end_line),
        }
    }
}

/// End line of the last `use` item in the leading run of `use` items.
pub fn leading_use_end_line(items: &[ItemInfo]) -> (r: Option<usize>)
    ensures
        r == leading_use_end(items@),
{
    let mut last: Option<usize> = None;
    let mut i: usize = 0;
    assert(items@.skip(0) =~= items@);
    while i < items.len()
        invariant
            i <= items@.len(),
            forall|j: int| 0 <= j < i ==> items@[j].kind is Use,
            i == 0 ==> last is None,
            i > 0 ==> last == Some(items@[i - 1].end_line),
            leading_use_end(items@) == (match leading_use_end(items@.skip(i as int)) {
                Some(l) => Some(l),
                None => last,
            }),
        decreases items@.len() - i,
    {
        match &items[i].kind {
            ItemKind::Use(_) => {
                assert(items@.skip(i as int).drop_first() =~= items@.skip(i + 1));
                last = Some(items[i].end_line);
            },
            _ => {
                return last;
            },
        }
        i = i + 1;
    }
    last
}

/// Where new `use` declarations of an inline module go, their indentation,
/// and whether the module already starts with `use` declarations.
pub open spec fn mod_insert_spec(mod_line: usize, items: Seq<ItemInfo>, bytes: Seq<u8>, offsets: Seq<usize>) -> (
    usize,
    Seq<char>,
    bool,
) {
    let indent = if items.len() > 0 {
        match line_indent_spec(bytes, offsets, items[0].start_line as int) {
            Some(s) => s,
            None => "  "@,
        }
    } else {
        let base = match line_indent_spec(bytes, offsets, mod_line as int) {
            Some(s) => s,
            None => Seq::empty(),
        };
        base + "  "@
    };
    match leading_use_end(items) {
        Some(end) => (if end < offsets.len() { offsets[end as int] } else { bytes.len() as usize }, indent, true),
        None => if items.len() > 0 {
            (
                if items[0].start_line >= 1 && items[0].start_line - 1 < offsets.len() {
                    offsets[items[0].start_line - 1]
                } else {
                    0
                },
                indent,
                false,
            )
        } else {
            (if mod_line < offsets.len() { offsets[mod_line as int] } else { bytes.len() as usize }, indent, false)
        },
    }
}

/// Where new `use` declarations of an inline module that starts on
/// `mod_line` go, their indentation, and whether the module already starts
/// with `use` declarations.
pub fn find_mod_insert_pos_and_indent(
    mod_line: usize,
    items: &[ItemInfo],
    source: &str,
    line_offsets: &[usize],
) -> (r: (usize, String, bool))
    ensures
        (r.0, r.1@, r.2) == mod_insert_spec(mod_line, items@, source.spec_bytes(), line_offsets@),
{
    let indent: Vec<char> = if items.len() > 0 {
        match line_indent(source, line_offsets, items[0].start_line) {
            Some(s) => s,
            None => chars_of("  "),
        }
    } else {
        let base = match line_indent(source, line_offsets, mod_line) {
            Some(s) => s,
            None => Vec::new(),
        };
        let two = chars_of("  ");
        crate::parser::scope::concat_chars(base.as_slice(), two.as_slice())
    };
    let indent_str = string_of(indent.as_slice());
    let len = source.len();
    match leading_use_end_line(items) {
        Some(end_line) => {
            let pos = if end_line < line_offsets.len() { line_offsets[end_line] } else { len };
            (pos, indent_str, true)
        },
        None => {
            if items.len() > 0 {
                let l = items[0].start_line;
                let pos = if l >= 1 && l - 1 < line_offsets.len() { line_offsets[l - 1] } else { 0 };
                (pos, indent_str, false)
            } else {
                let pos = if mod_line < line_offsets.len() { line_offsets[mod_line] } else { len };
                (pos, indent_str, false)
            }
        },
    }
}

/// Walks the events of a syntax tree and collects, module by module, the
/// qualified paths to shorten.
pub struct PathCollector<'a> {
    pub max_segments: usize,
    pub keep_segments: usize,
    pub allow_crates: &'a Vec<String>,
    pub known_crates: &'a Vec<String>,
    pub source: &'a str,
    pub line_offsets: &'a [usize],
    /// How many `use` declarations enclose the current node.
    pub use_depth: usize,
    /// How many attributes enclose the current node.
    pub attr_depth: usize,
    /// How many nodes with a `cfg` attribute enclose the current node.
    pub cfg_depth: usize,
    /// Local names in scope (parameters, pattern bindings, local items).
    pub local_idents: Vec<String>,
    /// For each open region that binds local names, how many local names
    /// were in scope when it opened.
    pub local_marks: Vec<usize>,
    /// The modules being walked, innermost last.
    pub module_stack: Vec<ModuleContext>,
    /// The modules whose walk is over.
    pub modules: Vec<ModuleContext>,
}

/// The abstract state of a collector: use, attribute and cfg depths, local
/// names, local marks, the module stack and the finished modules.
pub type CollectorView = (usize, usize, usize, Seq<Seq<char>>, Seq<usize>, Seq<ModuleView>, Seq<ModuleView>);

impl<'a> View for PathCollector<'a> {
    type V = CollectorView;

    open spec fn view(&self) -> CollectorView {
        (
            self.use_depth,
            self.attr_depth,
            self.cfg_depth,
            self.local_idents.deep_view(),
            self.local_marks@,
            module_views(self.module_stack@),
            module_views(self.modules@),
        )
    }
}

pub open spec fn inc(n: usize) -> usize {
    if n < usize::MAX {
        (n + 1) as usize
    } else {
        n
    }
}

pub open spec fn dec(n: usize) -> usize {
    if n > 0 {
        (n - 1) as usize
    } else {
        n
    }
}

/// The module context opened for an inline module inside the module stack `stack`.
pub open spec fn opened_module(stack: Seq<ModuleView>, info: ModInfo, bytes: Seq<u8>, offsets: Seq<usize>) -> ModuleView {
    let (pos, indent, has_use) = mod_insert_spec(info.start_line, info.items@, bytes, offsets);
    let scope = if stack.len() > 0 {
        crate::parser::scope::child_scope_spec(stack.last().3, info.items@)
    } else {
        collect_items_spec(info.items@)
    };
    (pos, indent, has_use, scope, Seq::empty())
}

/// What a collector was made with: the longest path left alone, the
/// segments a shortened path keeps, the crates left qualified, the known
/// crates, the source's bytes and its line offsets.
pub type CollectorSettings = (usize, usize, Seq<Seq<char>>, Seq<Seq<char>>, Seq<u8>, Seq<usize>);

/// The state after the event `ev`.
pub open spec fn collect_step(cfg: CollectorSettings, st: CollectorView, ev: VisitEvent) -> CollectorView {
    let (ud, ad, cd, locals, marks, stack, done) = st;
    match ev {
        VisitEvent::EnterCfg => (ud, ad, inc(cd), locals, marks, stack, done),
        VisitEvent::ExitCfg => (ud, ad, dec(cd), locals, marks, stack, done),
        VisitEvent::EnterUse => (inc(ud), ad, cd, locals, marks, stack, done),
        VisitEvent::ExitUse => (dec(ud), ad, cd, locals, marks, stack, done),
        VisitEvent::EnterAttr => (ud, inc(ad), cd, locals, marks, stack, done),
        VisitEvent::ExitAttr => (ud, dec(ad), cd, locals, marks, stack, done),
        VisitEvent::OpenLocals => (ud, ad, cd, locals, marks.push(locals.len() as usize), stack, done),
        VisitEvent::CloseLocals => if marks.len() > 0 {
            let m = marks.last();
            (
                ud,
                ad,
                cd,
                if m <= locals.len() { locals.take(m as int) } else { locals },
                marks.drop_last(),
                stack,
                done,
            )
        } else {
            st
        },
        VisitEvent::Local(name) => (ud, ad, cd, locals.push(name@), marks, stack, done),
        VisitEvent::EnterMod(info) => (
            ud,
            ad,
            cd,
            locals,
            marks,
            stack.push(opened_module(stack, info, cfg.4, cfg.5)),
            done,
        ),
        VisitEvent::ExitMod => if stack.len() > 0 {
            (ud, ad, cd, locals, marks, stack.drop_last(), done.push(stack.last()))
        } else {
            st
        },
        VisitEvent::Path(p) => if ud == 0 && ad == 0 && stack.len() > 0 {
            let m = stack.last();
            match inspect_spec(
                cfg.0,
                cfg.1,
                cfg.2,
                cfg.3,
                cd,
                locals,
                m.3,
                p.leading_colon,
                p.segments.deep_view(),
                (p.span.line, p.span.column),
            ) {
                Some(q) => (
                    ud,
                    ad,
                    cd,
                    locals,
                    marks,
                    stack.update(stack.len() - 1, (m.0, m.1, m.2, m.3, m.4.push(q))),
                    done,
                ),
                None => st,
            }
        } else {
            st
        },
    }
}

/// The state after the events `evs`, one after the other.
pub open spec fn collect_replay(cfg: CollectorSettings, st: CollectorView, evs: Seq<VisitEvent>) -> CollectorView
    decreases evs.len(),
{
    if evs.len() == 0 {
        st
    } else {
        collect_replay(cfg, collect_step(cfg, st, evs[0]), evs.drop_first())
    }
}

/// The insertion point of an inline module is a character boundary of the source.
pub proof fn lemma_mod_insert_fit(mod_line: usize, items: Seq<ItemInfo>, b: Seq<u8>, offsets: Seq<usize>)
    requires
        valid_utf8(b),
        offsets_wf(b, offsets),
        b.len() <= usize::MAX,
    ensures
        mod_insert_spec(mod_line, items, b, offsets).0 <= b.len(),
        is_char_boundary(b, mod_insert_spec(mod_line, items, b, offsets).0 as int),
{
    is_char_boundary_start_end_of_seq(b);
}

/// Each event keeps every module's insertion point a character boundary of the source.
pub proof fn lemma_step_fit(cfg: CollectorSettings, st: CollectorView, ev: VisitEvent)
    requires
        valid_utf8(cfg.4),
        offsets_wf(cfg.4, cfg.5),
        cfg.4.len() <= usize::MAX,
        modules_fit(cfg.4, st.5),
        modules_fit(cfg.4, st.6),
    ensures
        modules_fit(cfg.4, collect_step(cfg, st, ev).5),
        modules_fit(cfg.4, collect_step(cfg, st, ev).6),
{
    let st2 = collect_step(cfg, st, ev);
    let b = cfg.4;
    match ev {
        VisitEvent::EnterMod(info) => {
            lemma_mod_insert_fit(info.start_line, info.items@, b, cfg.5);
            assert forall|i: int| 0 <= i < st2.5.len() implies (#[trigger] st2.5[i]).0 <= b.len() && is_char_boundary(
                b,
                st2.5[i].0 as int,
            ) by {
                if i < st.5.len() {
                    assert(st2.5[i] == st.5[i]);
                }
            }
        },
        VisitEvent::ExitMod => {
            if st.5.len() > 0 {
                assert forall|i: int| 0 <= i < st2.5.len() implies (#[trigger] st2.5[i]).0 <= b.len() && is_char_boundary(
                    b,
                    st2.5[i].0 as int,
                ) by {
                    assert(st2.5[i] == st.5[i]);
                }
                assert forall|i: int| 0 <= i < st2.6.len() implies (#[trigger] st2.6[i]).0 <= b.len() && is_char_boundary(
                    b,
                    st2.6[i].0 as int,
                ) by {
                    if i < st.6.len() {
                        assert(st2.6[i] == st.6[i]);
                    } else {
                        assert(st2.6[i] == st.5[st.5.len() - 1]);
                    }
                }
            }
        },
        VisitEvent::Path(p) => {
            assert forall|i: int| 0 <= i < st2.5.len() implies (#[trigger] st2.5[i]).0 <= b.len() && is_char_boundary(
                b,
                st2.5[i].0 as int,
            ) by {
                assert(st2.5[i].0 == st.5[i].0);
            }
        },
        _ => {},
    }
}

/// Every event of a walk keeps every module's insertion point a character
/// boundary of the source.
pub proof fn lemma_replay_fit(cfg: CollectorSettings, st: CollectorView, evs: Seq<VisitEvent>)
    requires
        valid_utf8(cfg.4),
        offsets_wf(cfg.4, cfg.5),
        cfg.4.len() <= usize::MAX,
        modules_fit(cfg.4, st.5),
        modules_fit(cfg.4, st.6),
    ensures
        modules_fit(cfg.4, collect_replay(cfg, st, evs).5),
        modules_fit(cfg.4, collect_replay(cfg, st, evs).6),
    decreases evs.len(),
{
    if evs.len() > 0 {
        lemma_step_fit(cfg, st, evs[0]);
        lemma_replay_fit(cfg, collect_step(cfg, st, evs[0]), evs.drop_first());
    }
}

impl<'a> PathCollector<'a> {
    /// The settings the collector was made with.
    pub open spec fn settings(&self) -> CollectorSettings {
        (
            self.max_segments,
            self.keep_segments,
            self.allow_crates.deep_view(),
            self.known_crates.deep_view(),
            self.source.spec_bytes(),
            self.line_offsets@,
        )
    }

    /// The state after the event `ev`.
    pub open spec fn step_spec(&self, st: CollectorView, ev: VisitEvent) -> CollectorView {
        collect_step(self.settings(), st, ev)
    }

    /// Does the collector keep the settings it was made with?
    pub open spec fn same_settings(&self, other: &PathCollector<'a>) -> bool {
        &&& self.max_segments == other.max_segments
        &&& self.keep_segments == other.keep_segments
        &&& self.allow_crates == other.allow_crates
        &&& self.known_crates == other.known_crates
        &&& self.source == other.source
        &&& self.line_offsets == other.line_offsets
    }

    /// A collector for a file whose top level is `root_module`.
    pub fn new(
        options: &'a crate::options::Options,
        known_crates: &'a Vec<String>,
        root_module: ModuleContext,
        source: &'a str,
        line_offsets: &'a [usize],
    ) -> (c: PathCollector<'a>)
        ensures
            c.max_segments == options.max_segments,
            c.keep_segments == options.keep_segments,
            c.allow_crates == &options.allow_crates,
            c.known_crates == known_crates,
            c.source == source,
            c.line_offsets == line_offsets,
            c@ == (0usize, 0usize, 0usize, Seq::<Seq<char>>::empty(), Seq::<usize>::empty(), seq![root_module@], Seq::<ModuleView>::empty()),
    {
        let mut stack: Vec<ModuleContext> = Vec::new();
        stack.push(root_module);
        let c = PathCollector {
            max_segments: options.max_segments,
            keep_segments: options.keep_segments,
            allow_crates: &options.allow_crates,
            known_crates,
            source,
            line_offsets,
            use_depth: 0,
            attr_depth: 0,
            cfg_depth: 0,
            local_idents: Vec::new(),
            local_marks: Vec::new(),
            module_stack: stack,
            modules: Vec::new(),
        };
        assert(module_views(c.module_stack@) =~= seq![root_module@]);
        assert(c.local_idents.deep_view() =~= Seq::<Seq<char>>::empty());
        assert(module_views(c.modules@) =~= Seq::<ModuleView>::empty());
        c
    }

    /// Records `path` in the innermost module, when it is to be shortened.
    pub(crate) fn inspect_path(&mut self, path: &PathInfo)
        requires
            path_info_wf(*path),
            old(self).use_depth == 0,
            old(self).attr_depth == 0,
        ensures
            final(self).same_settings(&*old(self)),
            final(self)@ == old(self).step_spec(old(self)@, VisitEvent::Path(*path)),
    {
        let n = self.module_stack.len();
        if n == 0 {
            return;
        }
        let found = inspect(
            self.max_segments,
            self.keep_segments,
            self.allow_crates,
            self.known_crates,
            self.cfg_depth,
            &self.local_idents,
            &self.module_stack[n - 1].scope,
            path,
        );
        match found {
            Some(q) => {
                let ghost old_stack = self.module_stack@;
                let mut m = self.module_stack.pop().unwrap();
                let ghost old_m = m;
                m.paths.push(q);
                assert(path_views(m.paths@) =~= path_views(old_m.paths@).push(q@));
                self.module_stack.push(m);
                assert(module_views(self.module_stack@) =~= module_views(old_stack).update(
                    n - 1,
                    (old_m@.0, old_m@.1, old_m@.2, old_m@.3, old_m@.4.push(q@)),
                ));
            },
            None => {},
        }
    }

    /// Applies one event of the walk.
    pub fn handle(&mut self, ev: &VisitEvent)
        requires
            event_wf(*ev),
        ensures
            final(self).same_settings(&*old(self)),
            final(self)@ == old(self).step_spec(old(self)@, *ev),
    {
        match ev {
            VisitEvent::EnterCfg => {
                if self.cfg_depth < usize::MAX {
                    self.cfg_depth = self.cfg_depth + 1;
                }
            },
            VisitEvent::ExitCfg => {
                if self.cfg_depth > 0 {
                    self.cfg_depth = self.cfg_depth - 1;
                }
            },
            VisitEvent::EnterUse => {
                if self.use_depth < usize::MAX {
                    self.use_depth = self.use_depth + 1;
                }
            },
            VisitEvent::ExitUse => {
                if self.use_depth > 0 {
                    self.use_depth = self.use_depth - 1;
                }
            },
            VisitEvent::EnterAttr => {
                if self.attr_depth < usize::MAX {
                    self.attr_depth = self.attr_depth + 1;
                }
            },
            VisitEvent::ExitAttr => {
                if self.attr_depth > 0 {
                    self.attr_depth = self.attr_depth - 1;
                }
            },
            VisitEvent::OpenLocals => {
                let n = self.local_idents.len();
                self.local_marks.push(n);
            },
            VisitEvent::CloseLocals => {
                let ghost old_locals = self.local_idents.deep_view();
                match self.local_marks.pop() {
                    Some(m) => {
                        self.local_idents.truncate(m);
                        proof {
                            if m <= old_locals.len() {
                                assert(self.local_idents.deep_view() =~= old_locals.take(m as int));
                            } else {
                                assert(self.local_idents.deep_view() =~= old_locals);
                            }
                        }
                    },
                    None => {},
                }
            },
            VisitEvent::Local(name) => {
                let ghost old_locals = self.local_idents.deep_view();
                self.local_idents.push(name.clone());
                assert(self.local_idents.deep_view() =~= old_locals.push(name@));
            },
            VisitEvent::EnterMod(info) => {
                let (insert_pos, indent, has_existing_use) = find_mod_insert_pos_and_indent(
                    info.start_line,
                    info.items.as_slice(),
                    self.source,
                    self.line_offsets,
                );
                let n = self.module_stack.len();
                let scope = if n > 0 {
                    crate::parser::scope::child_scope(&self.module_stack[n - 1].scope, info.items.as_slice())
                } else {
                    collect_items_scope(info.items.as_slice())
                };
                let ghost old_stack = self.module_stack@;
                let ctx = ModuleContext { insert_pos, indent, has_existing_use, scope, paths: Vec::new() };
                assert(path_views(ctx.paths@) =~= Seq::<PathView>::empty());
                self.module_stack.push(ctx);
                assert(module_views(self.module_stack@) =~= module_views(old_stack).push(ctx@));
            },
            VisitEvent::ExitMod => {
                let ghost old_stack = self.module_stack@;
                let ghost old_done = self.modules@;
                match self.module_stack.pop() {
                    Some(m) => {
                        self.modules.push(m);
                        assert(module_views(self.module_stack@) =~= module_views(old_stack).drop_last());
                        assert(module_views(self.modules@) =~= module_views(old_done).push(m@));
                    },
                    None => {},
                }
            },
            VisitEvent::Path(p) => {
                if self.use_depth == 0 && self.attr_depth == 0 {
                    self.inspect_path(p);
                }
            },
        }
    }

    /// All modules: the finished ones, then those still open, innermost first.
    pub fn finish(self) -> (modules: Vec<ModuleContext>)
        ensures
            module_views(modules@) == self@.6 + self@.5.reverse(),
    {
        let mut stack = self.module_stack;
        let mut modules = self.modules;
        let ghost s0 = module_views(stack@);
        let ghost d0 = module_views(modules@);
        while stack.len() > 0
            invariant
                d0 + s0.reverse() == module_views(modules@) + module_views(stack@).reverse(),
            decreases stack@.len(),
        {
            let ghost st = stack@;
            let ghost md = modules@;
            let m = stack.pop().unwrap();
            modules.push(m);
            proof {
                assert(module_views(stack@) =~= module_views(st).drop_last());
                assert(module_views(modules@) =~= module_views(md).push(m@));
                assert(module_views(st).reverse() =~= seq![m@] + module_views(stack@).reverse());
                assert(module_views(md).push(m@) + module_views(stack@).reverse() =~= module_views(md) + (
                seq![m@] + module_views(stack@).reverse()));
            }
        }
        assert(module_views(stack@).reverse() =~= Seq::<ModuleView>::empty());
        assert(module_views(modules@) + Seq::<ModuleView>::empty() =~= module_views(modules@));
        modules
    }
}

} // verus!
