use vstd::prelude::*;
use vstd::string::StringSliceAdditionalSpecFns;
use vstd::utf8::encode_utf8_valid_utf8;

mod cache;
mod config;
mod hash;
mod i18n;
mod manifest;
mod options;
mod parser;
mod rewriter;
mod runner;
mod sets;
mod sort;
mod text;

pub use cache::{FileMeta, ProjectCache, cache_for_config};
pub use config::TomlValue;
pub use i18n::{I18n, Lang, detect_lang, match_locale_str, msg_for_lang};
pub use manifest::{
    builtin_crates, collect_project_crates, collect_project_crates_from_texts, extract_crates_from_cargo_table,
    insert_crate_name,
};
pub use options::Options;
pub use parser::{
    FileScope, ItemInfo, ItemKind, LineColumn, ModInfo, ModuleContext, ParsedFile, PathCollector,
    PathInfo, QualifiedPath, UseTree, VisitEvent, attr_is_ident, collect_file_scope, has_cfg,
    has_no_implicit_prelude,
};
pub use rewriter::{
    RewriteResult, compute_line_offsets, rewrite_modules_with_offsets, rewrite_source,
    rewrite_source_with_offsets,
};
pub use rewriter::naming::{generate_alias_candidates, to_pascal_case, to_pascal_case_in};
pub use runner::{
    ProcessSummary, RunEnd, finish_decision, find_top_level_insert_pos, find_top_level_insert_pos_with_offsets,
    is_cached_clean, remember_clean, should_save_cache,
};

use manifest::builtin_crates_spec;
use parser::collector::{CollectorSettings, CollectorView, ModuleView, collect_replay, collect_step, lemma_replay_fit, module_views};
use parser::scope::collect_items_spec;
use rewriter::{
    lemma_line_offsets_wf, line_offsets_spec, modules_fit, rewrite_matches, rewrite_spec,
    root_module,
};
use runner::{lemma_top_insert_fit, top_insert_spec};
use sets::copy_strings;

verus! {

/// The state of the path collection before the walk: the file's top level
/// as the only open module.
pub open spec fn start_state(file: &ParsedFile, b: Seq<u8>) -> CollectorView {
    let offsets = line_offsets_spec(b);
    let scope = collect_items_spec(file.items@);
    let pos = top_insert_spec(file.inner_attr_end_lines@, file.items@, b.len(), offsets);
    (0usize, 0usize, 0usize, Seq::empty(), Seq::empty(), seq![root_module(pos, scope, Seq::empty())], Seq::empty())
}

/// The modules of the file `file` whose source is `b`, each with the
/// qualified paths to shorten in it: the modules whose walk ended, in the
/// order it ended, then those left open, innermost first.
pub open spec fn file_modules(
    file: &ParsedFile,
    b: Seq<u8>,
    max_segments: usize,
    keep_segments: usize,
    allow: Seq<Seq<char>>,
    known: Seq<Seq<char>>,
) -> Seq<ModuleView> {
    let st = collect_replay(
        (max_segments, keep_segments, allow, known, b, line_offsets_spec(b)),
        start_state(file, b),
        file.events@,
    );
    st.6 + st.5.reverse()
}

/// The rewriting of the file: `None` when no module has a path to shorten,
/// else the rewriting of its modules.
pub open spec fn fix_spec(
    file: &ParsedFile,
    b: Seq<u8>,
    max_segments: usize,
    keep_segments: usize,
    allow: Seq<Seq<char>>,
    known: Seq<Seq<char>>,
) -> Option<(Seq<u8>, Seq<(Seq<char>, Seq<char>)>)> {
    let ms = file_modules(file, b, max_segments, keep_segments, allow, known);
    if forall|i: int| 0 <= i < ms.len() ==> (#[trigger] ms[i]).4.len() == 0 {
        None
    } else {
        rewrite_spec(b, line_offsets_spec(b), ms)
    }
}

/// Does the collection leave the path alone: is it no longer than the
/// limit, under `self` or `super`, or of an allowed crate?
pub open spec fn path_left_alone(max_segments: usize, allow: Seq<Seq<char>>, p: PathInfo) -> bool {
    let segs = p.segments.deep_view();
    segs.len() <= max_segments || segs[0] == "self"@ || segs[0] == "super"@ || allow.contains(segs[0])
}

/// Do the modules hold no path to shorten?
pub open spec fn no_paths(ms: Seq<ModuleView>) -> bool {
    forall|i: int| 0 <= i < ms.len() ==> (#[trigger] ms[i]).4.len() == 0
}

/// Walking events whose paths are all left alone adds no path to any module.
proof fn lemma_replay_no_paths(cfg: CollectorSettings, st: CollectorView, evs: Seq<VisitEvent>)
    requires
        no_paths(st.5),
        no_paths(st.6),
        forall|i: int|
            0 <= i < evs.len() ==> (#[trigger] evs[i] matches VisitEvent::Path(p) ==> path_left_alone(cfg.0, cfg.2, p)),
    ensures
        no_paths(collect_replay(cfg, st, evs).5),
        no_paths(collect_replay(cfg, st, evs).6),
    decreases evs.len(),
{
    if evs.len() > 0 {
        let ev = evs[0];
        let st1 = collect_step(cfg, st, ev);
        let (ud, ad, cd, locals, marks, stack, done) = st;
        match ev {
            VisitEvent::Path(p) => {
                if ud == 0 && ad == 0 && stack.len() > 0 {
                    let m = stack.last();
                    parser::collector::law_untouched_paths(
                        cfg.0,
                        cfg.1,
                        cfg.2,
                        cfg.3,
                        cd,
                        locals,
                        m.3,
                        p.leading_colon,
                        p.segments.deep_view(),
                        (p.span.line, p.span.column),
                    );
                }
                assert(st1 == st);
            },
            VisitEvent::EnterMod(info) => {
                let m = parser::collector::opened_module(stack, info, cfg.4, cfg.5);
                assert(st1.5 == stack.push(m));
                assert forall|i: int| 0 <= i < st1.5.len() implies (#[trigger] st1.5[i]).4.len() == 0 by {
                    if i < stack.len() {
                        assert(st1.5[i] == stack[i]);
                    }
                }
            },
            VisitEvent::ExitMod => {
                if stack.len() > 0 {
                    assert forall|i: int| 0 <= i < st1.5.len() implies (#[trigger] st1.5[i]).4.len() == 0 by {
                        assert(st1.5[i] == stack[i]);
                    }
                    assert forall|i: int| 0 <= i < st1.6.len() implies (#[trigger] st1.6[i]).4.len() == 0 by {
                        if i < done.len() {
                            assert(st1.6[i] == done[i]);
                        } else {
                            assert(st1.6[i] == stack[stack.len() - 1]);
                        }
                    }
                }
            },
            _ => {},
        }
        let rest = evs.drop_first();
        assert forall|i: int|
            0 <= i < rest.len() implies (#[trigger] rest[i] matches VisitEvent::Path(p) ==> path_left_alone(cfg.0, cfg.2, p)) by {
            assert(rest[i] == evs[i + 1]);
        }
        lemma_replay_no_paths(cfg, st1, rest);
    }
}

/// A file whose paths are all left alone (each no longer than the limit,
/// relative, or of an allowed crate), as the paths of a rewritten file are,
/// gets no rewrite.
pub proof fn law_short_paths_no_rewrite(
    file: &ParsedFile,
    b: Seq<u8>,
    max_segments: usize,
    keep_segments: usize,
    allow: Seq<Seq<char>>,
    known: Seq<Seq<char>>,
)
    requires
        forall|i: int|
            0 <= i < file.events@.len() ==> (#[trigger] file.events@[i] matches VisitEvent::Path(p) ==> path_left_alone(
                max_segments,
                allow,
                p,
            )),
    ensures
        fix_spec(file, b, max_segments, keep_segments, allow, known) is None,
{
    let cfg = (max_segments, keep_segments, allow, known, b, line_offsets_spec(b));
    let st0 = start_state(file, b);
    assert(st0.5.len() == 1 && st0.5[0].4.len() == 0);
    lemma_replay_no_paths(cfg, st0, file.events@);
    let fin = collect_replay(cfg, st0, file.events@);
    let ms = file_modules(file, b, max_segments, keep_segments, allow, known);
    assert(ms == fin.6 + fin.5.reverse());
    assert forall|j: int| 0 <= j < ms.len() implies (#[trigger] ms[j]).4.len() == 0 by {
        if j < fin.6.len() {
            assert(ms[j] == fin.6[j]);
        } else {
            assert(ms[j] == fin.5[fin.5.len() - 1 - (j - fin.6.len())]);
        }
    }
}

/// Rewrites the parsed file `syntax` whose text is `source`, knowing the
/// crates `known_crates`: collects the qualified paths module by module and
/// shortens them; `None` when nothing changes.
pub fn fix_syntax_with_crates(
    syntax: &ParsedFile,
    source: &str,
    options: &Options,
    known_crates: &Vec<String>,
) -> (r: Option<RewriteResult>)
    requires
        syntax.wf(),
    ensures
        rewrite_matches(
            r,
            fix_spec(
                syntax,
                source.spec_bytes(),
                options.max_segments,
                options.keep_segments,
                options.allow_crates.deep_view(),
                known_crates.deep_view(),
            ),
        ),
{
    let ghost b = source.spec_bytes();
    let bytes = source.as_bytes();
    let n = bytes.len();
    let scope = collect_file_scope(syntax);
    let line_offsets = compute_line_offsets(source);
    let insert_pos = find_top_level_insert_pos_with_offsets(syntax, source, line_offsets.as_slice());
    let has_existing_use = scope.existing_use_paths.len() > 0;
    let root = ModuleContext { insert_pos, indent: String::new(), has_existing_use, scope, paths: Vec::new() };
    assert(root@ == root_module(insert_pos, collect_items_spec(syntax.items@), Seq::empty()));
    let mut collector = PathCollector::new(options, known_crates, root, source, line_offsets.as_slice());
    let ghost cfg = collector.settings();
    let ghost evs = syntax.events@;
    proof {
        encode_utf8_valid_utf8(source@);
        assert(b.len() == n);
        lemma_line_offsets_wf(b);
        lemma_top_insert_fit(syntax.inner_attr_end_lines@, syntax.items@, b, line_offsets@);
        assert(collector@ =~= start_state(syntax, b));
        lemma_replay_fit(cfg, collector@, evs);
        assert(evs.skip(0) =~= evs);
    }
    let mut i: usize = 0;
    while i < syntax.events.len()
        invariant
            i <= evs.len(),
            evs == syntax.events@,
            syntax.wf(),
            collector.settings() == cfg,
            collect_replay(cfg, start_state(syntax, b), evs) == collect_replay(cfg, collector@, evs.skip(i as int)),
        decreases evs.len() - i,
    {
        let ghost before = collector@;
        assert(evs.skip(i as int)[0] == evs[i as int]);
        assert(evs.skip(i as int).drop_first() =~= evs.skip(i + 1));
        collector.handle(&syntax.events[i]);
        i = i + 1;
    }
    proof {
        assert(evs.skip(i as int) =~= Seq::<VisitEvent>::empty());
    }
    let modules = collector.finish();
    let ghost ms = module_views(modules@);
    let mut has_paths = false;
    let mut k: usize = 0;
    while k < modules.len()
        invariant
            k <= modules@.len(),
            ms == module_views(modules@),
            has_paths <==> exists|j: int| 0 <= j < k && (#[trigger] ms[j]).4.len() > 0,
        decreases modules@.len() - k,
    {
        assert(ms[k as int].4.len() == modules@[k as int].paths@.len());
        if modules[k].paths.len() > 0 {
            has_paths = true;
        }
        k = k + 1;
    }
    if !has_paths {
        return None;
    }
    proof {
        let fin = collect_replay(cfg, start_state(syntax, b), evs);
        assert(ms == fin.6 + fin.5.reverse());
        assert forall|j: int| 0 <= j < ms.len() implies (#[trigger] ms[j]).0 <= b.len() && vstd::utf8::is_char_boundary(
            b,
            ms[j].0 as int,
        ) by {
            if j < fin.6.len() {
                assert(ms[j] == fin.6[j]);
            } else {
                assert(ms[j] == fin.5[fin.5.len() - 1 - (j - fin.6.len())]);
            }
        }
        assert(modules_fit(b, ms));
        rewriter::lemma_modules_fit_imports(b, line_offsets@, ms);
    }
    rewriter::rewrite_modules_with_offsets(source, line_offsets.as_slice(), modules.as_slice(), options)
}

/// Rewrites the parsed file `syntax` whose text is `source`, knowing the
/// crates of the standard distribution and the extra crates of the options;
/// a file that opts out of the prelude (`#![no_implicit_prelude]`) is left
/// alone.
pub fn fix_parsed(syntax: &ParsedFile, source: &str, options: &Options) -> (r: Option<RewriteResult>)
    requires
        syntax.wf(),
    ensures
        syntax.no_implicit_prelude ==> r is None,
        !syntax.no_implicit_prelude ==> rewrite_matches(
            r,
            fix_spec(
                syntax,
                source.spec_bytes(),
                options.max_segments,
                options.keep_segments,
                options.allow_crates.deep_view(),
                builtin_crates_spec() + options.extra_crates.deep_view(),
            ),
        ),
{
    if syntax.no_implicit_prelude {
        return None;
    }
    let mut known = builtin_crates();
    let mut extra = copy_strings(&options.extra_crates);
    let ghost k0 = known.deep_view();
    known.append(&mut extra);
    assert(known.deep_view() =~= k0 + options.extra_crates.deep_view());
    fix_syntax_with_crates(syntax, source, options, &known)
}

} // verus!
