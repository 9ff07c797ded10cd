//! Where a file's new `use` declarations go, and the totals of a run.
use vstd::prelude::*;
use vstd::string::StringSliceAdditionalSpecFns;
use vstd::utf8::{is_char_boundary, is_char_boundary_start_end_of_seq, valid_utf8};

use crate::cache::{FileMeta, ProjectCache, meta_get};
use crate::options::Options;
use crate::parser::collector::leading_use_end_line;
use crate::parser::collector::{leading_use_end, lemma_leading_use_end};
use crate::parser::file::ParsedFile;
use crate::parser::scope::{ItemInfo, ItemKind};
use crate::rewriter::{compute_line_offsets, line_offsets_spec, offsets_wf};

verus! {

/// The largest of the lines, or 0 when there is none.
pub open spec fn max_line(lines: Seq<usize>) -> usize
    decreases lines.len(),
{
    if lines.len() == 0 {
        0
    } else {
        let rest = max_line(lines.drop_last());
        if lines.last() > rest {
            lines.last()
        } else {
            rest
        }
    }
}

/// The line on which the first item that is not a `use` declaration starts.
pub open spec fn first_item_line(items: Seq<ItemInfo>) -> Option<usize>
    decreases items.len(),
{
    if items.len() == 0 {
        None
    } else if items[0].kind is Use {
        first_item_line(items.drop_first())
    } else {
        Some(items[0].start_line)
    }
}

/// When a file starts with `use` declarations (its first `k` items, the
/// next one being something else), its new `use` declarations go at the
/// start of the line after the one on which the last of them ends (a
/// declaration over several lines is never split), or at the end of the
/// text when there is no such line.
pub proof fn law_insert_after_leading_uses(
    attr_lines: Seq<usize>,
    items: Seq<ItemInfo>,
    len: nat,
    offsets: Seq<usize>,
    k: int,
)
    requires
        1 <= k <= items.len(),
        forall|i: int| 0 <= i < k ==> (#[trigger] items[i]).kind is Use,
        k == items.len() || !(items[k].kind is Use),
    ensures
        top_insert_spec(attr_lines, items, len, offsets) == if items[k - 1].end_line < offsets.len() {
            offsets[items[k - 1].end_line as int]
        } else {
            len as usize
        },
{
    lemma_leading_use_end(items, k);
}

/// Where the file's new `use` declarations go: after its leading `use`
/// declarations; else at the start of the line of its first other item, but
/// not before the line after its inner attributes; else after the inner
/// attributes; else at the start.
pub open spec fn top_insert_spec(attr_lines: Seq<usize>, items: Seq<ItemInfo>, len: nat, offsets: Seq<usize>) -> usize {
    match leading_use_end(items) {
        Some(line) => if line < offsets.len() {
            offsets[line as int]
        } else {
            len as usize
        },
        None => {
            let m = max_line(attr_lines);
            let attr_pos = if m > 0 && m < offsets.len() {
                Some(offsets[m as int])
            } else {
                None
            };
            match first_item_line(items) {
                Some(line) if line >= 1 && line - 1 < offsets.len() => {
                    let pos = offsets[line - 1];
                    match attr_pos {
                        Some(a) => if a > pos {
                            a
                        } else {
                            pos
                        },
                        None => pos,
                    }
                },
                _ => match attr_pos {
                    Some(a) => a,
                    None => 0,
                },
            }
        },
    }
}

fn max_attr_line(lines: &[usize]) -> (r: usize)
    ensures
        r == max_line(lines@),
{
    let mut m: usize = 0;
    let mut i: usize = 0;
    assert(lines@.take(0) =~= Seq::<usize>::empty());
    while i < lines.len()
        invariant
            i <= lines@.len(),
            m == max_line(lines@.take(i as int)),
        decreases lines@.len() - i,
    {
        assert(lines@.take(i + 1).drop_last() =~= lines@.take(i as int));
        if lines[i] > m {
            m = lines[i];
        }
        i = i + 1;
    }
    assert(lines@.take(lines@.len() as int) =~= lines@);
    m
}

fn first_item_start_line(items: &[ItemInfo]) -> (r: Option<usize>)
    ensures
        r == first_item_line(items@),
{
    let mut i: usize = 0;
    assert(items@.skip(0) =~= items@);
    while i < items.len()
        invariant
            i <= items@.len(),
            first_item_line(items@) == first_item_line(items@.skip(i as int)),
        decreases items@.len() - i,
    {
        assert(items@.skip(i as int)[0] == items@[i as int]);
        match &items[i].kind {
            ItemKind::Use(_) => {
                assert(items@.skip(i as int).drop_first() =~= items@.skip(i + 1));
            },
            _ => {
                return Some(items[i].start_line);
            },
        }
        i = i + 1;
    }
    None
}

/// Where the file's new `use` declarations go, with the line offsets
/// already computed.
pub fn find_top_level_insert_pos_with_offsets(file: &ParsedFile, source: &str, line_offsets: &[usize]) -> (r: usize)
    ensures
        r == top_insert_spec(file.inner_attr_end_lines@, file.items@, source.spec_bytes().len(), line_offsets@),
{
    let len = source.as_bytes().len();
    match leading_use_end_line(file.items.as_slice()) {
        Some(line) => {
            return if line < line_offsets.len() {
                line_offsets[line]
            } else {
                len
            };
        },
        None => {},
    }
    let m = max_attr_line(file.inner_attr_end_lines.as_slice());
    let attr_pos = if m > 0 && m < line_offsets.len() {
        Some(line_offsets[m])
    } else {
        None
    };
    match first_item_start_line(file.items.as_slice()) {
        Some(line) => {
            if line >= 1 && line - 1 < line_offsets.len() {
                let pos = line_offsets[line - 1];
                return match attr_pos {
                    Some(a) => if a > pos {
                        a
                    } else {
                        pos
                    },
                    None => pos,
                };
            }
        },
        None => {},
    }
    match attr_pos {
        Some(a) => a,
        None => 0,
    }
}

/// Where the file's new `use` declarations go.
pub fn find_top_level_insert_pos(file: &ParsedFile, source: &str) -> (r: usize)
    ensures
        r == top_insert_spec(
            file.inner_attr_end_lines@,
            file.items@,
            source.spec_bytes().len(),
            line_offsets_spec(source.spec_bytes()),
        ),
{
    let line_offsets = compute_line_offsets(source);
    find_top_level_insert_pos_with_offsets(file, source, line_offsets.as_slice())
}

/// The top-level insertion point is a character boundary of the source.
pub proof fn lemma_top_insert_fit(attr_lines: Seq<usize>, items: Seq<ItemInfo>, b: Seq<u8>, offsets: Seq<usize>)
    requires
        valid_utf8(b),
        offsets_wf(b, offsets),
        b.len() <= usize::MAX,
    ensures
        top_insert_spec(attr_lines, items, b.len(), offsets) <= b.len(),
        is_char_boundary(b, top_insert_spec(attr_lines, items, b.len(), offsets) as int),
{
    is_char_boundary_start_end_of_seq(b);
}

/// The totals of a run over files.
pub struct ProcessSummary {
    /// Files that changed (or would change).
    pub changed_files: usize,
    /// Files looked at.
    pub total_files: usize,
    /// Paths shortened over all files.
    pub total_replacements: usize,
}

impl Default for ProcessSummary {
    fn default() -> (s: ProcessSummary)
        ensures
            s.changed_files == 0,
            s.total_files == 0,
            s.total_replacements == 0,
    {
        ProcessSummary { changed_files: 0, total_files: 0, total_replacements: 0 }
    }
}

impl ProcessSummary {
    /// Counts a file that changed with `replacements` paths shortened.
    pub fn count_changed(&mut self, replacements: usize)
        requires
            old(self).changed_files < usize::MAX,
            old(self).total_replacements + replacements <= usize::MAX,
        ensures
            final(self).changed_files == old(self).changed_files + 1,
            final(self).total_replacements == old(self).total_replacements + replacements,
            final(self).total_files == old(self).total_files,
    {
        self.changed_files = self.changed_files + 1;
        self.total_replacements = self.total_replacements + replacements;
    }
}

/// Can the file be skipped: the cache is in use, and it records the file
/// (by its path relative to the project root) with the size and
/// modification time it has now?
pub fn is_cached_clean(cache: &ProjectCache, options: &Options, rel_path: Option<&str>, meta: Option<FileMeta>) -> (r:
    bool)
    ensures
        r == (!options.no_cache && meta is Some && rel_path is Some && meta_get(cache.clean_files@, rel_path->0@)
            == meta),
{
    if options.no_cache {
        return false;
    }
    match (rel_path, meta) {
        (Some(p), Some(m)) => match cache.get(p) {
            Some(c) => c == m,
            None => false,
        },
        _ => false,
    }
}

/// Records a file found (or made) clean, when the cache is in use and the
/// file's size and modification time are known.
pub fn remember_clean(cache: &mut ProjectCache, options: &Options, rel_path: String, meta: Option<FileMeta>)
    ensures
        final(cache).config_hash == old(cache).config_hash,
        forall|p: Seq<char>| #[trigger] meta_get(final(cache).clean_files@, p) == (if !options.no_cache && meta is Some
            && p == rel_path@ {
            meta
        } else {
            meta_get(old(cache).clean_files@, p)
        }),
{
    if !options.no_cache {
        match meta {
            Some(m) => cache.insert(rel_path, m),
            None => {},
        }
    }
}

/// Is the cache saved at the end of a run: when it is in use and files are
/// written back, or when no file changed?
pub fn should_save_cache(options: &Options, changed_files: usize) -> (r: bool)
    ensures
        r == ((!options.no_cache && !options.dry_run) || changed_files == 0),
{
    (!options.no_cache && options.should_write()) || changed_files == 0
}

/// How a run ends.
pub enum RunEnd {
    /// Check mode found files to change: fail, reporting how many when
    /// details are shown.
    Fail { report: bool },
    /// Details are shown and nothing was written: tell how many files can
    /// be simplified.
    Hint,
    /// Nothing more to say.
    Done,
}

/// How a run with the totals `summary` ends, given whether details are shown.
pub fn finish_decision(summary: &ProcessSummary, options: &Options, show_details: bool) -> (r: RunEnd)
    ensures
        (options.check && summary.changed_files > 0) ==> r == (RunEnd::Fail { report: show_details }),
        !(options.check && summary.changed_files > 0) && show_details && options.dry_run && summary.changed_files > 0
            ==> r == RunEnd::Hint,
        !(options.check && summary.changed_files > 0) && !(show_details && options.dry_run && summary.changed_files > 0)
            ==> r == RunEnd::Done,
{
    if options.check && summary.changed_files > 0 {
        return RunEnd::Fail { report: show_details };
    }
    if show_details && !options.should_write() && summary.changed_files > 0 {
        return RunEnd::Hint;
    }
    RunEnd::Done
}

} // verus!
