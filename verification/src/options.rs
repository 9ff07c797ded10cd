//! The settings of a run.
use std::path::PathBuf;

use vstd::prelude::*;
use vstd::std_specs::convert::IntoSpec;

use vstd::utf8::encode_utf8;

use crate::config::{TomlValue, get_either, parse_toml_table, table_get_any, toml_table_of};
use crate::hash::{hash64, museair_hash, push_le_bytes, usize_le};
use crate::sets::{copy_strings, insert_text, lemma_set_insert_contains, set_insert};
use crate::sort::{isort, lemma_isort_permutation, lemma_lex_strict_total, lex_order, sort_strings};
use crate::text::chars_of;

verus! {

#[verifier::external_type_specification]
#[verifier::external_body]
pub struct ExPathBuf(PathBuf);

/// The settings of a run: what to process, how long a path may be, how much
/// of it to keep, and which crates keep their qualified paths.
pub struct Options {
    /// File or directory to process (by default the project root found by
    /// searching upwards for `Cargo.toml`).
    pub path: Option<PathBuf>,
    /// Only report, do not write the files back.
    pub dry_run: bool,
    /// Write the files back and format them (the default).
    pub write: bool,
    /// Exit with a non-zero status when some path needs shortening.
    pub check: bool,
    /// Paths with more segments than this are shortened (default 2, as in
    /// `clippy::absolute_paths`).
    pub max_segments: usize,
    /// How many trailing segments a shortened path keeps (default 1).
    pub keep_segments: usize,
    /// Crates whose paths are left qualified.
    pub allow_crates: Vec<String>,
    /// Extra crate names to recognise besides the project's dependencies.
    pub extra_crates: Vec<String>,
    /// Print no details of the changes.
    pub quiet: bool,
    /// Print the details of the changes even outside a terminal.
    pub show: bool,
    /// Print detailed logs.
    pub verbose: bool,
    /// Do not use the incremental cache.
    pub no_cache: bool,
}

impl Options {
    /// Do the two settings agree on everything but the target path?
    pub open spec fn same_but_path(&self, other: &Options) -> bool {
        &&& self.dry_run == other.dry_run
        &&& self.write == other.write
        &&& self.check == other.check
        &&& self.max_segments == other.max_segments
        &&& self.keep_segments == other.keep_segments
        &&& self.allow_crates@ == other.allow_crates@
        &&& self.extra_crates@ == other.extra_crates@
        &&& self.quiet == other.quiet
        &&& self.show == other.show
        &&& self.verbose == other.verbose
        &&& self.no_cache == other.no_cache
    }

    /// The default settings.
    pub open spec fn is_default(&self) -> bool {
        &&& self.path is None
        &&& !self.dry_run
        &&& self.write
        &&& !self.check
        &&& self.max_segments == 2
        &&& self.keep_segments == 1
        &&& self.allow_crates@.len() == 0
        &&& self.extra_crates@.len() == 0
        &&& !self.quiet
        &&& !self.show
        &&& !self.verbose
        &&& !self.no_cache
    }
}

impl Default for Options {
    fn default() -> (o: Options)
        ensures
            o.is_default(),
    {
        Options {
            path: None,
            dry_run: false,
            write: true,
            check: false,
            max_segments: 2,
            keep_segments: 1,
            allow_crates: Vec::new(),
            extra_crates: Vec::new(),
            quiet: false,
            show: false,
            verbose: false,
            no_cache: false,
        }
    }
}

impl Options {
    /// The default settings.
    pub fn new() -> (o: Options)
        ensures
            o.is_default(),
    {
        Options::default()
    }

    /// Sets the file or directory to process.
    pub fn path<P: Into<PathBuf>>(self, path: P) -> (o: Options)
        ensures
            o.same_but_path(&self),
            o.path is Some,
            P::obeys_into_spec() ==> o.path == Some(path.into_spec()),
    {
        let mut o = self;
        o.path = Some(path.into());
        o
    }

    /// Sets dry-run mode (report only, write nothing back).
    pub fn dry_run(self, dry_run: bool) -> (o: Options)
        ensures
            o == (Options { dry_run, ..self }),
    {
        let mut o = self;
        o.dry_run = dry_run;
        o
    }

    /// Sets check mode (exit with a non-zero status when a path needs shortening).
    pub fn check(self, check: bool) -> (o: Options)
        ensures
            o == (Options { check, ..self }),
    {
        let mut o = self;
        o.check = check;
        o
    }

    /// Sets how many segments a path may have before it is shortened.
    pub fn max_segments(self, max: usize) -> (o: Options)
        ensures
            o == (Options { max_segments: max, ..self }),
    {
        let mut o = self;
        o.max_segments = max;
        o
    }

    /// Sets how many trailing segments a shortened path keeps.
    pub fn keep_segments(self, keep: usize) -> (o: Options)
        ensures
            o == (Options { keep_segments: keep, ..self }),
    {
        let mut o = self;
        o.keep_segments = keep;
        o
    }

    /// Adds a crate whose paths are left qualified.
    pub fn allow_crate<S: Into<String>>(self, name: S) -> (o: Options)
        ensures
            o.path == self.path,
            o.allow_crates@.len() == self.allow_crates@.len() + 1,
            o.allow_crates@.drop_last() == self.allow_crates@,
            S::obeys_into_spec() ==> o.allow_crates@.last() == name.into_spec(),
            (Options { allow_crates: self.allow_crates, ..o }) == self,
    {
        let mut o = self;
        let n: String = name.into();
        o.allow_crates.push(n);
        proof {
            assert(o.allow_crates@.drop_last() =~= self.allow_crates@);
        }
        o
    }

    /// Adds an extra crate name to recognise.
    pub fn extra_crate<S: Into<String>>(self, name: S) -> (o: Options)
        ensures
            o.path == self.path,
            o.extra_crates@.len() == self.extra_crates@.len() + 1,
            o.extra_crates@.drop_last() == self.extra_crates@,
            S::obeys_into_spec() ==> o.extra_crates@.last() == name.into_spec(),
            (Options { extra_crates: self.extra_crates, ..o }) == self,
    {
        let mut o = self;
        let n: String = name.into();
        o.extra_crates.push(n);
        proof {
            assert(o.extra_crates@.drop_last() =~= self.extra_crates@);
        }
        o
    }

    /// Sets quiet mode (no details of the changes).
    pub fn quiet(self, quiet: bool) -> (o: Options)
        ensures
            o == (Options { quiet, ..self }),
    {
        let mut o = self;
        o.quiet = quiet;
        o
    }

    /// Sets whether the incremental cache is bypassed.
    pub fn no_cache(self, no_cache: bool) -> (o: Options)
        ensures
            o == (Options { no_cache, ..self }),
    {
        let mut o = self;
        o.no_cache = no_cache;
        o
    }

    /// Are the files written back? (always, unless in dry-run mode)
    pub fn should_write(&self) -> (r: bool)
        ensures
            r == !self.dry_run,
    {
        !self.dry_run
    }
}

impl Options {
    /// Adds crates whose paths are left qualified.
    pub fn allow_crates<S: Into<String>>(self, names: Vec<S>) -> (o: Options)
        ensures
            o.path == self.path,
            o.allow_crates@.len() == self.allow_crates@.len() + names@.len(),
            o.allow_crates@.take(self.allow_crates@.len() as int) == self.allow_crates@,
            S::obeys_into_spec() ==> forall|i: int|
                0 <= i < names@.len() ==> o.allow_crates@[self.allow_crates@.len() + i] == (#[trigger] names@[i]).into_spec(),
            (Options { allow_crates: self.allow_crates, ..o }) == self,
    {
        let mut o = self;
        let mut rest = names;
        let ghost all = rest@;
        let ghost base = o.allow_crates@;
        let total = rest.len();
        let mut k: usize = 0;
        while rest.len() > 0
            invariant
                all.len() == total,
                k + rest@.len() == all.len(),
                rest@ == all.skip(k as int),
                o.allow_crates@.len() == base.len() + k,
                o.allow_crates@.take(base.len() as int) == base,
                S::obeys_into_spec() ==> forall|i: int|
                    0 <= i < k ==> o.allow_crates@[base.len() + i] == (#[trigger] all[i]).into_spec(),
                (Options { allow_crates: self.allow_crates, ..o }) == self,
                base == self.allow_crates@,
            decreases rest@.len(),
        {
            let ghost before = o.allow_crates@;
            let first = rest.remove(0);
            assert(first == all[k as int]);
            let n: String = first.into();
            o.allow_crates.push(n);
            assert(rest@ =~= all.skip(k + 1));
            assert(o.allow_crates@.take(base.len() as int) =~= before.take(base.len() as int));
            k = k + 1;
        }
        o
    }

    /// The crates whose paths are left qualified, each once, in the order
    /// first given.
    pub fn allowed_crates_set(&self) -> (r: Vec<String>)
        ensures
            r.deep_view() == dedup(self.allow_crates.deep_view()),
    {
        let ghost v = self.allow_crates.deep_view();
        let mut r: Vec<String> = Vec::new();
        let mut i: usize = 0;
        assert(r.deep_view() =~= dedup(v.take(0)));
        while i < self.allow_crates.len()
            invariant
                i <= v.len(),
                v == self.allow_crates.deep_view(),
                r.deep_view() == dedup(v.take(i as int)),
            decreases v.len() - i,
        {
            let c = chars_of(self.allow_crates[i].as_str());
            assert(v.take(i + 1).drop_last() =~= v.take(i as int));
            assert(v.take(i + 1).last() == c@);
            insert_text(&mut r, c.as_slice());
            i = i + 1;
        }
        assert(v.take(v.len() as int) =~= v);
        r
    }

    /// Are the details of the changes printed, given whether the output
    /// goes to a terminal? Never in quiet mode; always when asked to show
    /// them or in verbose mode; else only on a terminal.
    pub fn should_show_details_for(&self, is_terminal: bool) -> (r: bool)
        ensures
            r == (!self.quiet && (self.show || self.verbose || is_terminal)),
    {
        if self.quiet {
            return false;
        }
        if self.show || self.verbose {
            return true;
        }
        is_terminal
    }
}

/// The keys of a clippy configuration that list the crates whose paths may stay absolute.
pub open spec fn allowed_crates_keys() -> Seq<Seq<char>> {
    seq!["absolute-paths-allowed-crates"@, "absolute_paths_allowed_crates"@]
}

/// The keys of a clippy configuration that give the longest path allowed.
pub open spec fn max_segments_keys() -> Seq<Seq<char>> {
    seq!["absolute-paths-max-segments"@, "absolute_paths_max_segments"@]
}

/// `allow` with the strings of `arr` added, each unless it is there already.
pub open spec fn merge_allowed(allow: Seq<Seq<char>>, arr: Seq<TomlValue>) -> Seq<Seq<char>>
    decreases arr.len(),
{
    if arr.len() == 0 {
        allow
    } else {
        let prev = merge_allowed(allow, arr.drop_last());
        match arr.last() {
            TomlValue::Str(s) => set_insert(prev, s@),
            _ => prev,
        }
    }
}

proof fn lemma_merge_allowed_grows(allow: Seq<Seq<char>>, arr: Seq<TomlValue>)
    ensures
        forall|x: Seq<char>| allow.contains(x) ==> #[trigger] merge_allowed(allow, arr).contains(x),
        forall|k: int| 0 <= k < arr.len() ==> (#[trigger] arr[k] matches TomlValue::Str(s) ==> merge_allowed(allow, arr).contains(s@)),
    decreases arr.len(),
{
    if arr.len() > 0 {
        let prev = merge_allowed(allow, arr.drop_last());
        lemma_merge_allowed_grows(allow, arr.drop_last());
        assert forall|x: Seq<char>| prev.contains(x) implies #[trigger] merge_allowed(allow, arr).contains(x) by {
            match arr.last() {
                TomlValue::Str(s) => lemma_set_insert_contains(prev, s@, x),
                _ => {},
            }
        }
        assert forall|k: int| 0 <= k < arr.len() implies (#[trigger] arr[k] matches TomlValue::Str(s) ==> merge_allowed(
            allow,
            arr,
        ).contains(s@)) by {
            if k < arr.len() - 1 {
                assert(arr[k] == arr.drop_last()[k]);
            } else {
                match arr.last() {
                    TomlValue::Str(s) => lemma_set_insert_contains(prev, s@, s@),
                    _ => {},
                }
            }
        }
    }
}

proof fn lemma_merge_allowed_stable(allow: Seq<Seq<char>>, arr: Seq<TomlValue>)
    requires
        forall|k: int| 0 <= k < arr.len() ==> (#[trigger] arr[k] matches TomlValue::Str(s) ==> allow.contains(s@)),
    ensures
        merge_allowed(allow, arr) == allow,
    decreases arr.len(),
{
    if arr.len() > 0 {
        assert forall|k: int| 0 <= k < arr.drop_last().len() implies (#[trigger] arr.drop_last()[k] matches TomlValue::Str(
            s,
        ) ==> allow.contains(s@)) by {
            assert(arr.drop_last()[k] == arr[k]);
        }
        lemma_merge_allowed_stable(allow, arr.drop_last());
        assert(arr[arr.len() - 1] == arr.last());
    }
}

/// Reading the same clippy configuration twice is reading it once: its
/// crates are not added again, and its limit is the same.
pub proof fn law_clippy_config_idempotent(allow: Seq<Seq<char>>, max: usize, t: Seq<(String, TomlValue)>)
    ensures
        clippy_allowed(clippy_allowed(allow, t), t) == clippy_allowed(allow, t),
        clippy_max_segments(clippy_max_segments(max, t), t) == clippy_max_segments(max, t),
{
    match table_get_any(t, allowed_crates_keys()) {
        Some(TomlValue::Array(arr)) => {
            lemma_merge_allowed_grows(allow, arr@);
            lemma_merge_allowed_stable(merge_allowed(allow, arr@), arr@);
        },
        _ => {},
    }
}

/// The allowed crates after reading the clippy configuration `t`.
pub open spec fn clippy_allowed(allow: Seq<Seq<char>>, t: Seq<(String, TomlValue)>) -> Seq<Seq<char>> {
    match table_get_any(t, allowed_crates_keys()) {
        Some(TomlValue::Array(arr)) => merge_allowed(allow, arr@),
        _ => allow,
    }
}

/// The longest path allowed after reading the clippy configuration `t`: a
/// positive integer there replaces it.
pub open spec fn clippy_max_segments(max: usize, t: Seq<(String, TomlValue)>) -> usize {
    match table_get_any(t, max_segments_keys()) {
        Some(TomlValue::Int(n)) => if n > 0 {
            n as usize
        } else {
            max
        },
        _ => max,
    }
}

impl Options {
    /// Merges the clippy configuration `config` (the table of a
    /// `clippy.toml`): its allowed crates join those of the options, and a
    /// positive longest path replaces theirs.
    pub fn apply_clippy_config(&mut self, config: &Vec<(String, TomlValue)>)
        ensures
            final(self).allow_crates.deep_view() == clippy_allowed(old(self).allow_crates.deep_view(), config@),
            final(self).max_segments == clippy_max_segments(old(self).max_segments, config@),
            (Options {
                allow_crates: old(self).allow_crates,
                max_segments: old(self).max_segments,
                ..*final(self)
            }) == *old(self),
    {
        let ghost keys = allowed_crates_keys();
        match get_either(config, "absolute-paths-allowed-crates", "absolute_paths_allowed_crates") {
            Some(TomlValue::Array(arr)) => {
                let ghost start = self.allow_crates.deep_view();
                let mut i: usize = 0;
                while i < arr.len()
                    invariant
                        i <= arr@.len(),
                        self.allow_crates.deep_view() == merge_allowed(start, arr@.take(i as int)),
                        (Options { allow_crates: old(self).allow_crates, ..*self }) == *old(self),
                        start == old(self).allow_crates.deep_view(),
                    decreases arr@.len() - i,
                {
                    assert(arr@.take(i + 1).drop_last() =~= arr@.take(i as int));
                    assert(arr@.take(i + 1).last() == arr@[i as int]);
                    match &arr[i] {
                        TomlValue::Str(s) => {
                            let c = chars_of(s.as_str());
                            insert_text(&mut self.allow_crates, c.as_slice());
                        },
                        _ => {},
                    }
                    i = i + 1;
                }
                assert(arr@.take(arr@.len() as int) =~= arr@);
            },
            _ => {},
        }
        match get_either(config, "absolute-paths-max-segments", "absolute_paths_max_segments") {
            Some(TomlValue::Int(n)) => {
                if *n > 0 {
                    self.max_segments = *n as usize;
                }
            },
            _ => {},
        }
    }

    /// Merges the clippy configuration whose text is `text` (a
    /// `clippy.toml`), as `apply_clippy_config` merges its table; text that
    /// is not valid TOML leaves the options as they are.
    pub fn apply_clippy_text(&mut self, text: &str)
        ensures
            match toml_table_of(text@) {
                Some(t) => final(self).allow_crates.deep_view() == clippy_allowed(old(self).allow_crates.deep_view(), t)
                    && final(self).max_segments == clippy_max_segments(old(self).max_segments, t) && (Options {
                    allow_crates: old(self).allow_crates,
                    max_segments: old(self).max_segments,
                    ..*final(self)
                }) == *old(self),
                None => *final(self) == *old(self),
            },
    {
        match parse_toml_table(text) {
            Some(t) => self.apply_clippy_config(&t),
            None => {},
        }
    }
}

/// Each text's UTF-8 bytes followed by the byte `tag`, one after the other.
pub open spec fn tagged(strs: Seq<Seq<char>>, tag: u8) -> Seq<u8>
    decreases strs.len(),
{
    if strs.len() == 0 {
        Seq::empty()
    } else {
        tagged(strs.drop_last(), tag) + encode_utf8(strs.last()) + seq![tag]
    }
}

/// The bytes that identify the rules of a run: the path limits, then the
/// allowed crates and the extra crates, each list sorted.
pub open spec fn config_bytes(o: &Options) -> Seq<u8> {
    usize_le(o.max_segments) + usize_le(o.keep_segments) + tagged(isort(o.allow_crates.deep_view(), lex_order()), 0u8)
        + tagged(isort(o.extra_crates.deep_view(), lex_order()), 1u8)
}

/// Appends each text's bytes followed by `tag`.
fn push_tagged(out: &mut Vec<u8>, strs: &Vec<String>, tag: u8)
    ensures
        final(out)@ == old(out)@ + tagged(strs.deep_view(), tag),
{
    let ghost v = strs.deep_view();
    let ghost start = out@;
    let mut i: usize = 0;
    assert(start + tagged(v.take(0), tag) =~= start);
    while i < strs.len()
        invariant
            i <= v.len(),
            v == strs.deep_view(),
            out@ == start + tagged(v.take(i as int), tag),
        decreases v.len() - i,
    {
        let bytes = strs[i].as_str().as_bytes();
        let mut j: usize = 0;
        let ghost mid = out@;
        while j < bytes.len()
            invariant
                j <= bytes@.len(),
                out@ == mid + bytes@.take(j as int),
            decreases bytes@.len() - j,
        {
            out.push(bytes[j]);
            j = j + 1;
            assert(out@ =~= mid + bytes@.take(j as int));
        }
        out.push(tag);
        assert(bytes@.take(bytes@.len() as int) =~= bytes@);
        assert(v.take(i + 1).drop_last() =~= v.take(i as int));
        assert(v.take(i + 1).last() == strs@[i as int]@);
        assert(out@ =~= start + tagged(v.take(i + 1), tag));
        i = i + 1;
    }
    assert(v.take(v.len() as int) =~= v);
}

impl Options {
    /// The hash of the rules of a run (path limits, allowed and extra
    /// crates), which tells whether a cache made under other rules is stale.
    pub fn config_hash(&self) -> (r: u64)
        ensures
            r == museair_hash(config_bytes(self)),
    {
        let mut bytes: Vec<u8> = Vec::new();
        push_le_bytes(&mut bytes, self.max_segments);
        push_le_bytes(&mut bytes, self.keep_segments);
        let allow = sort_strings(copy_strings(&self.allow_crates));
        push_tagged(&mut bytes, &allow, 0u8);
        let extra = sort_strings(copy_strings(&self.extra_crates));
        push_tagged(&mut bytes, &extra, 1u8);
        assert(bytes@ =~= config_bytes(self));
        hash64(bytes.as_slice())
    }
}

/// The hash of the rules does not depend on the order in which the allowed
/// and extra crates were given: two settings with the same limits and the
/// same crates (each as many times) have the same hash, so a cache stays
/// valid until the rules themselves change.
pub proof fn law_config_hash_order_free(a: &Options, b: &Options)
    requires
        a.max_segments == b.max_segments,
        a.keep_segments == b.keep_segments,
        a.allow_crates.deep_view().to_multiset() == b.allow_crates.deep_view().to_multiset(),
        a.extra_crates.deep_view().to_multiset() == b.extra_crates.deep_view().to_multiset(),
    ensures
        config_bytes(a) == config_bytes(b),
        museair_hash(config_bytes(a)) == museair_hash(config_bytes(b)),
{
    lemma_lex_strict_total();
    lemma_isort_permutation(a.allow_crates.deep_view(), b.allow_crates.deep_view(), lex_order());
    lemma_isort_permutation(a.extra_crates.deep_view(), b.extra_crates.deep_view(), lex_order());
}

/// The values of `v`, each once, in the order first met.
pub open spec fn dedup(v: Seq<Seq<char>>) -> Seq<Seq<char>>
    decreases v.len(),
{
    if v.len() == 0 {
        Seq::empty()
    } else {
        set_insert(dedup(v.drop_last()), v.last())
    }
}

/// The values kept once hold no value twice.
proof fn lemma_dedup_unique(v: Seq<Seq<char>>)
    ensures
        dedup(v).no_duplicates(),
    decreases v.len(),
{
    if v.len() > 0 {
        let prev = dedup(v.drop_last());
        lemma_dedup_unique(v.drop_last());
        if !prev.contains(v.last()) {
            let r = prev.push(v.last());
            assert forall|i: int, j: int| 0 <= i < r.len() && 0 <= j < r.len() && i != j implies r[i] != r[j] by {
                if i < prev.len() && j < prev.len() {
                    assert(r[i] == prev[i] && r[j] == prev[j]);
                } else if i < prev.len() {
                    assert(r[i] == prev[i]);
                } else if j < prev.len() {
                    assert(r[j] == prev[j]);
                }
            }
        }
    }
}

/// The set of allowed crates holds each allowed crate, once, and nothing else.
pub proof fn law_allowed_set(v: Seq<Seq<char>>)
    ensures
        forall|x: Seq<char>| #[trigger] dedup(v).contains(x) <==> v.contains(x),
        dedup(v).no_duplicates(),
{
    assert forall|x: Seq<char>| #[trigger] dedup(v).contains(x) <==> v.contains(x) by {
        lemma_dedup_contains(v, x);
    }
    lemma_dedup_unique(v);
}

/// The deduplicated values are exactly the values.
pub proof fn lemma_dedup_contains(v: Seq<Seq<char>>, x: Seq<char>)
    ensures
        dedup(v).contains(x) <==> v.contains(x),
    decreases v.len(),
{
    if v.len() > 0 {
        lemma_dedup_contains(v.drop_last(), x);
        lemma_set_insert_contains(dedup(v.drop_last()), v.last(), x);
        if v.drop_last().contains(x) {
            let i = choose|i: int| 0 <= i < v.drop_last().len() && v.drop_last()[i] == x;
            assert(v[i] == x);
        }
        if v.contains(x) && x != v.last() {
            let i = choose|i: int| 0 <= i < v.len() && v[i] == x;
            assert(v.drop_last()[i] == x);
        }
    }
}

} // verus!
