//! The incremental cache: the files found clean under the current rules,
//! with the size and modification time they had then.
use vstd::prelude::*;

use crate::text::{chars_eq, chars_of};

verus! {

/// The size and modification time of a file.
#[derive(Clone, Copy, Debug, PartialEq, Eq, Structural)]
pub struct FileMeta {
    pub size: u64,
    pub mtime_secs: u64,
    pub mtime_nanos: u32,
}

/// The cache of a project: the hash of the rules it was made under, and
/// the files (by path relative to the project root) found clean, each once.
pub struct ProjectCache {
    pub config_hash: u64,
    pub clean_files: Vec<(String, FileMeta)>,
}

/// Index of the first entry for `path`, from `i` on.
pub open spec fn meta_index(entries: Seq<(String, FileMeta)>, path: Seq<char>, i: int) -> Option<int>
    decreases entries.len() - i,
{
    if i < 0 || i >= entries.len() {
        None
    } else if entries[i].0@ == path {
        Some(i)
    } else {
        meta_index(entries, path, i + 1)
    }
}

/// What the cache records for `path`.
pub open spec fn meta_get(entries: Seq<(String, FileMeta)>, path: Seq<char>) -> Option<FileMeta> {
    match meta_index(entries, path, 0) {
        Some(i) => Some(entries[i].1),
        None => None,
    }
}

proof fn lemma_meta_index(entries: Seq<(String, FileMeta)>, path: Seq<char>, i: int)
    requires
        0 <= i,
    ensures
        meta_index(entries, path, i) matches Some(j) ==> i <= j < entries.len() && entries[j].0@ == path && forall|x: int|
            i <= x < j ==> entries[x].0@ != path,
        meta_index(entries, path, i) is None ==> forall|x: int| i <= x < entries.len() ==> entries[x].0@ != path,
    decreases entries.len() - i,
{
    if i < entries.len() && entries[i].0@ != path {
        lemma_meta_index(entries, path, i + 1);
    }
}

proof fn lemma_meta_index_from(entries: Seq<(String, FileMeta)>, path: Seq<char>, s: int, i: int)
    requires
        0 <= s <= i <= entries.len(),
        forall|x: int| s <= x < i ==> entries[x].0@ != path,
    ensures
        meta_index(entries, path, s) == meta_index(entries, path, i),
    decreases i - s,
{
    if s < i {
        lemma_meta_index_from(entries, path, s + 1, i);
    }
}

impl ProjectCache {
    /// An empty cache made under the rules with hash `config_hash`.
    pub fn new(config_hash: u64) -> (c: ProjectCache)
        ensures
            c.config_hash == config_hash,
            forall|p: Seq<char>| meta_get(c.clean_files@, p) is None,
    {
        ProjectCache { config_hash, clean_files: Vec::new() }
    }

    fn index_of(&self, path: &str) -> (r: Option<usize>)
        ensures
            r is Some <==> meta_index(self.clean_files@, path@, 0) is Some,
            r matches Some(i) ==> meta_index(self.clean_files@, path@, 0) == Some(i as int) && i < self.clean_files@.len(),
    {
        let p = chars_of(path);
        let mut i: usize = 0;
        while i < self.clean_files.len()
            invariant
                i <= self.clean_files@.len(),
                p@ == path@,
                forall|x: int| 0 <= x < i ==> self.clean_files@[x].0@ != path@,
            decreases self.clean_files@.len() - i,
        {
            let e = chars_of(self.clean_files[i].0.as_str());
            if chars_eq(e.as_slice(), p.as_slice()) {
                proof {
                    lemma_meta_index_from(self.clean_files@, path@, 0, i as int);
                }
                return Some(i);
            }
            i = i + 1;
        }
        proof {
            lemma_meta_index_from(self.clean_files@, path@, 0, i as int);
        }
        None
    }

    /// What the cache records for `path`.
    pub fn get(&self, path: &str) -> (r: Option<FileMeta>)
        ensures
            r == meta_get(self.clean_files@, path@),
    {
        match self.index_of(path) {
            Some(i) => Some(self.clean_files[i].1),
            None => None,
        }
    }

    /// Records `meta` for `path`, replacing what was recorded for it.
    pub fn insert(&mut self, path: String, meta: FileMeta)
        ensures
            final(self).config_hash == old(self).config_hash,
            forall|p: Seq<char>| #[trigger] meta_get(final(self).clean_files@, p) == (if p == path@ {
                Some(meta)
            } else {
                meta_get(old(self).clean_files@, p)
            }),
    {
        let ghost old_entries = self.clean_files@;
        let ghost key = path@;
        match self.index_of(path.as_str()) {
            Some(i) => {
                self.clean_files.set(i, (path, meta));
                proof {
                    let new_entries = self.clean_files@;
                    assert forall|p: Seq<char>| #[trigger] meta_get(new_entries, p) == (if p == key {
                        Some(meta)
                    } else {
                        meta_get(old_entries, p)
                    }) by {
                        lemma_meta_index(old_entries, p, 0);
                        lemma_meta_index(new_entries, p, 0);
                        lemma_meta_index(old_entries, key, 0);
                        if p == key {
                            lemma_meta_index_from(new_entries, p, 0, i as int);
                        } else {
                            match meta_index(old_entries, p, 0) {
                                Some(j) => {
                                    lemma_meta_index_from(new_entries, p, 0, j);
                                },
                                None => {
                                    lemma_meta_index_from(new_entries, p, 0, new_entries.len() as int);
                                },
                            }
                        }
                    }
                }
            },
            None => {
                self.clean_files.push((path, meta));
                proof {
                    let new_entries = self.clean_files@;
                    assert forall|p: Seq<char>| #[trigger] meta_get(new_entries, p) == (if p == key {
                        Some(meta)
                    } else {
                        meta_get(old_entries, p)
                    }) by {
                        lemma_meta_index(old_entries, p, 0);
                        lemma_meta_index(old_entries, key, 0);
                        match meta_index(old_entries, p, 0) {
                            Some(j) => {
                                lemma_meta_index_from(new_entries, p, 0, j);
                            },
                            None => {
                                lemma_meta_index_from(new_entries, p, 0, old_entries.len() as int);
                                assert(new_entries[old_entries.len() as int].0@ == key);
                                if p != key {
                                    assert(meta_index(new_entries, p, old_entries.len() + 1int) is None);
                                }
                            },
                        }
                    }
                }
            },
        }
    }
}

/// The cache to use under the rules with hash `expected`: the cache read
/// back when it was made under those rules, else an empty one.
pub fn cache_for_config(loaded: Option<ProjectCache>, expected: u64) -> (c: ProjectCache)
    ensures
        c.config_hash == expected,
        (loaded matches Some(l) && l.config_hash == expected) ==> c == loaded->0,
        !(loaded matches Some(l) && l.config_hash == expected) ==> forall|p: Seq<char>| meta_get(c.clean_files@, p) is None,
{
    match loaded {
        Some(c) => {
            if c.config_hash == expected {
                c
            } else {
                ProjectCache::new(expected)
            }
        },
        None => ProjectCache::new(expected),
    }
}

} // verus!
