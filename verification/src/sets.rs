//! Sets and maps of strings kept in vectors: a set holds each value once, a
//! map holds each key once, and inserting an existing key replaces its value.
use vstd::prelude::*;

use crate::text::{chars_eq, chars_of, string_of};

verus! {

/// Adds `x` to the set `s` unless it is already there.
pub open spec fn set_insert(s: Seq<Seq<char>>, x: Seq<char>) -> Seq<Seq<char>> {
    if s.contains(x) {
        s
    } else {
        s.push(x)
    }
}

/// Index of the first entry of `ps` whose key is `k`, searching from `i`.
pub open spec fn key_index_from(ps: Seq<(Seq<char>, Seq<char>)>, k: Seq<char>, i: int) -> Option<int>
    decreases ps.len() - i,
{
    if i < 0 || i >= ps.len() {
        None
    } else if ps[i].0 == k {
        Some(i)
    } else {
        key_index_from(ps, k, i + 1)
    }
}

/// The value stored under `k` in the map `ps`.
pub open spec fn map_get(ps: Seq<(Seq<char>, Seq<char>)>, k: Seq<char>) -> Option<Seq<char>> {
    match key_index_from(ps, k, 0) {
        Some(i) => Some(ps[i].1),
        None => None,
    }
}

/// Stores `v` under `k`, replacing the value already stored there.
pub open spec fn map_insert(ps: Seq<(Seq<char>, Seq<char>)>, k: Seq<char>, v: Seq<char>) -> Seq<
    (Seq<char>, Seq<char>),
> {
    match key_index_from(ps, k, 0) {
        Some(i) => ps.update(i, (k, v)),
        None => ps.push((k, v)),
    }
}

/// Does the map `ps` store a value under `k`?
pub open spec fn map_has(ps: Seq<(Seq<char>, Seq<char>)>, k: Seq<char>) -> bool {
    key_index_from(ps, k, 0) is Some
}

pub proof fn lemma_key_index_from(ps: Seq<(Seq<char>, Seq<char>)>, k: Seq<char>, i: int)
    requires
        0 <= i,
    ensures
        key_index_from(ps, k, i) matches Some(j) ==> i <= j < ps.len() && ps[j].0 == k,
        key_index_from(ps, k, i) matches Some(j) ==> forall|x: int| i <= x < j ==> ps[x].0 != k,
        key_index_from(ps, k, i) is None ==> forall|j: int| i <= j < ps.len() ==> ps[j].0 != k,
    decreases ps.len() - i,
{
    if i < ps.len() && ps[i].0 != k {
        lemma_key_index_from(ps, k, i + 1);
    }
}

/// What a set holds after an insertion.
pub proof fn lemma_set_insert_contains(s: Seq<Seq<char>>, x: Seq<char>, y: Seq<char>)
    ensures
        set_insert(s, x).contains(y) <==> (s.contains(y) || y == x),
{
    if !s.contains(x) {
        let t = s.push(x);
        if s.contains(y) {
            let i = choose|i: int| 0 <= i < s.len() && s[i] == y;
            assert(t[i] == y);
        }
        if y == x {
            assert(t[s.len() as int] == y);
        }
        if t.contains(y) {
            let i = choose|i: int| 0 <= i < t.len() && t[i] == y;
            if i < s.len() {
                assert(s[i] == y);
            }
        }
    }
}

/// A set keeps each value once.
pub proof fn lemma_set_insert_unique(s: Seq<Seq<char>>, x: Seq<char>)
    requires
        s.no_duplicates(),
    ensures
        set_insert(s, x).no_duplicates(),
{
    if !s.contains(x) {
        let t = s.push(x);
        assert forall|i: int, j: int| 0 <= i < t.len() && 0 <= j < t.len() && i != j implies t[i] != t[j] by {
            if i < s.len() && j < s.len() {
                assert(t[i] == s[i] && t[j] == s[j]);
            } else if i < s.len() {
                assert(t[i] == s[i]);
            } else if j < s.len() {
                assert(t[j] == s[j]);
            }
        }
    }
}

/// Inserting a value twice is inserting it once.
pub proof fn lemma_set_insert_twice(s: Seq<Seq<char>>, x: Seq<char>)
    ensures
        set_insert(set_insert(s, x), x) == set_insert(s, x),
{
    lemma_set_insert_contains(s, x, x);
}

/// Reading a map after storing into it.
pub proof fn lemma_map_insert_get(ps: Seq<(Seq<char>, Seq<char>)>, k: Seq<char>, v: Seq<char>, k2: Seq<char>)
    ensures
        map_get(map_insert(ps, k, v), k2) == (if k2 == k {
            Some(v)
        } else {
            map_get(ps, k2)
        }),
{
    let m = map_insert(ps, k, v);
    lemma_key_index_from(ps, k, 0);
    lemma_key_index_from(ps, k2, 0);
    lemma_key_index_from(m, k2, 0);
    match key_index_from(ps, k, 0) {
        Some(i) => {
            if k2 != k {
                match key_index_from(ps, k2, 0) {
                    Some(j) => {
                        assert forall|x: int| 0 <= x < j implies m[x].0 != k2 by {
                            assert(ps[x].0 != k2);
                        }
                        lemma_key_index_skip(m, k2, j);
                    },
                    None => {},
                }
            } else {
                lemma_key_index_skip(m, k2, i);
            }
        },
        None => {
            match key_index_from(ps, k2, 0) {
                Some(j) => {
                    assert forall|x: int| 0 <= x < j implies m[x].0 != k2 by {
                        assert(ps[x].0 != k2);
                    }
                    lemma_key_index_skip(m, k2, j);
                },
                None => {
                    if k2 == k {
                        lemma_key_index_skip(m, k2, ps.len() as int);
                    }
                },
            }
        },
    }
}

proof fn lemma_key_index_skip(ps: Seq<(Seq<char>, Seq<char>)>, k: Seq<char>, i: int)
    requires
        0 <= i <= ps.len(),
        forall|j: int| 0 <= j < i ==> ps[j].0 != k,
    ensures
        key_index_from(ps, k, 0) == key_index_from(ps, k, i),
    decreases i,
{
    if i > 0 {
        lemma_key_index_skip_from(ps, k, 0, i);
    }
}

proof fn lemma_key_index_skip_from(ps: Seq<(Seq<char>, Seq<char>)>, k: Seq<char>, start: int, i: int)
    requires
        0 <= start <= i <= ps.len(),
        forall|j: int| start <= j < i ==> ps[j].0 != k,
    ensures
        key_index_from(ps, k, start) == key_index_from(ps, k, i),
    decreases i - start,
{
    if start < i {
        lemma_key_index_skip_from(ps, k, start + 1, i);
    }
}

/// Is `x` among the strings of `v`?
pub fn has_text(v: &Vec<String>, x: &[char]) -> (r: bool)
    ensures
        r == v.deep_view().contains(x@),
{
    let mut i: usize = 0;
    while i < v.len()
        invariant
            i <= v@.len(),
            forall|j: int| 0 <= j < i ==> v.deep_view()[j] != x@,
        decreases v@.len() - i,
    {
        let e = chars_of(v[i].as_str());
        if chars_eq(e.as_slice(), x) {
            assert(v.deep_view()[i as int] == x@);
            return true;
        }
        i = i + 1;
    }
    assert(!v.deep_view().contains(x@)) by {
        if v.deep_view().contains(x@) {
            let j = choose|j: int| 0 <= j < v.deep_view().len() && v.deep_view()[j] == x@;
            assert(v.deep_view()[j] != x@);
        }
    }
    false
}

/// Is `x` among the strings of `v`?
pub fn has_str(v: &Vec<String>, x: &str) -> (r: bool)
    ensures
        r == v.deep_view().contains(x@),
{
    let xs = chars_of(x);
    has_text(v, xs.as_slice())
}

/// Adds `x` to the set `v` unless it is already there.
pub fn insert_text(v: &mut Vec<String>, x: &[char])
    ensures
        final(v).deep_view() == set_insert(old(v).deep_view(), x@),
{
    if !has_text(v, x) {
        let s = string_of(x);
        v.push(s);
        assert(v.deep_view() =~= old(v).deep_view().push(x@));
    }
}

/// Index of the entry of the map `ps` whose key is `k`.
pub fn map_index(ps: &Vec<(String, String)>, k: &[char]) -> (r: Option<usize>)
    ensures
        r is Some <==> key_index_from(ps.deep_view(), k@, 0) is Some,
        r matches Some(i) ==> key_index_from(ps.deep_view(), k@, 0) == Some(i as int),
        r matches Some(i) ==> i < ps@.len(),
{
    let mut i: usize = 0;
    while i < ps.len()
        invariant
            i <= ps@.len(),
            forall|j: int| 0 <= j < i ==> ps.deep_view()[j].0 != k@,
        decreases ps@.len() - i,
    {
        let e = chars_of(ps[i].0.as_str());
        if chars_eq(e.as_slice(), k) {
            proof {
                lemma_key_index_skip(ps.deep_view(), k@, i as int);
            }
            return Some(i);
        }
        i = i + 1;
    }
    proof {
        lemma_key_index_skip(ps.deep_view(), k@, i as int);
    }
    None
}

/// The value stored under `k` in the map `ps`.
pub fn map_lookup(ps: &Vec<(String, String)>, k: &[char]) -> (r: Option<String>)
    ensures
        r is Some <==> map_get(ps.deep_view(), k@) is Some,
        r matches Some(s) ==> map_get(ps.deep_view(), k@) == Some(s@),
{
    match map_index(ps, k) {
        Some(i) => {
            assert(ps.deep_view()[i as int].1 == ps@[i as int].1@);
            Some(ps[i].1.clone())
        },
        None => None,
    }
}

/// Stores `val` under `k`, replacing the value already stored there.
pub fn map_store(ps: &mut Vec<(String, String)>, k: &[char], val: &[char])
    ensures
        final(ps).deep_view() == map_insert(old(ps).deep_view(), k@, val@),
{
    let entry = (string_of(k), string_of(val));
    match map_index(ps, k) {
        Some(i) => {
            assert(entry.deep_view() == (k@, val@));
            ps.set(i, entry);
            assert(ps.deep_view() =~= old(ps).deep_view().update(i as int, (k@, val@)));
        },
        None => {
            ps.push(entry);
            assert(ps.deep_view() =~= old(ps).deep_view().push((k@, val@)));
        },
    }
}

/// A copy of a vector of strings.
pub fn copy_strings(v: &Vec<String>) -> (r: Vec<String>)
    ensures
        r.deep_view() == v.deep_view(),
{
    let mut r: Vec<String> = Vec::new();
    let mut i: usize = 0;
    while i < v.len()
        invariant
            i <= v@.len(),
            r@.len() == i,
            r.deep_view() == v.deep_view().take(i as int),
        decreases v@.len() - i,
    {
        let ghost prev = r@;
        let ghost prev_dv = r.deep_view();
        let e = v[i].clone();
        r.push(e);
        assert(r@ == prev.push(e));
        i = i + 1;
        assert forall|j: int| 0 <= j < i implies r.deep_view()[j] == v.deep_view()[j] by {
            if j < i - 1 {
                assert(r@[j] == prev[j]);
                assert(prev_dv[j] == prev[j].deep_view());
                assert(prev_dv[j] == v.deep_view()[j]);
            } else {
                assert(r@[j] == e);
            }
        }
        assert(r.deep_view() =~= v.deep_view().take(i as int));
    }
    assert(v.deep_view().take(v@.len() as int) =~= v.deep_view());
    r
}

/// A copy of a vector of string pairs.
pub fn copy_pairs(v: &Vec<(String, String)>) -> (r: Vec<(String, String)>)
    ensures
        r.deep_view() == v.deep_view(),
{
    let mut r: Vec<(String, String)> = Vec::new();
    let mut i: usize = 0;
    while i < v.len()
        invariant
            i <= v@.len(),
            r@.len() == i,
            r.deep_view() == v.deep_view().take(i as int),
        decreases v@.len() - i,
    {
        let ghost prev = r@;
        let ghost prev_dv = r.deep_view();
        let e = (v[i].0.clone(), v[i].1.clone());
        r.push(e);
        assert(r@ == prev.push(e));
        i = i + 1;
        assert forall|j: int| 0 <= j < i implies r.deep_view()[j] == v.deep_view()[j] by {
            if j < i - 1 {
                assert(r@[j] == prev[j]);
                assert(prev_dv[j] == prev[j].deep_view());
                assert(prev_dv[j] == v.deep_view()[j]);
            } else {
                assert(r@[j] == e);
            }
        }
        assert(r.deep_view() =~= v.deep_view().take(i as int));
    }
    assert(v.deep_view().take(v@.len() as int) =~= v.deep_view());
    r
}

} // verus!
