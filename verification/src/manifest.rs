//! The crates a project knows: the standard library's and those its
//! `Cargo.toml` declares.
use vstd::prelude::*;

use crate::config::{TomlValue, get, parse_toml_table, table_get, toml_table_of};
use crate::sets::{insert_text, set_insert};
use crate::text::{chars_of, chars_slice, string_of};

verus! {

/// The crates of the standard distribution.
pub open spec fn builtin_crates_spec() -> Seq<Seq<char>> {
    seq!["std"@, "core"@, "alloc"@, "proc_macro"@, "test"@]
}

/// The crates of the standard distribution.
pub fn builtin_crates() -> (r: Vec<String>)
    ensures
        r.deep_view() == builtin_crates_spec(),
{
    let mut r: Vec<String> = Vec::new();
    r.push("std".to_string());
    r.push("core".to_string());
    r.push("alloc".to_string());
    r.push("proc_macro".to_string());
    r.push("test".to_string());
    assert(r.deep_view() =~= builtin_crates_spec());
    r
}

/// The name under which a crate is written in paths: its package name with
/// each `-` turned into `_`.
pub open spec fn crate_ident(name: Seq<char>) -> Seq<char> {
    name.map_values(|c: char| if c == '-' {
        '_'
    } else {
        c
    })
}

/// Adds the crate `name` to the set `crates`, under the name it is written
/// with in paths.
pub fn insert_crate_name(crates: &mut Vec<String>, name: &str)
    ensures
        final(crates).deep_view() == set_insert(old(crates).deep_view(), crate_ident(name@)),
{
    let cs = chars_of(name);
    let mut out: Vec<char> = Vec::new();
    let mut i: usize = 0;
    while i < cs.len()
        invariant
            i <= cs@.len(),
            out@ == crate_ident(cs@.take(i as int)),
        decreases cs@.len() - i,
    {
        let c = cs[i];
        out.push(if c == '-' {
            '_'
        } else {
            c
        });
        i = i + 1;
        assert(out@ =~= crate_ident(cs@.take(i as int)));
    }
    assert(cs@.take(cs@.len() as int) =~= cs@);
    insert_text(crates, out.as_slice());
}

/// Adding a crate name that is already there changes nothing, so adding
/// the same name twice is adding it once.
pub proof fn law_insert_crate_name_idempotent(crates: Seq<Seq<char>>, name: Seq<char>)
    ensures
        crates.contains(crate_ident(name)) ==> set_insert(crates, crate_ident(name)) == crates,
        set_insert(set_insert(crates, crate_ident(name)), crate_ident(name)) == set_insert(crates, crate_ident(name)),
{
    crate::sets::lemma_set_insert_twice(crates, crate_ident(name));
}

/// The keys of the dependency tables of a manifest.
pub open spec fn dep_keys() -> Seq<Seq<char>> {
    seq!["dependencies"@, "dev-dependencies"@, "build-dependencies"@]
}

/// The string stored under `key`, if it is a string.
pub open spec fn string_at(t: Seq<(String, TomlValue)>, key: Seq<char>) -> Option<Seq<char>> {
    match table_get(t, key) {
        Some(TomlValue::Str(s)) => Some(s@),
        _ => None,
    }
}

/// The table stored under `key`, if it is a table.
pub open spec fn table_at(t: Seq<(String, TomlValue)>, key: Seq<char>) -> Option<Seq<(String, TomlValue)>> {
    match table_get(t, key) {
        Some(TomlValue::Table(x)) => Some(x@),
        _ => None,
    }
}

/// The crates after reading a dependency table: each dependency's name,
/// and the package it renames, if any.
pub open spec fn deps_crates(crates: Seq<Seq<char>>, deps: Seq<(String, TomlValue)>) -> Seq<Seq<char>>
    decreases deps.len(),
{
    if deps.len() == 0 {
        crates
    } else {
        let prev = deps_crates(crates, deps.drop_last());
        let with_name = set_insert(prev, crate_ident(deps.last().0@));
        match deps.last().1 {
            TomlValue::Table(item) => match string_at(item@, "package"@) {
                Some(p) => set_insert(with_name, crate_ident(p)),
                None => with_name,
            },
            _ => with_name,
        }
    }
}

/// The crates after reading the dependency tables of a table (the
/// manifest or one of its `target` tables).
pub open spec fn dep_tables_crates(crates: Seq<Seq<char>>, t: Seq<(String, TomlValue)>, keys: Seq<Seq<char>>) -> Seq<
    Seq<char>,
>
    decreases keys.len(),
{
    if keys.len() == 0 {
        crates
    } else {
        let prev = dep_tables_crates(crates, t, keys.drop_last());
        match table_at(t, keys.last()) {
            Some(d) => deps_crates(prev, d),
            None => prev,
        }
    }
}

/// The crates after reading the dependency tables of every `target` table.
pub open spec fn targets_crates(crates: Seq<Seq<char>>, targets: Seq<(String, TomlValue)>) -> Seq<Seq<char>>
    decreases targets.len(),
{
    if targets.len() == 0 {
        crates
    } else {
        let prev = targets_crates(crates, targets.drop_last());
        match targets.last().1 {
            TomlValue::Table(tt) => dep_tables_crates(prev, tt@, dep_keys()),
            _ => prev,
        }
    }
}

/// `s` with every trailing `c` removed.
pub open spec fn trim_end(s: Seq<char>, c: char) -> Seq<char>
    decreases s.len(),
{
    if s.len() > 0 && s.last() == c {
        trim_end(s.drop_last(), c)
    } else {
        s
    }
}

/// The last component of the path `p`, as `std::path::Path::file_name`
/// gives it (as text).
pub uninterp spec fn file_name_of(p: Seq<char>) -> Option<Seq<char>>;

/// `std::path::Path::new(p).file_name()`, as text: the path's last
/// component, none when the path ends in `..` or is a root.
#[verifier::external_body]
fn path_file_name(p: &str) -> (r: Option<String>)
    ensures
        r is Some <==> file_name_of(p@) is Some,
        r matches Some(n) ==> file_name_of(p@) == Some(n@),
{
    std::path::Path::new(p).file_name().and_then(|n| n.to_str()).map(|n| n.to_string())
}

/// The crate a workspace member stands for: the last component of its
/// path without trailing slashes, unless the path is a glob pattern.
pub open spec fn member_crate(m: Seq<char>) -> Option<Seq<char>> {
    let clean = trim_end(m, '/');
    if clean.contains('*') || clean.contains('?') {
        None
    } else {
        match file_name_of(clean) {
            Some(n) => Some(n),
            None => Some(clean),
        }
    }
}

/// The crates after reading the workspace members.
pub open spec fn members_crates(crates: Seq<Seq<char>>, members: Seq<TomlValue>) -> Seq<Seq<char>>
    decreases members.len(),
{
    if members.len() == 0 {
        crates
    } else {
        let prev = members_crates(crates, members.drop_last());
        match members.last() {
            TomlValue::Str(s) => match member_crate(s@) {
                Some(n) => set_insert(prev, crate_ident(n)),
                None => prev,
            },
            _ => prev,
        }
    }
}

/// The crates after reading the `name` of the table under `key`.
pub open spec fn named_crate(crates: Seq<Seq<char>>, t: Seq<(String, TomlValue)>, key: Seq<char>) -> Seq<Seq<char>> {
    match table_at(t, key) {
        Some(sec) => match string_at(sec, "name"@) {
            Some(n) => set_insert(crates, crate_ident(n)),
            None => crates,
        },
        None => crates,
    }
}

/// The crates after reading a manifest: the package and library names, the
/// dependencies of every kind, the workspace's dependencies and members,
/// and the dependencies of every target.
pub open spec fn cargo_crates(crates: Seq<Seq<char>>, t: Seq<(String, TomlValue)>) -> Seq<Seq<char>> {
    let c1 = named_crate(named_crate(crates, t, "package"@), t, "lib"@);
    let c2 = dep_tables_crates(c1, t, dep_keys());
    let c3 = match table_at(t, "workspace"@) {
        Some(ws) => {
            let with_deps = match table_at(ws, "dependencies"@) {
                Some(d) => deps_crates(c2, d),
                None => c2,
            };
            match table_get(ws, "members"@) {
                Some(TomlValue::Array(ms)) => members_crates(with_deps, ms@),
                _ => with_deps,
            }
        },
        None => c2,
    };
    match table_at(t, "target"@) {
        Some(ts) => targets_crates(c3, ts),
        None => c3,
    }
}

fn get_table<'a>(t: &'a Vec<(String, TomlValue)>, key: &str) -> (r: Option<&'a Vec<(String, TomlValue)>>)
    ensures
        r is Some <==> table_at(t@, key@) is Some,
        r matches Some(x) ==> table_at(t@, key@) == Some(x@),
{
    match get(t, key) {
        Some(TomlValue::Table(x)) => Some(x),
        _ => None,
    }
}

fn get_string<'a>(t: &'a Vec<(String, TomlValue)>, key: &str) -> (r: Option<&'a String>)
    ensures
        r is Some <==> string_at(t@, key@) is Some,
        r matches Some(x) ==> string_at(t@, key@) == Some(x@),
{
    match get(t, key) {
        Some(TomlValue::Str(x)) => Some(x),
        _ => None,
    }
}

/// Adds the crates of a dependency table.
fn extract_from_dep_table(deps: &Vec<(String, TomlValue)>, crates: &mut Vec<String>)
    ensures
        final(crates).deep_view() == deps_crates(old(crates).deep_view(), deps@),
{
    let ghost start = crates.deep_view();
    let mut i: usize = 0;
    assert(deps@.take(0) =~= Seq::<(String, TomlValue)>::empty());
    while i < deps.len()
        invariant
            i <= deps@.len(),
            start == old(crates).deep_view(),
            crates.deep_view() == deps_crates(start, deps@.take(i as int)),
        decreases deps@.len() - i,
    {
        assert(deps@.take(i + 1).drop_last() =~= deps@.take(i as int));
        assert(deps@.take(i + 1).last() == deps@[i as int]);
        let (name, val) = &deps[i];
        insert_crate_name(crates, name.as_str());
        match val {
            TomlValue::Table(item) => {
                match get_string(item, "package") {
                    Some(p) => insert_crate_name(crates, p.as_str()),
                    None => {},
                }
            },
            _ => {},
        }
        i = i + 1;
    }
    assert(deps@.take(deps@.len() as int) =~= deps@);
}

/// Adds the crates of the dependency tables of `t`.
fn extract_dep_tables(t: &Vec<(String, TomlValue)>, crates: &mut Vec<String>)
    ensures
        final(crates).deep_view() == dep_tables_crates(old(crates).deep_view(), t@, dep_keys()),
{
    let ghost c0 = crates.deep_view();
    let ghost k = dep_keys();
    assert(k.drop_last().drop_last().drop_last() =~= Seq::<Seq<char>>::empty());
    assert(k.drop_last().drop_last() =~= seq!["dependencies"@]);
    assert(k.drop_last() =~= seq!["dependencies"@, "dev-dependencies"@]);
    proof {
        reveal_with_fuel(dep_tables_crates, 4);
    }
    let ghost c1 = match table_at(t@, "dependencies"@) {
        Some(d) => deps_crates(c0, d),
        None => c0,
    };
    match get_table(t, "dependencies") {
        Some(d) => extract_from_dep_table(d, crates),
        None => {},
    }
    assert(crates.deep_view() == c1);
    let ghost c2 = match table_at(t@, "dev-dependencies"@) {
        Some(d) => deps_crates(c1, d),
        None => c1,
    };
    match get_table(t, "dev-dependencies") {
        Some(d) => extract_from_dep_table(d, crates),
        None => {},
    }
    assert(crates.deep_view() == c2);
    match get_table(t, "build-dependencies") {
        Some(d) => extract_from_dep_table(d, crates),
        None => {},
    }
}

/// Adds the crates that a workspace member stands for.
fn extract_members(members: &Vec<TomlValue>, crates: &mut Vec<String>)
    ensures
        final(crates).deep_view() == members_crates(old(crates).deep_view(), members@),
{
    let ghost start = crates.deep_view();
    let mut i: usize = 0;
    assert(members@.take(0) =~= Seq::<TomlValue>::empty());
    while i < members.len()
        invariant
            i <= members@.len(),
            start == old(crates).deep_view(),
            crates.deep_view() == members_crates(start, members@.take(i as int)),
        decreases members@.len() - i,
    {
        assert(members@.take(i + 1).drop_last() =~= members@.take(i as int));
        assert(members@.take(i + 1).last() == members@[i as int]);
        match &members[i] {
            TomlValue::Str(s) => {
                let cs = chars_of(s.as_str());
                let mut n: usize = cs.len();
                assert(cs@.take(n as int) =~= cs@);
                while n > 0 && cs[n - 1] == '/'
                    invariant
                        n <= cs@.len(),
                        trim_end(cs@, '/') == trim_end(cs@.take(n as int), '/'),
                    decreases n,
                {
                    assert(cs@.take(n as int).drop_last() =~= cs@.take(n - 1));
                    n = n - 1;
                }
                let clean_v = chars_slice(cs.as_slice(), 0, n);
                assert(clean_v@ =~= cs@.take(n as int));
                assert(n > 0 ==> cs@.take(n as int).last() != '/');
                assert(trim_end(cs@.take(n as int), '/') == cs@.take(n as int));
                let star = has_char(clean_v.as_slice(), '*');
                let quest = has_char(clean_v.as_slice(), '?');
                if !star && !quest {
                    let clean = string_of(clean_v.as_slice());
                    match path_file_name(clean.as_str()) {
                        Some(name) => insert_crate_name(crates, name.as_str()),
                        None => insert_crate_name(crates, clean.as_str()),
                    }
                }
            },
            _ => {},
        }
        i = i + 1;
    }
    assert(members@.take(members@.len() as int) =~= members@);
}

/// Does `c` occur in `s`?
fn has_char(s: &[char], c: char) -> (r: bool)
    ensures
        r == s@.contains(c),
{
    let mut i: usize = 0;
    while i < s.len()
        invariant
            i <= s@.len(),
            forall|j: int| 0 <= j < i ==> s@[j] != c,
        decreases s@.len() - i,
    {
        if s[i] == c {
            assert(s@[i as int] == c);
            return true;
        }
        i = i + 1;
    }
    false
}

/// Adds the crates that a manifest names: its package and library, its
/// dependencies of every kind, its workspace's dependencies and members,
/// and the dependencies of its targets.
pub fn extract_crates_from_cargo_table(table: &Vec<(String, TomlValue)>, crates: &mut Vec<String>)
    ensures
        final(crates).deep_view() == cargo_crates(old(crates).deep_view(), table@),
{
    match get_table(table, "package") {
        Some(pkg) => match get_string(pkg, "name") {
            Some(n) => insert_crate_name(crates, n.as_str()),
            None => {},
        },
        None => {},
    }
    match get_table(table, "lib") {
        Some(lib) => match get_string(lib, "name") {
            Some(n) => insert_crate_name(crates, n.as_str()),
            None => {},
        },
        None => {},
    }
    extract_dep_tables(table, crates);
    match get_table(table, "workspace") {
        Some(ws) => {
            match get_table(ws, "dependencies") {
                Some(d) => extract_from_dep_table(d, crates),
                None => {},
            }
            match get(ws, "members") {
                Some(TomlValue::Array(ms)) => extract_members(ms, crates),
                _ => {},
            }
        },
        None => {},
    }
    match get_table(table, "target") {
        Some(targets) => {
            let ghost start = crates.deep_view();
            let mut i: usize = 0;
            assert(targets@.take(0) =~= Seq::<(String, TomlValue)>::empty());
            while i < targets.len()
                invariant
                    i <= targets@.len(),
                    crates.deep_view() == targets_crates(start, targets@.take(i as int)),
                decreases targets@.len() - i,
            {
                assert(targets@.take(i + 1).drop_last() =~= targets@.take(i as int));
                assert(targets@.take(i + 1).last() == targets@[i as int]);
                match &targets[i].1 {
                    TomlValue::Table(tt) => extract_dep_tables(tt, crates),
                    _ => {},
                }
                i = i + 1;
            }
            assert(targets@.take(targets@.len() as int) =~= targets@);
        },
        None => {},
    }
}

/// The crates a project knows: those of the standard distribution, the
/// extra crates, and those named by its manifests (its own `Cargo.toml`,
/// then its workspace's), as parsed tables.
pub fn collect_project_crates(extra_crates: &Vec<String>, manifests: &Vec<Vec<(String, TomlValue)>>) -> (r: Vec<String>)
    ensures
        r.deep_view() == manifests_crates(extras_crates(builtin_crates_spec(), extra_crates.deep_view()), manifests@),
{
    let mut crates = with_extra_crates(extra_crates);
    let ghost c0 = crates.deep_view();
    let mut j: usize = 0;
    assert(manifests@.take(0) =~= Seq::<Vec<(String, TomlValue)>>::empty());
    while j < manifests.len()
        invariant
            j <= manifests@.len(),
            crates.deep_view() == manifests_crates(c0, manifests@.take(j as int)),
        decreases manifests@.len() - j,
    {
        assert(manifests@.take(j + 1).drop_last() =~= manifests@.take(j as int));
        assert(manifests@.take(j + 1).last() == manifests@[j as int]);
        extract_crates_from_cargo_table(&manifests[j], &mut crates);
        j = j + 1;
    }
    assert(manifests@.take(manifests@.len() as int) =~= manifests@);
    crates
}

/// The crates after reading the manifests whose texts are `texts`, one
/// after the other; a text that is not valid TOML adds nothing.
pub open spec fn manifest_texts_crates(crates: Seq<Seq<char>>, texts: Seq<Seq<char>>) -> Seq<Seq<char>>
    decreases texts.len(),
{
    if texts.len() == 0 {
        crates
    } else {
        let c = manifest_texts_crates(crates, texts.drop_last());
        match toml_table_of(texts.last()) {
            Some(t) => cargo_crates(c, t),
            None => c,
        }
    }
}

/// The crates a project knows, its manifests given by their texts (its own
/// `Cargo.toml`, then its workspace's): those of the standard distribution,
/// the extra crates, and those named by each manifest that parses.
pub fn collect_project_crates_from_texts(extra_crates: &Vec<String>, manifests: &Vec<String>) -> (r: Vec<String>)
    ensures
        r.deep_view() == manifest_texts_crates(
            extras_crates(builtin_crates_spec(), extra_crates.deep_view()),
            manifests.deep_view(),
        ),
{
    let mut crates = with_extra_crates(extra_crates);
    let ghost c0 = crates.deep_view();
    let ghost tv = manifests.deep_view();
    let mut j: usize = 0;
    assert(tv.take(0) =~= Seq::<Seq<char>>::empty());
    while j < manifests.len()
        invariant
            j <= tv.len(),
            tv == manifests.deep_view(),
            crates.deep_view() == manifest_texts_crates(c0, tv.take(j as int)),
        decreases tv.len() - j,
    {
        assert(tv.take(j + 1).drop_last() =~= tv.take(j as int));
        assert(tv.take(j + 1).last() == manifests@[j as int]@);
        match parse_toml_table(manifests[j].as_str()) {
            Some(t) => extract_crates_from_cargo_table(&t, &mut crates),
            None => {},
        }
        j = j + 1;
    }
    assert(tv.take(tv.len() as int) =~= tv);
    crates
}

/// The crates of the standard distribution and the extra crates.
fn with_extra_crates(extra_crates: &Vec<String>) -> (r: Vec<String>)
    ensures
        r.deep_view() == extras_crates(builtin_crates_spec(), extra_crates.deep_view()),
{
    let mut crates = builtin_crates();
    let mut i: usize = 0;
    let ghost ev = extra_crates.deep_view();
    assert(ev.take(0) =~= Seq::<Seq<char>>::empty());
    while i < extra_crates.len()
        invariant
            i <= ev.len(),
            ev == extra_crates.deep_view(),
            crates.deep_view() == extras_crates(builtin_crates_spec(), ev.take(i as int)),
        decreases ev.len() - i,
    {
        assert(ev.take(i + 1).drop_last() =~= ev.take(i as int));
        assert(ev.take(i + 1).last() == extra_crates@[i as int]@);
        insert_crate_name(&mut crates, extra_crates[i].as_str());
        i = i + 1;
    }
    assert(ev.take(ev.len() as int) =~= ev);
    crates
}

/// The crates after adding the extra crate names.
pub open spec fn extras_crates(crates: Seq<Seq<char>>, extra: Seq<Seq<char>>) -> Seq<Seq<char>>
    decreases extra.len(),
{
    if extra.len() == 0 {
        crates
    } else {
        set_insert(extras_crates(crates, extra.drop_last()), crate_ident(extra.last()))
    }
}

/// The crates after reading the manifests, one after the other.
pub open spec fn manifests_crates(crates: Seq<Seq<char>>, ms: Seq<Vec<(String, TomlValue)>>) -> Seq<Seq<char>>
    decreases ms.len(),
{
    if ms.len() == 0 {
        crates
    } else {
        cargo_crates(manifests_crates(crates, ms.drop_last()), ms.last()@)
    }
}

} // verus!
