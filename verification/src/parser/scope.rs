//! The names a module brings into scope: the items it defines and the paths
//! its `use` declarations import.
use vstd::prelude::*;

use crate::sets::{
    copy_pairs, copy_strings, insert_text, lemma_set_insert_contains, map_has, map_index, map_insert, map_store,
    set_insert,
};
use crate::text::{chars_eq, chars_last_piece, chars_of, colons, last_piece};

verus! {

/// A `use` tree, as written after the `use` keyword.
pub enum UseTree {
    /// `ident::tree`
    Path { ident: String, tree: Box<UseTree> },
    /// `ident`
    Name { ident: String },
    /// `ident as rename`
    Rename { ident: String, rename: String },
    /// `*`
    Glob,
    /// `{ items, ... }`
    Group { items: Vec<UseTree> },
}

/// What a top-level item of a module contributes to its scope.
pub enum ItemKind {
    /// An item that defines a name (function, type, trait, constant, module,
    /// named macro, `extern crate` under its visible name, ...).
    Named(String),
    /// A `use` declaration.
    Use(UseTree),
    /// Anything else.
    Other,
}

/// A top-level item of a module, with the lines on which it starts and ends.
pub struct ItemInfo {
    pub kind: ItemKind,
    pub start_line: usize,
    pub end_line: usize,
}

/// The scope of a module: names defined or imported at its top level, the
/// paths its `use` declarations import, and the imports renamed with `as`.
pub struct FileScope {
    /// Names in scope at the module's top level (each once).
    pub in_scope_idents: Vec<String>,
    /// Full paths imported by `use` declarations (each once), such as
    /// `std::io::Error`, `std::io::*` or `a::B as C`.
    pub existing_use_paths: Vec<String>,
    /// Imports renamed with `as`: full path and the name it is imported under.
    pub renamed_uses: Vec<(String, String)>,
}

/// The abstract value of a scope: identifiers, imported paths, renamings.
pub type ScopeView = (Seq<Seq<char>>, Seq<Seq<char>>, Seq<(Seq<char>, Seq<char>)>);

impl View for FileScope {
    type V = ScopeView;

    open spec fn view(&self) -> ScopeView {
        (self.in_scope_idents.deep_view(), self.existing_use_paths.deep_view(), self.renamed_uses.deep_view())
    }
}

impl FileScope {
    /// An empty scope.
    pub fn empty() -> (s: FileScope)
        ensures
            s@.0.len() == 0,
            s@.1.len() == 0,
            s@.2.len() == 0,
    {
        FileScope { in_scope_idents: Vec::new(), existing_use_paths: Vec::new(), renamed_uses: Vec::new() }
    }

    /// A copy of this scope.
    pub fn duplicate(&self) -> (s: FileScope)
        ensures
            s@ == self@,
    {
        FileScope {
            in_scope_idents: copy_strings(&self.in_scope_idents),
            existing_use_paths: copy_strings(&self.existing_use_paths),
            renamed_uses: copy_pairs(&self.renamed_uses),
        }
    }
}

impl Default for FileScope {
    fn default() -> (s: FileScope)
        ensures
            s@.0.len() == 0,
            s@.1.len() == 0,
            s@.2.len() == 0,
    {
        FileScope::empty()
    }
}

/// `prefix::ident`, or `ident` alone when the prefix is empty.
pub open spec fn path_join(prefix: Seq<char>, ident: Seq<char>) -> Seq<char> {
    if prefix.len() == 0 {
        ident
    } else {
        prefix + colons() + ident
    }
}

/// The scope after walking the use tree `tree` under `prefix`.
pub open spec fn walk_spec(tree: UseTree, prefix: Seq<char>, sc: ScopeView) -> ScopeView
    decreases tree,
{
    match tree {
        UseTree::Path { ident, tree } => walk_spec(*tree, path_join(prefix, ident@), sc),
        UseTree::Name { ident } => {
            if ident@ == "self"@ {
                if prefix.len() > 0 {
                    (set_insert(sc.0, last_piece(prefix, colons())), set_insert(sc.1, prefix), sc.2)
                } else {
                    sc
                }
            } else {
                (set_insert(sc.0, ident@), set_insert(sc.1, path_join(prefix, ident@)), sc.2)
            }
        },
        UseTree::Rename { ident, rename } => {
            let idents = if rename@ != "_"@ {
                set_insert(sc.0, rename@)
            } else {
                sc.0
            };
            let full = if ident@ == "self"@ {
                prefix
            } else {
                path_join(prefix, ident@)
            };
            if ident@ != "_"@ && rename@ == ident@ {
                (idents, set_insert(sc.1, full), sc.2)
            } else if ident@ != "_"@ && rename@ != "_"@ {
                (
                    idents,
                    set_insert(sc.1, full + " as "@ + rename@),
                    map_insert(sc.2, full, rename@),
                )
            } else {
                (idents, sc.1, sc.2)
            }
        },
        UseTree::Glob => {
            if prefix.len() > 0 {
                (sc.0, set_insert(sc.1, prefix + "::*"@), sc.2)
            } else {
                sc
            }
        },
        UseTree::Group { items } => walk_items_spec(items@, prefix, sc),
    }
}

/// The scope after walking each tree of `items` in turn.
pub open spec fn walk_items_spec(items: Seq<UseTree>, prefix: Seq<char>, sc: ScopeView) -> ScopeView
    decreases items,
{
    if items.len() == 0 {
        sc
    } else {
        walk_items_spec(items.subrange(1, items.len() as int), prefix, walk_spec(items[0], prefix, sc))
    }
}

/// Does the use tree bring the name `n` into scope as a plain leaf
/// (`a::b::n`, `self` aside) or as the new name of a renaming (`x as n`,
/// `_` aside)?
pub open spec fn tree_imports(tree: UseTree, n: Seq<char>) -> bool
    decreases tree,
{
    match tree {
        UseTree::Path { ident, tree } => tree_imports(*tree, n),
        UseTree::Name { ident } => ident@ != "self"@ && ident@ == n,
        UseTree::Rename { ident, rename } => rename@ != "_"@ && rename@ == n,
        UseTree::Glob => false,
        UseTree::Group { items } => items_import(items@, n),
    }
}

/// Does one of the use trees bring the name `n` into scope?
pub open spec fn items_import(items: Seq<UseTree>, n: Seq<char>) -> bool
    decreases items,
{
    if items.len() == 0 {
        false
    } else {
        tree_imports(items[0], n) || items_import(items.subrange(1, items.len() as int), n)
    }
}

/// Walking a use tree keeps every name already in scope and adds every
/// name the tree imports: the last name of each plain leaf (`Error` for
/// `use anyhow::Error;`, not `anyhow::Error`) and the new name of each
/// renaming.
pub proof fn law_walk_adds_imported_names(tree: UseTree, prefix: Seq<char>, sc: ScopeView, n: Seq<char>)
    ensures
        sc.0.contains(n) ==> walk_spec(tree, prefix, sc).0.contains(n),
        tree_imports(tree, n) ==> walk_spec(tree, prefix, sc).0.contains(n),
    decreases tree,
{
    match tree {
        UseTree::Path { ident, tree: sub } => {
            law_walk_adds_imported_names(*sub, path_join(prefix, ident@), sc, n);
        },
        UseTree::Name { ident } => {
            lemma_set_insert_contains(sc.0, ident@, n);
            if prefix.len() > 0 {
                lemma_set_insert_contains(sc.0, last_piece(prefix, colons()), n);
            }
        },
        UseTree::Rename { ident, rename } => {
            lemma_set_insert_contains(sc.0, rename@, n);
        },
        UseTree::Glob => {},
        UseTree::Group { items } => {
            lemma_walk_items_adds_imported_names(items@, prefix, sc, n);
        },
    }
}

proof fn lemma_walk_items_adds_imported_names(items: Seq<UseTree>, prefix: Seq<char>, sc: ScopeView, n: Seq<char>)
    ensures
        sc.0.contains(n) ==> walk_items_spec(items, prefix, sc).0.contains(n),
        items_import(items, n) ==> walk_items_spec(items, prefix, sc).0.contains(n),
    decreases items,
{
    if items.len() > 0 {
        let sc1 = walk_spec(items[0], prefix, sc);
        law_walk_adds_imported_names(items[0], prefix, sc, n);
        lemma_walk_items_adds_imported_names(items.subrange(1, items.len() as int), prefix, sc1, n);
    }
}

/// The scope after adding the contribution of each item of `items`.
pub open spec fn items_scope_spec(items: Seq<ItemInfo>, sc: ScopeView) -> ScopeView
    decreases items.len(),
{
    if items.len() == 0 {
        sc
    } else {
        let sc2 = match items[0].kind {
            ItemKind::Named(name) => (set_insert(sc.0, name@), sc.1, sc.2),
            ItemKind::Use(tree) => walk_spec(tree, Seq::empty(), sc),
            ItemKind::Other => sc,
        };
        items_scope_spec(items.drop_first(), sc2)
    }
}

/// Does the item bring the name `n` into its module's scope: by defining it,
/// or by a `use` declaration that imports it?
pub open spec fn item_brings(item: ItemInfo, n: Seq<char>) -> bool {
    match item.kind {
        ItemKind::Named(name) => name@ == n,
        ItemKind::Use(tree) => tree_imports(tree, n),
        ItemKind::Other => false,
    }
}

proof fn lemma_items_scope_names(items: Seq<ItemInfo>, sc: ScopeView, n: Seq<char>)
    ensures
        sc.0.contains(n) ==> items_scope_spec(items, sc).0.contains(n),
        (exists|i: int| 0 <= i < items.len() && item_brings(#[trigger] items[i], n)) ==> items_scope_spec(
            items,
            sc,
        ).0.contains(n),
    decreases items.len(),
{
    if items.len() > 0 {
        let sc2 = match items[0].kind {
            ItemKind::Named(name) => (set_insert(sc.0, name@), sc.1, sc.2),
            ItemKind::Use(tree) => walk_spec(tree, Seq::empty(), sc),
            ItemKind::Other => sc,
        };
        match items[0].kind {
            ItemKind::Named(name) => {
                lemma_set_insert_contains(sc.0, name@, n);
            },
            ItemKind::Use(tree) => {
                law_walk_adds_imported_names(tree, Seq::empty(), sc, n);
            },
            ItemKind::Other => {},
        }
        let rest = items.drop_first();
        lemma_items_scope_names(rest, sc2, n);
        if exists|i: int| 0 <= i < items.len() && item_brings(#[trigger] items[i], n) {
            let i = choose|i: int| 0 <= i < items.len() && item_brings(#[trigger] items[i], n);
            if i > 0 {
                assert(rest[i - 1] == items[i]);
            }
        }
    }
}

/// Every name that a module's items define or import with `use` is among
/// the names of the module's scope.
pub proof fn law_scope_holds_item_names(items: Seq<ItemInfo>, n: Seq<char>, i: int)
    requires
        0 <= i < items.len(),
        item_brings(items[i], n),
    ensures
        collect_items_spec(items).0.contains(n),
{
    lemma_items_scope_names(items, (Seq::empty(), Seq::empty(), Seq::empty()), n);
}

/// The scope of a module whose top-level items are `items`.
pub open spec fn collect_items_spec(items: Seq<ItemInfo>) -> ScopeView {
    items_scope_spec(items, (Seq::empty(), Seq::empty(), Seq::empty()))
}

/// `prefix::ident`, or `ident` alone when the prefix is empty.
fn join_prefix(prefix: &[char], ident: &[char]) -> (r: Vec<char>)
    ensures
        r@ == path_join(prefix@, ident@),
{
    let mut r: Vec<char> = Vec::new();
    let mut i: usize = 0;
    while i < prefix.len()
        invariant
            i <= prefix@.len(),
            r@ == prefix@.take(i as int),
        decreases prefix@.len() - i,
    {
        r.push(prefix[i]);
        i = i + 1;
        assert(r@ =~= prefix@.take(i as int));
    }
    assert(prefix@.take(prefix@.len() as int) =~= prefix@);
    if prefix.len() > 0 {
        r.push(':');
        r.push(':');
    }
    let mut j: usize = 0;
    let ghost base = r@;
    while j < ident.len()
        invariant
            j <= ident@.len(),
            r@ == base + ident@.take(j as int),
        decreases ident@.len() - j,
    {
        r.push(ident[j]);
        j = j + 1;
        assert(r@ =~= base + ident@.take(j as int));
    }
    assert(ident@.take(ident@.len() as int) =~= ident@);
    assert(r@ =~= path_join(prefix@, ident@));
    r
}

/// `a` followed by `b`.
pub fn concat_chars(a: &[char], b: &[char]) -> (r: Vec<char>)
    ensures
        r@ == a@ + b@,
{
    let mut r: Vec<char> = Vec::new();
    let mut i: usize = 0;
    while i < a.len()
        invariant
            i <= a@.len(),
            r@ == a@.take(i as int),
        decreases a@.len() - i,
    {
        r.push(a[i]);
        i = i + 1;
        assert(r@ =~= a@.take(i as int));
    }
    let mut j: usize = 0;
    while j < b.len()
        invariant
            j <= b@.len(),
            r@ == a@ + b@.take(j as int),
        decreases b@.len() - j,
    {
        r.push(b[j]);
        j = j + 1;
        assert(r@ =~= a@ + b@.take(j as int));
    }
    assert(a@.take(a@.len() as int) =~= a@);
    assert(b@.take(b@.len() as int) =~= b@);
    assert(a@ + b@ =~= r@);
    r
}

/// Adds to `scope` what the use tree `tree` under `prefix` imports.
pub fn walk_use_tree(tree: &UseTree, prefix: &[char], scope: &mut FileScope)
    ensures
        final(scope)@ == walk_spec(*tree, prefix@, old(scope)@),
    decreases tree,
{
    match tree {
        UseTree::Path { ident, tree: sub } => {
            let id = chars_of(ident.as_str());
            let p = join_prefix(prefix, id.as_slice());
            walk_use_tree(&**sub, p.as_slice(), scope);
        },
        UseTree::Name { ident } => {
            let id = chars_of(ident.as_str());
            let kw_self = chars_of("self");
            if chars_eq(id.as_slice(), kw_self.as_slice()) {
                if prefix.len() > 0 {
                    let sep = chars_of("::");
                    proof {
                        reveal_strlit("::");
                        assert(sep@ =~= colons());
                    }
                    let tail = chars_last_piece(prefix, sep.as_slice());
                    insert_text(&mut scope.in_scope_idents, tail.as_slice());
                    insert_text(&mut scope.existing_use_paths, prefix);
                }
            } else {
                let full = join_prefix(prefix, id.as_slice());
                insert_text(&mut scope.in_scope_idents, id.as_slice());
                insert_text(&mut scope.existing_use_paths, full.as_slice());
            }
        },
        UseTree::Rename { ident, rename } => {
            let id = chars_of(ident.as_str());
            let rn = chars_of(rename.as_str());
            let kw_self = chars_of("self");
            let kw_under = chars_of("_");
            let rename_is_under = chars_eq(rn.as_slice(), kw_under.as_slice());
            let ident_is_under = chars_eq(id.as_slice(), kw_under.as_slice());
            if !rename_is_under {
                insert_text(&mut scope.in_scope_idents, rn.as_slice());
            }
            let full = if chars_eq(id.as_slice(), kw_self.as_slice()) {
                let empty: Vec<char> = Vec::new();
                concat_chars(prefix, empty.as_slice())
            } else {
                join_prefix(prefix, id.as_slice())
            };
            assert(full@ == (if id@ == "self"@ { prefix@ } else { path_join(prefix@, id@) })) by {
                assert(prefix@ + Seq::<char>::empty() =~= prefix@);
            }
            if !ident_is_under {
                if chars_eq(rn.as_slice(), id.as_slice()) {
                    insert_text(&mut scope.existing_use_paths, full.as_slice());
                } else if !rename_is_under {
                    let kw_as = chars_of(" as ");
                    let with_as = concat_chars(full.as_slice(), kw_as.as_slice());
                    let entry = concat_chars(with_as.as_slice(), rn.as_slice());
                    insert_text(&mut scope.existing_use_paths, entry.as_slice());
                    map_store(&mut scope.renamed_uses, full.as_slice(), rn.as_slice());
                }
            }
        },
        UseTree::Glob => {
            if prefix.len() > 0 {
                let star = chars_of("::*");
                let entry = concat_chars(prefix, star.as_slice());
                insert_text(&mut scope.existing_use_paths, entry.as_slice());
            }
        },
        UseTree::Group { items } => {
            let mut i: usize = 0;
            assert(items@.subrange(0, items@.len() as int) =~= items@);
            while i < items.len()
                invariant
                    *tree == (UseTree::Group { items: *items }),
                    i <= items@.len(),
                    walk_items_spec(items@, prefix@, old(scope)@) == walk_items_spec(
                        items@.subrange(i as int, items@.len() as int),
                        prefix@,
                        scope@,
                    ),
                decreases items@.len() - i,
            {
                let ghost rest = items@.subrange(i as int, items@.len() as int);
                assert(rest[0] == items@[i as int]);
                assert(rest.subrange(1, rest.len() as int) =~= items@.subrange(i + 1, items@.len() as int));
                proof {
                    assert(decreases_to!(*tree => tree->items));
                    assert(decreases_to!(tree->items => tree->items@));
                    assert(decreases_to!(tree->items@ => tree->items@[i as int]));
                }
                walk_use_tree(&items[i], prefix, scope);
                i = i + 1;
            }
        },
    }
}

/// The scope of a module whose top-level items are `items`.
pub fn collect_items_scope(items: &[ItemInfo]) -> (scope: FileScope)
    ensures
        scope@ == collect_items_spec(items@),
{
    let mut scope = FileScope::empty();
    let mut i: usize = 0;
    assert(items@.skip(0) =~= items@);
    assert(scope@ == (Seq::<Seq<char>>::empty(), Seq::<Seq<char>>::empty(), Seq::<(Seq<char>, Seq<char>)>::empty()));
    while i < items.len()
        invariant
            i <= items@.len(),
            collect_items_spec(items@) == items_scope_spec(items@.skip(i as int), scope@),
        decreases items@.len() - i,
    {
        assert(items@.skip(i as int).drop_first() =~= items@.skip(i + 1));
        match &items[i].kind {
            ItemKind::Named(name) => {
                let n = chars_of(name.as_str());
                insert_text(&mut scope.in_scope_idents, n.as_slice());
            },
            ItemKind::Use(tree) => {
                let empty: Vec<char> = Vec::new();
                walk_use_tree(tree, empty.as_slice(), &mut scope);
            },
            ItemKind::Other => {},
        }
        i = i + 1;
    }
    scope
}

/// The set `s` with each of `xs` added in turn.
pub open spec fn extend_set(s: Seq<Seq<char>>, xs: Seq<Seq<char>>) -> Seq<Seq<char>>
    decreases xs.len(),
{
    if xs.len() == 0 {
        s
    } else {
        extend_set(set_insert(s, xs[0]), xs.drop_first())
    }
}

/// The map `m` with each entry of `ps` added whose key `m` does not hold yet.
pub open spec fn extend_map_absent(m: Seq<(Seq<char>, Seq<char>)>, ps: Seq<(Seq<char>, Seq<char>)>) -> Seq<
    (Seq<char>, Seq<char>),
>
    decreases ps.len(),
{
    if ps.len() == 0 {
        m
    } else {
        let m2 = if map_has(m, ps[0].0) {
            m
        } else {
            map_insert(m, ps[0].0, ps[0].1)
        };
        extend_map_absent(m2, ps.drop_first())
    }
}

/// The scope of an inline module with top-level `items` inside a module of
/// scope `parent`: its own names and imports, the parent's names, and the
/// parent's renamed imports that the module does not rename itself.
pub open spec fn child_scope_spec(parent: ScopeView, items: Seq<ItemInfo>) -> ScopeView {
    let own = collect_items_spec(items);
    (extend_set(own.0, parent.0), own.1, extend_map_absent(own.2, parent.2))
}

/// The scope of an inline module with top-level `items` inside a module of
/// scope `parent`.
pub fn child_scope(parent: &FileScope, items: &[ItemInfo]) -> (scope: FileScope)
    ensures
        scope@ == child_scope_spec(parent@, items@),
{
    let mut scope = collect_items_scope(items);
    let ghost own = scope@;
    let mut i: usize = 0;
    assert(parent@.0.skip(0) =~= parent@.0);
    while i < parent.in_scope_idents.len()
        invariant
            i <= parent@.0.len(),
            scope@.1 == own.1,
            scope@.2 == own.2,
            extend_set(own.0, parent@.0) == extend_set(scope@.0, parent@.0.skip(i as int)),
        decreases parent@.0.len() - i,
    {
        assert(parent@.0.skip(i as int).drop_first() =~= parent@.0.skip(i + 1));
        let x = chars_of(parent.in_scope_idents[i].as_str());
        insert_text(&mut scope.in_scope_idents, x.as_slice());
        i = i + 1;
    }
    let ghost mid = scope@;
    let mut j: usize = 0;
    assert(parent@.2.skip(0) =~= parent@.2);
    while j < parent.renamed_uses.len()
        invariant
            j <= parent@.2.len(),
            scope@.0 == mid.0,
            scope@.1 == own.1,
            extend_map_absent(own.2, parent@.2) == extend_map_absent(scope@.2, parent@.2.skip(j as int)),
        decreases parent@.2.len() - j,
    {
        assert(parent@.2.skip(j as int).drop_first() =~= parent@.2.skip(j + 1));
        let k = chars_of(parent.renamed_uses[j].0.as_str());
        let v = chars_of(parent.renamed_uses[j].1.as_str());
        if map_index(&scope.renamed_uses, k.as_slice()).is_none() {
            map_store(&mut scope.renamed_uses, k.as_slice(), v.as_slice());
        }
        j = j + 1;
    }
    scope
}

} // verus!
