//! A parsed source file, as the rewriting reads it.
use vstd::prelude::*;

use super::collector::{PathInfo, VisitEvent, event_wf};
use crate::text::{chars_of, str_eq};
use super::scope::{FileScope, ItemInfo, collect_items_scope, collect_items_spec};

verus! {

/// What the rewriting reads of a parsed source file.
pub struct ParsedFile {
    /// Does the file carry the attribute `no_implicit_prelude`?
    pub no_implicit_prelude: bool,
    /// The lines on which the file's inner attributes (`#![...]`) end.
    pub inner_attr_end_lines: Vec<usize>,
    /// The file's top-level items.
    pub items: Vec<ItemInfo>,
    /// What a walk over the file's syntax tree meets, in order.
    pub events: Vec<VisitEvent>,
}

impl ParsedFile {
    /// Are the paths of the walk made of identifiers (no `:` inside a segment)?
    pub open spec fn wf(&self) -> bool {
        forall|i: int| 0 <= i < self.events@.len() ==> event_wf(#[trigger] self.events@[i])
    }
}

impl ParsedFile {
    /// Tests `wf`: is every segment of every path of the walk free of `:`?
    pub fn is_wf(&self) -> (r: bool)
        ensures
            r == self.wf(),
    {
        let mut i: usize = 0;
        while i < self.events.len()
            invariant
                i <= self.events@.len(),
                forall|k: int| 0 <= k < i ==> event_wf(#[trigger] self.events@[k]),
            decreases self.events@.len() - i,
        {
            match &self.events[i] {
                VisitEvent::Path(p) => {
                    let ghost segs = p.segments.deep_view();
                    let mut j: usize = 0;
                    while j < p.segments.len()
                        invariant
                            j <= p.segments@.len(),
                            i < self.events@.len(),
                            self.events@[i as int] == VisitEvent::Path(*p),
                            forall|k: int| 0 <= k < i ==> event_wf(#[trigger] self.events@[k]),
                            segs == p.segments.deep_view(),
                            forall|k: int| 0 <= k < j ==> !(#[trigger] segs[k]).contains(':'),
                        decreases p.segments@.len() - j,
                    {
                        assert(segs[j as int] == p.segments@[j as int]@);
                        if str_has_char(p.segments[j].as_str(), ':') {
                            assert(!event_wf(self.events@[i as int]));
                            return false;
                        }
                        j = j + 1;
                    }
                    assert(event_wf(self.events@[i as int]));
                },
                _ => {},
            }
            i = i + 1;
        }
        true
    }
}

/// Is the path the single name `name`, with no leading `::`?
pub open spec fn path_is_ident(p: PathInfo, name: Seq<char>) -> bool {
    !p.leading_colon && p.segments@.len() == 1 && p.segments@[0]@ == name
}

/// Is the path of an attribute the single name `name`?
pub fn attr_is_ident(p: &PathInfo, name: &str) -> (r: bool)
    ensures
        r == path_is_ident(*p, name@),
{
    !p.leading_colon && p.segments.len() == 1 && str_eq(p.segments[0].as_str(), name)
}

/// Does one of the attributes (given by their paths) name `name`?
pub open spec fn attrs_name(attrs: Seq<PathInfo>, name: Seq<char>) -> bool {
    exists|i: int| 0 <= i < attrs.len() && path_is_ident(#[trigger] attrs[i], name)
}

/// Does one of the attributes (given by their paths) name `name`?
fn any_attr_is(attrs: &Vec<PathInfo>, name: &str) -> (r: bool)
    ensures
        r == attrs_name(attrs@, name@),
{
    let mut i: usize = 0;
    while i < attrs.len()
        invariant
            i <= attrs@.len(),
            forall|k: int| 0 <= k < i ==> !path_is_ident(#[trigger] attrs@[k], name@),
        decreases attrs@.len() - i,
    {
        if attr_is_ident(&attrs[i], name) {
            return true;
        }
        i = i + 1;
    }
    false
}

/// Does a node with these attributes (given by their paths) carry `#[cfg]`
/// or `#[cfg_attr]`, so that what it holds is compiled only on a condition?
pub fn has_cfg(attrs: &Vec<PathInfo>) -> (r: bool)
    ensures
        r == (attrs_name(attrs@, "cfg"@) || attrs_name(attrs@, "cfg_attr"@)),
{
    any_attr_is(attrs, "cfg") || any_attr_is(attrs, "cfg_attr")
}

/// Does a file with these attributes (given by their paths) opt out of the
/// prelude with `no_implicit_prelude`?
pub fn has_no_implicit_prelude(attrs: &Vec<PathInfo>) -> (r: bool)
    ensures
        r == attrs_name(attrs@, "no_implicit_prelude"@),
{
    any_attr_is(attrs, "no_implicit_prelude")
}

/// Does the text `s` hold the character `c`?
fn str_has_char(s: &str, c: char) -> (r: bool)
    ensures
        r == s@.contains(c),
{
    let v = chars_of(s);
    let mut i: usize = 0;
    while i < v.len()
        invariant
            i <= v@.len(),
            v@ == s@,
            forall|j: int| 0 <= j < i ==> v@[j] != c,
        decreases v@.len() - i,
    {
        if v[i] == c {
            assert(s@[i as int] == c);
            return true;
        }
        i = i + 1;
    }
    false
}

/// The scope of the file's top level.
pub fn collect_file_scope(file: &ParsedFile) -> (scope: FileScope)
    ensures
        scope@ == collect_items_spec(file.items@),
{
    collect_items_scope(file.items.as_slice())
}

} // verus!
