//! Values of a TOML document (a `Cargo.toml` or a `clippy.toml`), as the
//! library reads them.
use vstd::prelude::*;

use crate::text::{chars_eq, chars_of};

verus! {

/// A TOML value.
pub enum TomlValue {
    /// A string.
    Str(String),
    /// An integer.
    Int(i64),
    /// An array.
    Array(Vec<TomlValue>),
    /// A table: its keys and values, in order.
    Table(Vec<(String, TomlValue)>),
    /// Any other value (float, boolean, date).
    Other,
}

#[verifier::external_type_specification]
#[verifier::external_body]
pub struct ExTomlValue(toml::Value);

/// The table that the `toml` crate parses from the text of a TOML document
/// (`None` when the text is not valid TOML), with each value taken as a
/// `TomlValue`.
pub uninterp spec fn toml_table_of(text: Seq<char>) -> Option<Seq<(String, TomlValue)>>;

/// A value parsed by the `toml` crate, taken as a `TomlValue`: strings,
/// integers, arrays and tables variant by variant (elements and entries in
/// the order the crate gives them), any other value as `Other`.  Only
/// `parse_toml_table` calls it; what it yields is covered by that
/// function's contract, through `toml_table_of`.
#[verifier::external_body]
fn toml_value_of(v: &toml::Value) -> TomlValue {
    match v {
        toml::Value::String(s) => TomlValue::Str(s.clone()),
        toml::Value::Integer(n) => TomlValue::Int(*n),
        toml::Value::Array(a) => TomlValue::Array(a.iter().map(toml_value_of).collect()),
        toml::Value::Table(t) => TomlValue::Table(t.iter().map(|(k, x)| (k.clone(), toml_value_of(x))).collect()),
        _ => TomlValue::Other,
    }
}

/// Parses the text of a TOML document with the `toml` crate
/// (`str::parse::<toml::Table>`): the document's table, or `None` when the
/// text is not valid TOML.  The contract names the result (`toml_table_of`
/// of the text); the TOML grammar itself is left to the crate.
#[verifier::external_body]
pub(crate) fn parse_toml_table(text: &str) -> (r: Option<Vec<(String, TomlValue)>>)
    ensures
        match r {
            Some(t) => toml_table_of(text@) == Some(t@),
            None => toml_table_of(text@) is None,
        },
{
    match text.parse::<toml::Table>() {
        Ok(t) => Some(t.iter().map(|(k, x)| (k.clone(), toml_value_of(x))).collect()),
        Err(_) => None,
    }
}

/// Index of the first entry of the table whose key is `key`, from `i` on.
pub open spec fn entry_index(t: Seq<(String, TomlValue)>, key: Seq<char>, i: int) -> Option<int>
    decreases t.len() - i,
{
    if i < 0 || i >= t.len() {
        None
    } else if t[i].0@ == key {
        Some(i)
    } else {
        entry_index(t, key, i + 1)
    }
}

/// The value stored under `key` in the table.
pub open spec fn table_get(t: Seq<(String, TomlValue)>, key: Seq<char>) -> Option<TomlValue> {
    match entry_index(t, key, 0) {
        Some(i) => Some(t[i].1),
        None => None,
    }
}

/// The value stored under the first of `keys` that the table has.
pub open spec fn table_get_any(t: Seq<(String, TomlValue)>, keys: Seq<Seq<char>>) -> Option<TomlValue>
    decreases keys.len(),
{
    if keys.len() == 0 {
        None
    } else if table_get(t, keys[0]) is Some {
        table_get(t, keys[0])
    } else {
        table_get_any(t, keys.drop_first())
    }
}

/// The value stored under `key` in the table.
pub fn get<'a>(t: &'a Vec<(String, TomlValue)>, key: &str) -> (r: Option<&'a TomlValue>)
    ensures
        r is Some <==> table_get(t@, key@) is Some,
        r matches Some(v) ==> table_get(t@, key@) == Some(*v),
{
    let k = chars_of(key);
    let mut i: usize = 0;
    while i < t.len()
        invariant
            i <= t@.len(),
            k@ == key@,
            entry_index(t@, key@, 0) == entry_index(t@, key@, i as int),
        decreases t@.len() - i,
    {
        let e = chars_of(t[i].0.as_str());
        if chars_eq(e.as_slice(), k.as_slice()) {
            return Some(&t[i].1);
        }
        proof {
            lemma_entry_index_skip(t@, key@, 0, i as int);
        }
        i = i + 1;
    }
    None
}

proof fn lemma_entry_index_skip(t: Seq<(String, TomlValue)>, key: Seq<char>, s: int, i: int)
    requires
        0 <= s <= i < t.len(),
        t[i].0@ != key,
        entry_index(t, key, s) == entry_index(t, key, i),
    ensures
        entry_index(t, key, s) == entry_index(t, key, i + 1),
{
}

/// The value stored under the first of the two keys that the table has.
pub fn get_either<'a>(t: &'a Vec<(String, TomlValue)>, first: &str, second: &str) -> (r: Option<&'a TomlValue>)
    ensures
        r is Some <==> table_get_any(t@, seq![first@, second@]) is Some,
        r matches Some(v) ==> table_get_any(t@, seq![first@, second@]) == Some(*v),
{
    let ghost keys = seq![first@, second@];
    assert(keys.drop_first() =~= seq![second@]);
    assert(keys.drop_first().drop_first() =~= Seq::<Seq<char>>::empty());
    proof {
        reveal_with_fuel(table_get_any, 3);
        assert(keys[0] == first@);
        assert(keys.drop_first()[0] == second@);
    }
    match get(t, first) {
        Some(v) => Some(v),
        None => get(t, second),
    }
}

} // verus!
