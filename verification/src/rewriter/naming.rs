//! Names derived from import paths: PascalCase, SCREAMING_SNAKE and snake
//! spellings, and the aliases proposed for a clashing import.
use vstd::prelude::*;
use vstd::string::StringSliceAdditionalSpecFns;
use vstd::utf8::encode_utf8;

use crate::parser::path::upper_initial;
use crate::text::{
    chars_find_from, chars_first_piece, chars_of, chars_rfind, chars_slice, chars_starts_with, colons,
    find_from, first_piece, rfind, split_pieces, starts_with, string_of,
};

verus! {

/// The upper-case spelling of a character, as `char::to_uppercase` gives it
/// (Unicode case mapping; one character may become several).
pub uninterp spec fn uppercase_of(c: char) -> Seq<char>;

/// `char::to_uppercase`: the characters of the upper-case mapping of `c`.
/// The contract names the result; the mapping itself (Unicode tables) is
/// left to `std`.
#[verifier::external_body]
fn char_to_uppercase(c: char) -> (r: Vec<char>)
    ensures
        r@ == uppercase_of(c),
{
    c.to_uppercase().collect()
}

pub open spec fn is_ascii_char(c: char) -> bool {
    (c as int) < 128
}

/// ASCII upper case of a character (other characters unchanged).
pub open spec fn ascii_upper(c: char) -> char {
    if 'a' <= c <= 'z' {
        ((c as int) - 32) as char
    } else {
        c
    }
}

/// ASCII upper case of a byte (other bytes unchanged).
pub open spec fn ascii_upper_byte(b: u8) -> u8 {
    if 97 <= b <= 122 {
        (b - 32) as u8
    } else {
        b
    }
}

/// ASCII lower case of a byte (other bytes unchanged).
pub open spec fn ascii_lower_byte(b: u8) -> u8 {
    if 65 <= b <= 90 {
        (b + 32) as u8
    } else {
        b
    }
}

/// PascalCase of `cs`: `_` and `-` are dropped and the character after
/// each (and the first one) is upper-cased when `cap` is set.
pub open spec fn pascal_from(cs: Seq<char>, cap: bool) -> Seq<char>
    decreases cs.len(),
{
    if cs.len() == 0 {
        Seq::empty()
    } else {
        let c = cs[0];
        if c == '_' || c == '-' {
            pascal_from(cs.drop_first(), true)
        } else if cap {
            (if is_ascii_char(c) {
                seq![ascii_upper(c)]
            } else {
                uppercase_of(c)
            }) + pascal_from(cs.drop_first(), false)
        } else {
            seq![c] + pascal_from(cs.drop_first(), false)
        }
    }
}

/// The PascalCase spelling of a snake_case or kebab-case name.
pub open spec fn pascal(cs: Seq<char>) -> Seq<char> {
    pascal_from(cs, true)
}

/// Does the upper-case mapping used for `c` bring in no separator? Always
/// so for ASCII characters; for the others it rests on the Unicode tables
/// that `uppercase_of` names.
pub open spec fn upper_keeps_out_separators(c: char) -> bool {
    is_ascii_char(c) || (!uppercase_of(c).contains('_') && !uppercase_of(c).contains('-'))
}

proof fn lemma_pascal_from_no_separators(cs: Seq<char>, cap: bool)
    requires
        forall|i: int| 0 <= i < cs.len() ==> upper_keeps_out_separators(#[trigger] cs[i]),
    ensures
        forall|k: int|
            0 <= k < pascal_from(cs, cap).len() ==> #[trigger] pascal_from(cs, cap)[k] != '_' && pascal_from(cs, cap)[k]
                != '-',
    decreases cs.len(),
{
    if cs.len() > 0 {
        let c = cs[0];
        let rest = cs.drop_first();
        assert forall|i: int| 0 <= i < rest.len() implies upper_keeps_out_separators(#[trigger] rest[i]) by {
            assert(rest[i] == cs[i + 1]);
        }
        lemma_pascal_from_no_separators(rest, true);
        lemma_pascal_from_no_separators(rest, false);
        if c == '_' || c == '-' {
            assert(pascal_from(cs, cap) == pascal_from(rest, true));
        } else {
            let head = if !cap {
                seq![c]
            } else if is_ascii_char(c) {
                seq![ascii_upper(c)]
            } else {
                uppercase_of(c)
            };
            assert(upper_keeps_out_separators(c));
            if cap && is_ascii_char(c) && 'a' <= c <= 'z' {
                assert(65 <= (c as int) - 32 <= 90);
                assert((ascii_upper(c) as int) == (c as int) - 32);
            }
            assert forall|k: int| 0 <= k < head.len() implies #[trigger] head[k] != '_' && head[k] != '-' by {
                if cap && !is_ascii_char(c) {
                    if head[k] == '_' {
                        assert(uppercase_of(c).contains('_'));
                    }
                    if head[k] == '-' {
                        assert(uppercase_of(c).contains('-'));
                    }
                }
            }
            let r = pascal_from(cs, cap);
            assert(r == head + pascal_from(rest, false));
            assert forall|k: int| 0 <= k < r.len() implies #[trigger] r[k] != '_' && r[k] != '-' by {
                if k >= head.len() {
                    assert(r[k] == pascal_from(rest, false)[k - head.len()]);
                } else {
                    assert(r[k] == head[k]);
                }
            }
        }
    }
}

/// The PascalCase spelling holds no `_` and no `-`: each separator is
/// dropped, and upper-casing brings in none, on every name whose letters
/// upper-case without one (every ASCII name among them).
pub proof fn law_pascal_has_no_separators(cs: Seq<char>)
    requires
        forall|i: int| 0 <= i < cs.len() ==> upper_keeps_out_separators(#[trigger] cs[i]),
    ensures
        !pascal(cs).contains('_'),
        !pascal(cs).contains('-'),
{
    lemma_pascal_from_no_separators(cs, true);
}

/// On an ASCII name, the PascalCase spelling holds no `_` and no `-`.
pub proof fn law_ascii_pascal_has_no_separators(cs: Seq<char>)
    requires
        forall|i: int| 0 <= i < cs.len() ==> is_ascii_char(#[trigger] cs[i]),
    ensures
        !pascal(cs).contains('_'),
        !pascal(cs).contains('-'),
{
    assert forall|i: int| 0 <= i < cs.len() implies upper_keeps_out_separators(#[trigger] cs[i]) by {
        assert(is_ascii_char(cs[i]));
    }
    law_pascal_has_no_separators(cs);
}

/// The snake spelling of the bytes `b` of a path: `::` becomes `_`, a lone
/// `:` is dropped, `-` becomes `_`, and each other byte is mapped by `f`
/// and taken as a character.
pub open spec fn snake_from(b: Seq<u8>, prev_colon: bool, upper: bool) -> Seq<char>
    decreases b.len(),
{
    if b.len() == 0 {
        Seq::empty()
    } else if b[0] == 58u8 {
        if prev_colon {
            seq!['_'] + snake_from(b.drop_first(), false, upper)
        } else {
            snake_from(b.drop_first(), true, upper)
        }
    } else {
        (if b[0] == 45u8 {
            seq!['_']
        } else if upper {
            seq![ascii_upper_byte(b[0]) as char]
        } else {
            seq![ascii_lower_byte(b[0]) as char]
        }) + snake_from(b.drop_first(), false, upper)
    }
}

/// ASCII upper case of a character.
fn char_ascii_upper(c: char) -> (r: char)
    ensures
        r == ascii_upper(c),
{
    if 'a' <= c && c <= 'z' {
        let b: u8 = c as u8;
        assert(b as int == c as int);
        let u: u8 = b - 32;
        u as char
    } else {
        c
    }
}

/// The PascalCase spelling of `s` appended to `out`.
fn pascal_chars(s: &[char], out: &mut Vec<char>)
    ensures
        final(out)@ == old(out)@ + pascal(s@),
{
    let mut cap = true;
    let mut i: usize = 0;
    assert(s@.skip(0) =~= s@);
    while i < s.len()
        invariant
            i <= s@.len(),
            old(out)@ + pascal(s@) == out@ + pascal_from(s@.skip(i as int), cap),
        decreases s@.len() - i,
    {
        let c = s[i];
        let ghost before = out@;
        assert(s@.skip(i as int).drop_first() =~= s@.skip(i + 1));
        assert(s@.skip(i as int)[0] == c);
        if c == '_' || c == '-' {
            cap = true;
        } else if cap {
            if (c as u32) < 128 {
                out.push(char_ascii_upper(c));
                assert(out@ =~= before + seq![ascii_upper(c)]);
            } else {
                let up = char_to_uppercase(c);
                let mut k: usize = 0;
                while k < up.len()
                    invariant
                        k <= up@.len(),
                        out@ == before + up@.take(k as int),
                    decreases up@.len() - k,
                {
                    out.push(up[k]);
                    k = k + 1;
                    assert(out@ =~= before + up@.take(k as int));
                }
                assert(up@.take(up@.len() as int) =~= up@);
            }
            cap = false;
            proof {
                assert(before + pascal_from(s@.skip(i as int), true) =~= out@ + pascal_from(s@.skip(i + 1), false));
            }
        } else {
            out.push(c);
            assert(before + pascal_from(s@.skip(i as int), false) =~= out@ + pascal_from(s@.skip(i + 1), false));
        }
        i = i + 1;
    }
    assert(s@.skip(i as int).len() == 0);
    assert(out@ + Seq::<char>::empty() =~= out@);
}

/// Appends the PascalCase spelling of a snake_case or kebab-case name to `out`.
pub fn to_pascal_case_in(s: &str, out: &mut String)
    ensures
        final(out)@ == old(out)@ + pascal(s@),
{
    let cs = chars_of(s);
    let mut v: Vec<char> = Vec::new();
    pascal_chars(cs.as_slice(), &mut v);
    assert(v@ =~= pascal(s@));
    let t = string_of(v.as_slice());
    out.append(t.as_str());
}

/// The PascalCase spelling of a snake_case or kebab-case name.
pub fn to_pascal_case(s: &str) -> (r: String)
    ensures
        r@ == pascal(s@),
{
    let mut r = String::new();
    to_pascal_case_in(s, &mut r);
    assert(r@ =~= pascal(s@));
    r
}

/// The snake spelling (upper-cased when `upper` is set) of the bytes `b`,
/// appended to `out`.
fn snake_bytes(b: &[u8], upper: bool, out: &mut Vec<char>)
    ensures
        final(out)@ == old(out)@ + snake_from(b@, false, upper),
{
    let mut prev_colon = false;
    let mut i: usize = 0;
    assert(b@.skip(0) =~= b@);
    while i < b.len()
        invariant
            i <= b@.len(),
            old(out)@ + snake_from(b@, false, upper) == out@ + snake_from(b@.skip(i as int), prev_colon, upper),
        decreases b@.len() - i,
    {
        let x = b[i];
        let ghost before = out@;
        assert(b@.skip(i as int).drop_first() =~= b@.skip(i + 1));
        assert(b@.skip(i as int)[0] == x);
        if x == 58u8 {
            if prev_colon {
                out.push('_');
                prev_colon = false;
                assert(before + snake_from(b@.skip(i as int), true, upper) =~= out@ + snake_from(b@.skip(i + 1), false, upper));
            } else {
                prev_colon = true;
            }
        } else {
            let was = prev_colon;
            prev_colon = false;
            if x == 45u8 {
                out.push('_');
            } else if upper {
                let y: u8 = if 97 <= x && x <= 122 { x - 32 } else { x };
                out.push(y as char);
            } else {
                let y: u8 = if 65 <= x && x <= 90 { x + 32 } else { x };
                out.push(y as char);
            }
            assert(before + snake_from(b@.skip(i as int), was, upper) =~= out@ + snake_from(b@.skip(i + 1), false, upper));
        }
        i = i + 1;
    }
    assert(b@.skip(i as int).len() == 0);
    assert(out@ + Seq::<char>::empty() =~= out@);
}

/// Is every character an ASCII capital, an ASCII digit or `_`?
pub open spec fn all_upper(cs: Seq<char>) -> bool {
    forall|i: int| 0 <= i < cs.len() ==> ('A' <= #[trigger] cs[i] <= 'Z' || '0' <= cs[i] <= '9' || cs[i] == '_')
}

fn is_all_upper(cs: &[char]) -> (r: bool)
    ensures
        r == all_upper(cs@),
{
    let mut i: usize = 0;
    while i < cs.len()
        invariant
            i <= cs@.len(),
            forall|j: int| 0 <= j < i ==> ('A' <= #[trigger] cs@[j] <= 'Z' || '0' <= cs@[j] <= '9' || cs@[j] == '_'),
        decreases cs@.len() - i,
    {
        let c = cs[i];
        if !(('A' <= c && c <= 'Z') || ('0' <= c && c <= '9') || c == '_') {
            return false;
        }
        i = i + 1;
    }
    true
}

/// The concatenation of the PascalCase spellings of the parts.
pub open spec fn pascal_concat(parts: Seq<Seq<char>>) -> Seq<char>
    decreases parts.len(),
{
    if parts.len() == 0 {
        Seq::empty()
    } else {
        pascal_concat(parts.drop_last()) + pascal(parts.last())
    }
}

/// The aliases proposed for `import` when its last name clashes, best
/// first (following the naming conventions of RFC 430):
/// - a constant (`ALL_CAPS`): `CRATE_ITEM`, then `CRATE_MOD_ITEM`;
/// - a type or trait (capitalised): `CrateItem`, then `CrateModItem`;
/// - otherwise: `crate_item`, then `crate_mod_item`.
/// Paths under `crate`, `super` or `self`, and single names, get none.
pub open spec fn alias_candidates_spec(import: Seq<char>) -> Seq<Seq<char>> {
    let imp = if starts_with(import, colons()) {
        import.skip(2)
    } else {
        import
    };
    match rfind(imp, colons()) {
        None => Seq::empty(),
        Some(k) => {
            let quals = imp.take(k);
            let item = imp.skip(k + 2);
            let crate_name = first_piece(quals, colons());
            if crate_name == "crate"@ || crate_name == "super"@ || crate_name == "self"@ {
                Seq::empty()
            } else {
                let multiple = find_from(quals, colons(), 0) is Some;
                let (c1, c2) = if upper_initial(item) && all_upper(item) {
                    (
                        snake_from(encode_utf8(crate_name), false, true) + seq!['_'] + item,
                        snake_from(encode_utf8(quals), false, true) + seq!['_'] + item,
                    )
                } else if upper_initial(item) {
                    (pascal(crate_name) + item, pascal_concat(split_pieces(quals, colons())) + item)
                } else {
                    (
                        snake_from(encode_utf8(crate_name), false, false) + seq!['_'] + item,
                        snake_from(encode_utf8(quals), false, false) + seq!['_'] + item,
                    )
                };
                if multiple && c2 != c1 {
                    seq![c1, c2]
                } else {
                    seq![c1]
                }
            }
        },
    }
}

/// The pieces of `s` between the occurrences of `::`.
fn split_colons(s: &[char]) -> (r: Vec<Vec<char>>)
    ensures
        r@.map_values(|v: Vec<char>| v@) == split_pieces(s@, colons()),
{
    let sep = chars_of("::");
    proof {
        reveal_strlit("::");
        assert(sep@ =~= colons());
    }
    let mut r: Vec<Vec<char>> = Vec::new();
    let mut start: usize = 0;
    assert(s@.skip(0) =~= s@);
    loop
        invariant
            sep@ == colons(),
            start <= s@.len(),
            split_pieces(s@, colons()) == r@.map_values(|v: Vec<char>| v@) + split_pieces(s@.skip(start as int), colons()),
        decreases s@.len() - start,
    {
        let ghost rest = s@.skip(start as int);
        let ghost before = r@.map_values(|v: Vec<char>| v@);
        assert(s.len() == s@.len());
        proof {
            crate::text::lemma_find_shift(s@, colons(), start as int);
        }
        match chars_find_from(s, sep.as_slice(), start) {
            None => {
                let piece = chars_slice(s, start, s.len());
                r.push(piece);
                assert(piece@ =~= rest);
                assert(r@.map_values(|v: Vec<char>| v@) =~= before.push(rest));
                assert(split_pieces(rest, colons()) == seq![rest]);
                assert(before + seq![rest] =~= before.push(rest));
                return r;
            },
            Some(i) => {
                let piece = chars_slice(s, start, i);
                r.push(piece);
                assert(piece@ =~= rest.take(i - start));
                assert(rest.skip(i - start + 2) =~= s@.skip(i + 2));
                assert(r@.map_values(|v: Vec<char>| v@) =~= before.push(rest.take(i - start)));
                assert(split_pieces(rest, colons()) =~= seq![rest.take(i - start)] + split_pieces(s@.skip(i + 2), colons()));
                start = i + 2;
            },
        }
    }
}

/// The aliases proposed for `import` when its last name clashes, best first.
pub fn generate_alias_candidates(import: &str) -> (r: Vec<String>)
    ensures
        r.deep_view() == alias_candidates_spec(import@),
{
    let full = chars_of(import);
    let sep = chars_of("::");
    proof {
        reveal_strlit("::");
        assert(sep@ =~= colons());
    }
    let imp: Vec<char> = if chars_starts_with(full.as_slice(), sep.as_slice()) {
        chars_slice(full.as_slice(), 2, full.len())
    } else {
        chars_slice(full.as_slice(), 0, full.len())
    };
    assert(imp@ =~= (if starts_with(import@, colons()) { import@.skip(2) } else { import@ }));
    let k = match chars_rfind(imp.as_slice(), sep.as_slice()) {
        None => {
            let r: Vec<String> = Vec::new();
            assert(r.deep_view() =~= Seq::<Seq<char>>::empty());
            return r;
        },
        Some(k) => k,
    };
    let quals = chars_slice(imp.as_slice(), 0, k);
    let item = chars_slice(imp.as_slice(), k + 2, imp.len());
    assert(quals@ =~= imp@.take(k as int));
    assert(item@ =~= imp@.skip(k + 2));
    let crate_name = chars_first_piece(quals.as_slice(), sep.as_slice());
    let kw_crate = chars_of("crate");
    let kw_super = chars_of("super");
    let kw_self = chars_of("self");
    if crate::text::chars_eq(crate_name.as_slice(), kw_crate.as_slice()) || crate::text::chars_eq(
        crate_name.as_slice(),
        kw_super.as_slice(),
    ) || crate::text::chars_eq(crate_name.as_slice(), kw_self.as_slice()) {
        let r: Vec<String> = Vec::new();
        assert(r.deep_view() =~= Seq::<Seq<char>>::empty());
        return r;
    }
    let multiple = chars_find_from(quals.as_slice(), sep.as_slice(), 0).is_some();
    let is_upper = crate::parser::path::has_upper_initial(item.as_slice());
    let crate_str = string_of(crate_name.as_slice());
    let quals_str = string_of(quals.as_slice());
    let mut c1: Vec<char> = Vec::new();
    let mut c2: Vec<char> = Vec::new();
    let ghost imp_v = imp@;
    let ghost quals_v = imp_v.take(k as int);
    let ghost item_v = imp_v.skip(k + 2);
    let ghost cn = first_piece(quals_v, colons());
    assert(rfind(imp_v, colons()) == Some(k as int));
    assert(crate_name@ == cn);
    let cb = crate_str.as_str().as_bytes();
    let qb = quals_str.as_str().as_bytes();
    assert(cb@ == encode_utf8(cn));
    assert(qb@ == encode_utf8(quals_v));
    let ghost spec_pair = if upper_initial(item_v) && all_upper(item_v) {
        (
            snake_from(encode_utf8(cn), false, true) + seq!['_'] + item_v,
            snake_from(encode_utf8(quals_v), false, true) + seq!['_'] + item_v,
        )
    } else if upper_initial(item_v) {
        (pascal(cn) + item_v, pascal_concat(split_pieces(quals_v, colons())) + item_v)
    } else {
        (
            snake_from(encode_utf8(cn), false, false) + seq!['_'] + item_v,
            snake_from(encode_utf8(quals_v), false, false) + seq!['_'] + item_v,
        )
    };
    if is_upper && is_all_upper(item.as_slice()) {
        snake_bytes(cb, true, &mut c1);
        c1.push('_');
        snake_bytes(qb, true, &mut c2);
        c2.push('_');
    } else if is_upper {
        pascal_chars(crate_name.as_slice(), &mut c1);
        let pieces = split_colons(quals.as_slice());
        let ghost pv = pieces@.map_values(|v: Vec<char>| v@);
        let mut j: usize = 0;
        while j < pieces.len()
            invariant
                j <= pieces@.len(),
                pv == pieces@.map_values(|v: Vec<char>| v@),
                c2@ == pascal_concat(pv.take(j as int)),
            decreases pieces@.len() - j,
        {
            pascal_chars(pieces[j].as_slice(), &mut c2);
            assert(pv.take(j + 1).drop_last() =~= pv.take(j as int));
            j = j + 1;
        }
        assert(pv.take(pieces@.len() as int) =~= pv);
    } else {
        snake_bytes(cb, false, &mut c1);
        c1.push('_');
        snake_bytes(qb, false, &mut c2);
        c2.push('_');
    }
    let ghost pre1 = c1@;
    let ghost pre2 = c2@;
    let mut t: usize = 0;
    while t < item.len()
        invariant
            t <= item@.len(),
            c1@ == pre1 + item@.take(t as int),
            c2@ == pre2 + item@.take(t as int),
        decreases item@.len() - t,
    {
        c1.push(item[t]);
        c2.push(item[t]);
        t = t + 1;
        assert(c1@ =~= pre1 + item@.take(t as int));
        assert(c2@ =~= pre2 + item@.take(t as int));
    }
    assert(item@.take(item@.len() as int) =~= item@);
    assert(c1@ =~= spec_pair.0);
    assert(c2@ =~= spec_pair.1);
    let mut r: Vec<String> = Vec::new();
    r.push(string_of(c1.as_slice()));
    if multiple && !crate::text::chars_eq(c1.as_slice(), c2.as_slice()) {
        r.push(string_of(c2.as_slice()));
    }
    proof {
        assert(pre1 + item@ =~= pre1 + item@);
    }
    assert(r.deep_view() =~= alias_candidates_spec(import@));
    r
}

} // verus!
