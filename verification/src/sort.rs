//! Stable insertion sorting, and the lexicographic order of strings.
use vstd::prelude::*;

use crate::text::chars_of;

verus! {

/// The index of the first element of `xs` that `x` goes strictly before.
pub open spec fn first_after<A>(xs: Seq<A>, x: A, lt: spec_fn(A, A) -> bool, i: int) -> int
    decreases xs.len() - i,
{
    if i < 0 || i >= xs.len() {
        xs.len() as int
    } else if lt(x, xs[i]) {
        i
    } else {
        first_after(xs, x, lt, i + 1)
    }
}

/// `xs` with `x` inserted before the first element it goes strictly before,
/// after all elements equal to it.
pub open spec fn insert_sorted<A>(xs: Seq<A>, x: A, lt: spec_fn(A, A) -> bool) -> Seq<A> {
    xs.insert(first_after(xs, x, lt, 0), x)
}

/// The stable insertion sort of `xs` by the strict order `lt`.
pub open spec fn isort<A>(xs: Seq<A>, lt: spec_fn(A, A) -> bool) -> Seq<A>
    decreases xs.len(),
{
    if xs.len() == 0 {
        xs
    } else {
        insert_sorted(isort(xs.drop_last(), lt), xs.last(), lt)
    }
}

pub proof fn lemma_first_after_range<A>(xs: Seq<A>, x: A, lt: spec_fn(A, A) -> bool, i: int)
    requires
        0 <= i <= xs.len(),
    ensures
        i <= first_after(xs, x, lt, i) <= xs.len(),
        forall|j: int| i <= j < first_after(xs, x, lt, i) ==> !lt(x, #[trigger] xs[j]),
        first_after(xs, x, lt, i) < xs.len() ==> lt(x, xs[first_after(xs, x, lt, i)]),
    decreases xs.len() - i,
{
    if i < xs.len() && !lt(x, xs[i]) {
        lemma_first_after_range(xs, x, lt, i + 1);
    }
}

pub proof fn lemma_first_after_skip<A>(xs: Seq<A>, x: A, lt: spec_fn(A, A) -> bool, i: int)
    requires
        0 <= i <= xs.len(),
        forall|j: int| 0 <= j < i ==> !lt(x, #[trigger] xs[j]),
    ensures
        first_after(xs, x, lt, 0) == first_after(xs, x, lt, i),
    decreases i,
{
    if i > 0 {
        lemma_first_after_skip_from(xs, x, lt, 0, i);
    }
}

proof fn lemma_first_after_skip_from<A>(xs: Seq<A>, x: A, lt: spec_fn(A, A) -> bool, s: int, i: int)
    requires
        0 <= s <= i <= xs.len(),
        forall|j: int| s <= j < i ==> !lt(x, #[trigger] xs[j]),
    ensures
        first_after(xs, x, lt, s) == first_after(xs, x, lt, i),
    decreases i - s,
{
    if s < i {
        lemma_first_after_skip_from(xs, x, lt, s + 1, i);
    }
}

pub proof fn lemma_isort_len<A>(xs: Seq<A>, lt: spec_fn(A, A) -> bool)
    ensures
        isort(xs, lt).len() == xs.len(),
    decreases xs.len(),
{
    if xs.len() > 0 {
        lemma_isort_len(xs.drop_last(), lt);
        let s = isort(xs.drop_last(), lt);
        lemma_first_after_range(s, xs.last(), lt, 0);
    }
}

/// The sorted sequence holds the elements of the original, and as many.
pub proof fn lemma_isort_members<A>(xs: Seq<A>, lt: spec_fn(A, A) -> bool)
    ensures
        isort(xs, lt).len() == xs.len(),
        forall|k: int| 0 <= k < isort(xs, lt).len() ==> exists|m: int| 0 <= m < xs.len() && xs[m] == #[trigger] isort(xs, lt)[k],
    decreases xs.len(),
{
    lemma_isort_len(xs, lt);
    if xs.len() > 0 {
        let prev = xs.drop_last();
        lemma_isort_members(prev, lt);
        let s = isort(prev, lt);
        let p = first_after(s, xs.last(), lt, 0);
        lemma_first_after_range(s, xs.last(), lt, 0);
        let r = isort(xs, lt);
        assert(r == s.insert(p, xs.last()));
        assert forall|k: int| 0 <= k < r.len() implies exists|m: int| 0 <= m < xs.len() && xs[m] == #[trigger] r[k] by {
            if k < p {
                assert(r[k] == s[k]);
                let m = choose|m: int| 0 <= m < prev.len() && prev[m] == #[trigger] s[k];
                assert(xs[m] == r[k]);
            } else if k == p {
                assert(xs[xs.len() - 1] == r[k]);
            } else {
                assert(r[k] == s[k - 1]);
                let m = choose|m: int| 0 <= m < prev.len() && prev[m] == #[trigger] s[k - 1];
                assert(xs[m] == r[k]);
            }
        }
    }
}

/// The strict lexicographic order on character sequences (by code point).
pub open spec fn lex_lt(a: Seq<char>, b: Seq<char>) -> bool
    decreases a.len(),
{
    if b.len() == 0 {
        false
    } else if a.len() == 0 {
        true
    } else if (a[0] as int) < (b[0] as int) {
        true
    } else if (a[0] as int) > (b[0] as int) {
        false
    } else {
        lex_lt(a.drop_first(), b.drop_first())
    }
}

/// The strict lexicographic order, as a function value.
pub open spec fn lex_order() -> spec_fn(Seq<char>, Seq<char>) -> bool {
    |a: Seq<char>, b: Seq<char>| lex_lt(a, b)
}

/// Does `a` come strictly before `b` in lexicographic order?
pub fn chars_lt(a: &[char], b: &[char]) -> (r: bool)
    ensures
        r == lex_lt(a@, b@),
{
    let mut i: usize = 0;
    assert(a@.skip(0) =~= a@);
    assert(b@.skip(0) =~= b@);
    while i < a.len() && i < b.len() && a[i] == b[i]
        invariant
            i <= a@.len(),
            i <= b@.len(),
            lex_lt(a@, b@) == lex_lt(a@.skip(i as int), b@.skip(i as int)),
        decreases a@.len() - i,
    {
        assert(a@.skip(i as int).drop_first() =~= a@.skip(i + 1));
        assert(b@.skip(i as int).drop_first() =~= b@.skip(i + 1));
        i = i + 1;
    }
    if i == b.len() {
        assert(b@.skip(i as int).len() == 0);
        false
    } else if i == a.len() {
        assert(a@.skip(i as int).len() == 0);
        true
    } else {
        let ai = a[i];
        let bi = b[i];
        assert(ai != bi);
        assert(a@.skip(i as int)[0] == ai);
        assert(b@.skip(i as int)[0] == bi);
        ai < bi
    }
}

/// The strings sorted in lexicographic order (stable).
pub fn sort_strings(v: Vec<String>) -> (r: Vec<String>)
    ensures
        r.deep_view() == isort(v.deep_view(), lex_order()),
{
    let ghost input = v.deep_view();
    let mut r: Vec<String> = Vec::new();
    let mut i: usize = 0;
    assert(input.take(0) =~= Seq::<Seq<char>>::empty());
    while i < v.len()
        invariant
            i <= v@.len(),
            input == v.deep_view(),
            r.deep_view() == isort(input.take(i as int), lex_order()),
        decreases v@.len() - i,
    {
        let x = chars_of(v[i].as_str());
        let ghost sorted = r.deep_view();
        let mut j: usize = 0;
        let mut found = false;
        while j < r.len() && !found
            invariant
                j <= r@.len(),
                sorted == r.deep_view(),
                x@ == input[i as int],
                forall|k: int| 0 <= k < j ==> !lex_lt(x@, #[trigger] sorted[k]),
                found ==> j < r@.len() && lex_lt(x@, sorted[j as int]),
            decreases r@.len() - j + (if found { 0int } else { 1int }),
        {
            let y = chars_of(r[j].as_str());
            if chars_lt(x.as_slice(), y.as_slice()) {
                found = true;
            } else {
                j = j + 1;
            }
        }
        proof {
            lemma_first_after_skip(sorted, x@, lex_order(), j as int);
            if j < r@.len() {
                assert(lex_order()(x@, sorted[j as int]));
                assert(first_after(sorted, x@, lex_order(), j as int) == j);
            } else {
                assert(first_after(sorted, x@, lex_order(), j as int) == j);
            }
            assert(input.take(i + 1).drop_last() =~= input.take(i as int));
            assert(input.take(i + 1).last() == x@);
        }
        let ghost prev = r@;
        r.insert(j, v[i].clone());
        proof {
            assert(r@ == prev.insert(j as int, v@[i as int]));
            assert(r.deep_view() =~= sorted.insert(j as int, x@));
        }
        i = i + 1;
    }
    assert(input.take(v@.len() as int) =~= input);
    r
}

/// Is `s` sorted by the strict order `lt` (no element goes strictly before an earlier one)?
pub open spec fn sorted_by<A>(s: Seq<A>, lt: spec_fn(A, A) -> bool) -> bool {
    forall|i: int, j: int| 0 <= i < j < s.len() ==> !lt(#[trigger] s[j], #[trigger] s[i])
}

/// Is `lt` a strict total order?
pub open spec fn strict_total<A>(lt: spec_fn(A, A) -> bool) -> bool {
    &&& forall|a: A, b: A| #[trigger] lt(a, b) ==> !lt(b, a)
    &&& forall|a: A, b: A, c: A| #[trigger] lt(a, b) && #[trigger] lt(b, c) ==> lt(a, c)
    &&& forall|a: A, b: A| a != b ==> #[trigger] lt(a, b) || #[trigger] lt(b, a)
}

/// The insertion sort sorts.
pub proof fn lemma_isort_sorted<A>(xs: Seq<A>, lt: spec_fn(A, A) -> bool)
    requires
        strict_total(lt),
    ensures
        sorted_by(isort(xs, lt), lt),
    decreases xs.len(),
{
    if xs.len() > 0 {
        let s = isort(xs.drop_last(), lt);
        lemma_isort_sorted(xs.drop_last(), lt);
        let x = xs.last();
        let p = first_after(s, x, lt, 0);
        lemma_first_after_range(s, x, lt, 0);
        let r = s.insert(p, x);
        assert(isort(xs, lt) == r);
        assert forall|i: int, j: int| 0 <= i < j < r.len() implies !lt(#[trigger] r[j], #[trigger] r[i]) by {
            if j < p {
                assert(r[i] == s[i] && r[j] == s[j]);
            } else if j == p {
                assert(r[i] == s[i]);
                assert(!lt(x, s[i]));
            } else if i > p {
                assert(r[i] == s[i - 1] && r[j] == s[j - 1]);
            } else if i == p {
                assert(r[j] == s[j - 1]);
                assert(lt(x, s[p]));
                if lt(s[j - 1], x) {
                    if j - 1 > p {
                        assert(!lt(s[j - 1], s[p]));
                    }
                }
            } else {
                assert(r[i] == s[i] && r[j] == s[j - 1]);
            }
        }
    }
}

/// The insertion sort keeps the elements, each as many times.
pub proof fn lemma_isort_multiset<A>(xs: Seq<A>, lt: spec_fn(A, A) -> bool)
    ensures
        isort(xs, lt).to_multiset() == xs.to_multiset(),
    decreases xs.len(),
{
    if xs.len() > 0 {
        let prev = xs.drop_last();
        lemma_isort_multiset(prev, lt);
        let s = isort(prev, lt);
        let p = first_after(s, xs.last(), lt, 0);
        lemma_first_after_range(s, xs.last(), lt, 0);
        vstd::seq_lib::to_multiset_insert(s, p, xs.last());
        vstd::seq_lib::to_multiset_build(prev, xs.last());
        assert(prev.push(xs.last()) =~= xs);
    }
}

/// Two sorted sequences with the same elements, each as many times, are equal.
pub proof fn lemma_sorted_unique<A>(s: Seq<A>, t: Seq<A>, lt: spec_fn(A, A) -> bool)
    requires
        strict_total(lt),
        sorted_by(s, lt),
        sorted_by(t, lt),
        s.to_multiset() == t.to_multiset(),
    ensures
        s == t,
    decreases s.len(),
{
    vstd::seq_lib::to_multiset_len(s);
    vstd::seq_lib::to_multiset_len(t);
    if s.len() == 0 {
        assert(s =~= t);
    } else {
        let a = s[0];
        let b = t[0];
        vstd::seq_lib::to_multiset_contains(s, b);
        vstd::seq_lib::to_multiset_contains(t, a);
        vstd::seq_lib::to_multiset_contains(t, b);
        vstd::seq_lib::to_multiset_contains(s, a);
        assert(s.contains(a));
        assert(t.contains(b));
        if a != b {
            let ka = choose|k: int| 0 <= k < t.len() && t[k] == a;
            let kb = choose|k: int| 0 <= k < s.len() && s[k] == b;
            assert(ka != 0 && kb != 0);
            if lt(a, b) {
                assert(!lt(t[ka], t[0]));
                assert(false);
            } else {
                assert(lt(b, a));
                assert(!lt(s[kb], s[0]));
                assert(false);
            }
        }
        assert(a == b);
        vstd::seq_lib::to_multiset_remove(s, 0);
        vstd::seq_lib::to_multiset_remove(t, 0);
        assert(s.remove(0) =~= s.drop_first());
        assert(t.remove(0) =~= t.drop_first());
        assert forall|i: int, j: int| 0 <= i < j < s.drop_first().len() implies !lt(
            #[trigger] s.drop_first()[j],
            #[trigger] s.drop_first()[i],
        ) by {
            assert(s.drop_first()[j] == s[j + 1] && s.drop_first()[i] == s[i + 1]);
        }
        assert forall|i: int, j: int| 0 <= i < j < t.drop_first().len() implies !lt(
            #[trigger] t.drop_first()[j],
            #[trigger] t.drop_first()[i],
        ) by {
            assert(t.drop_first()[j] == t[j + 1] && t.drop_first()[i] == t[i + 1]);
        }
        lemma_sorted_unique(s.drop_first(), t.drop_first(), lt);
        assert forall|i: int| 0 <= i < s.len() implies s[i] == t[i] by {
            if i > 0 {
                assert(s[i] == s.drop_first()[i - 1]);
                assert(t[i] == t.drop_first()[i - 1]);
            }
        }
        assert(s =~= t);
    }
}

/// Sorting two arrangements of the same elements gives the same sequence.
pub proof fn lemma_isort_permutation<A>(xs: Seq<A>, ys: Seq<A>, lt: spec_fn(A, A) -> bool)
    requires
        strict_total(lt),
        xs.to_multiset() == ys.to_multiset(),
    ensures
        isort(xs, lt) == isort(ys, lt),
{
    lemma_isort_sorted(xs, lt);
    lemma_isort_sorted(ys, lt);
    lemma_isort_multiset(xs, lt);
    lemma_isort_multiset(ys, lt);
    lemma_sorted_unique(isort(xs, lt), isort(ys, lt), lt);
}

proof fn lemma_lex_basic(a: Seq<char>, b: Seq<char>)
    ensures
        lex_lt(a, b) ==> !lex_lt(b, a),
        a != b ==> lex_lt(a, b) || lex_lt(b, a),
    decreases a.len(),
{
    if a.len() > 0 && b.len() > 0 && a[0] == b[0] {
        lemma_lex_basic(a.drop_first(), b.drop_first());
        if a.drop_first() == b.drop_first() {
            assert forall|i: int| 0 <= i < a.len() implies a[i] == b[i] by {
                if i > 0 {
                    assert(a[i] == a.drop_first()[i - 1]);
                    assert(b[i] == b.drop_first()[i - 1]);
                }
            }
            assert(a =~= b);
        }
    }
    if a.len() == 0 && b.len() == 0 {
        assert(a =~= b);
    }
}

proof fn lemma_lex_trans(a: Seq<char>, b: Seq<char>, c: Seq<char>)
    requires
        lex_lt(a, b),
        lex_lt(b, c),
    ensures
        lex_lt(a, c),
    decreases a.len(),
{
    if a.len() > 0 && b.len() > 0 && c.len() > 0 && a[0] == b[0] && b[0] == c[0] {
        lemma_lex_trans(a.drop_first(), b.drop_first(), c.drop_first());
    }
}

/// The lexicographic order is a strict total order.
pub proof fn lemma_lex_strict_total()
    ensures
        strict_total(lex_order()),
{
    let lt = lex_order();
    assert forall|a: Seq<char>, b: Seq<char>| #[trigger] lt(a, b) implies !lt(b, a) by {
        lemma_lex_basic(a, b);
    }
    assert forall|a: Seq<char>, b: Seq<char>, c: Seq<char>| #[trigger] lt(a, b) && #[trigger] lt(b, c) implies lt(a, c) by {
        lemma_lex_trans(a, b, c);
    }
    assert forall|a: Seq<char>, b: Seq<char>| a != b implies #[trigger] lt(a, b) || #[trigger] lt(b, a) by {
        lemma_lex_basic(a, b);
    }
}

} // verus!
