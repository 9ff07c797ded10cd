//! Sequence and string helpers shared by the scope collector, the path
//! collector and the rewriter.  Text is handled as character sequences
//! (`Seq<char>`, the view of `str` and `String`) or as byte sequences
//! (`Seq<u8>`, the UTF-8 encoding of a source file).
use vstd::prelude::*;
use vstd::string::*;

verus! {

/// Does `pat` occur in `s` at index `i`?
pub open spec fn occurs_at<T>(s: Seq<T>, pat: Seq<T>, i: int) -> bool {
    0 <= i && i + pat.len() <= s.len() && s.subrange(i, i + pat.len()) == pat
}

/// First index `>= i` at which `pat` occurs in `s`.
pub open spec fn find_from<T>(s: Seq<T>, pat: Seq<T>, i: int) -> Option<int>
    decreases s.len() - i,
{
    if i < 0 || i + pat.len() > s.len() {
        None
    } else if occurs_at(s, pat, i) {
        Some(i)
    } else if i >= s.len() {
        None
    } else {
        find_from(s, pat, i + 1)
    }
}

/// Last index `<= i` at which `pat` occurs in `s`.
pub open spec fn rfind_upto<T>(s: Seq<T>, pat: Seq<T>, i: int) -> Option<int>
    decreases i + 1,
{
    if i < 0 {
        None
    } else if occurs_at(s, pat, i) {
        Some(i)
    } else {
        rfind_upto(s, pat, i - 1)
    }
}

/// Last index at which `pat` occurs in `s`.
pub open spec fn rfind<T>(s: Seq<T>, pat: Seq<T>) -> Option<int> {
    rfind_upto(s, pat, s.len() - pat.len())
}

pub open spec fn starts_with<T>(s: Seq<T>, p: Seq<T>) -> bool {
    p.len() <= s.len() && s.take(p.len() as int) == p
}

pub open spec fn contains_sub<T>(s: Seq<T>, pat: Seq<T>) -> bool {
    find_from(s, pat, 0) is Some
}

/// The text before the first occurrence of `sep` (all of `s` if there is none):
/// what `s.split(sep).next()` yields.
pub open spec fn first_piece<T>(s: Seq<T>, sep: Seq<T>) -> Seq<T> {
    match find_from(s, sep, 0) {
        Some(i) => s.take(i),
        None => s,
    }
}

/// The pieces of `s` between non-overlapping occurrences of the (non-empty)
/// separator `sep`, scanned from the left: what `s.split(sep)` yields.
pub open spec fn split_pieces<T>(s: Seq<T>, sep: Seq<T>) -> Seq<Seq<T>>
    decreases s.len(),
{
    if sep.len() == 0 {
        seq![s]
    } else {
        match find_from(s, sep, 0) {
            Some(i) => if 0 <= i && i + sep.len() <= s.len() {
                seq![s.take(i)] + split_pieces(s.skip(i + sep.len()), sep)
            } else {
                seq![s]
            },
            None => seq![s],
        }
    }
}

/// The text after the last occurrence of `sep`: what `s.rsplit(sep).next()` yields.
pub open spec fn last_piece<T>(s: Seq<T>, sep: Seq<T>) -> Seq<T> {
    match rfind(s, sep) {
        Some(i) => s.skip(i + sep.len()),
        None => s,
    }
}

/// `s` with every leading `c` removed.
pub open spec fn trim_start<T>(s: Seq<T>, c: T) -> Seq<T>
    decreases s.len(),
{
    if s.len() > 0 && s[0] == c {
        trim_start(s.drop_first(), c)
    } else {
        s
    }
}

/// The parts joined with `sep` between consecutive parts.
pub open spec fn join<T>(parts: Seq<Seq<T>>, sep: Seq<T>) -> Seq<T>
    decreases parts.len(),
{
    if parts.len() == 0 {
        Seq::empty()
    } else if parts.len() == 1 {
        parts[0]
    } else {
        join(parts.drop_last(), sep) + sep + parts.last()
    }
}

/// The path separator `::`.
pub open spec fn colons() -> Seq<char> {
    seq![':', ':']
}

proof fn lemma_find_from_skip<T>(s: Seq<T>, pat: Seq<T>, start: int, i: int)
    requires
        0 <= start <= i,
        forall|k: int| start <= k < i ==> !occurs_at(s, pat, k),
    ensures
        find_from(s, pat, start) == find_from(s, pat, i),
    decreases i - start,
{
    if start < i {
        lemma_find_from_skip(s, pat, start + 1, i);
    }
}

proof fn lemma_rfind_skip<T>(s: Seq<T>, pat: Seq<T>, top: int, i: int)
    requires
        i <= top,
        forall|k: int| i < k <= top ==> !occurs_at(s, pat, k),
    ensures
        rfind_upto(s, pat, top) == rfind_upto(s, pat, i),
    decreases top - i,
{
    if i < top {
        lemma_rfind_skip(s, pat, top - 1, i);
    }
}

/// Collects the characters of `s`, in order.
pub fn chars_of(s: &str) -> (v: Vec<char>)
    ensures
        v@ == s@,
{
    let mut v: Vec<char> = Vec::new();
    for c in it: s.chars()
        invariant
            it.seq() == s@,
            v@ == s@.take(it.index() as int),
    {
        v.push(c);
    }
    v
}

/// Builds an owned string holding the given characters, by `collect`.
#[verifier::external_body]
pub(crate) fn string_of(v: &[char]) -> (s: String)
    ensures
        s@ == v@,
{
    v.iter().collect()
}

/// Does `pat` occur in `s` at index `i`? (characters)
pub fn chars_occur_at(s: &[char], pat: &[char], i: usize) -> (r: bool)
    ensures
        r == occurs_at(s@, pat@, i as int),
{
    if i > s.len() || pat.len() > s.len() - i {
        return false;
    }
    let mut k: usize = 0;
    while k < pat.len()
        invariant
            i + pat@.len() <= s@.len(),
            s@.len() == s.len(),
            k <= pat@.len(),
            forall|j: int| 0 <= j < k ==> s@[i + j] == pat@[j],
        decreases pat@.len() - k,
    {
        if s[i + k] != pat[k] {
            assert(s@.subrange(i as int, i + pat@.len())[k as int] != pat@[k as int]);
            return false;
        }
        k = k + 1;
    }
    assert(s@.subrange(i as int, i + pat@.len()) =~= pat@);
    true
}

/// Does `pat` occur in `s` at index `i`? (bytes)
pub fn bytes_occur_at(s: &[u8], pat: &[u8], i: usize) -> (r: bool)
    ensures
        r == occurs_at(s@, pat@, i as int),
{
    if i > s.len() || pat.len() > s.len() - i {
        return false;
    }
    let mut k: usize = 0;
    while k < pat.len()
        invariant
            i + pat@.len() <= s@.len(),
            s@.len() == s.len(),
            k <= pat@.len(),
            forall|j: int| 0 <= j < k ==> s@[i + j] == pat@[j],
        decreases pat@.len() - k,
    {
        if s[i + k] != pat[k] {
            assert(s@.subrange(i as int, i + pat@.len())[k as int] != pat@[k as int]);
            return false;
        }
        k = k + 1;
    }
    assert(s@.subrange(i as int, i + pat@.len()) =~= pat@);
    true
}

/// First index `>= start` at which `pat` occurs in `s` (characters).
pub fn chars_find_from(s: &[char], pat: &[char], start: usize) -> (r: Option<usize>)
    ensures
        r is Some <==> find_from(s@, pat@, start as int) is Some,
        r matches Some(i) ==> find_from(s@, pat@, start as int) == Some(i as int),
        r matches Some(i) ==> start <= i && i + pat@.len() <= s@.len(),
{
    if start > s.len() || pat.len() > s.len() - start {
        return None;
    }
    let mut i = start;
    let last = s.len() - pat.len();
    loop
        invariant
            start <= i <= last,
            last + pat@.len() == s@.len(),
            forall|k: int| start <= k < i ==> !occurs_at(s@, pat@, k),
        decreases last - i,
    {
        if chars_occur_at(s, pat, i) {
            proof {
                lemma_find_from_skip(s@, pat@, start as int, i as int);
            }
            return Some(i);
        }
        if i == last {
            proof {
                lemma_find_from_skip(s@, pat@, start as int, i as int);
                assert(find_from(s@, pat@, i + 1) is None);
            }
            return None;
        }
        i = i + 1;
    }
}

/// First index `>= start` at which `pat` occurs in `s` (bytes).
pub fn bytes_find_from(s: &[u8], pat: &[u8], start: usize) -> (r: Option<usize>)
    ensures
        r is Some <==> find_from(s@, pat@, start as int) is Some,
        r matches Some(i) ==> find_from(s@, pat@, start as int) == Some(i as int),
        r matches Some(i) ==> start <= i && i + pat@.len() <= s@.len(),
{
    if start > s.len() || pat.len() > s.len() - start {
        return None;
    }
    let mut i = start;
    let last = s.len() - pat.len();
    loop
        invariant
            start <= i <= last,
            last + pat@.len() == s@.len(),
            forall|k: int| start <= k < i ==> !occurs_at(s@, pat@, k),
        decreases last - i,
    {
        if bytes_occur_at(s, pat, i) {
            proof {
                lemma_find_from_skip(s@, pat@, start as int, i as int);
            }
            return Some(i);
        }
        if i == last {
            proof {
                lemma_find_from_skip(s@, pat@, start as int, i as int);
                assert(find_from(s@, pat@, i + 1) is None);
            }
            return None;
        }
        i = i + 1;
    }
}

/// Last index at which `pat` occurs in `s` (characters).
pub fn chars_rfind(s: &[char], pat: &[char]) -> (r: Option<usize>)
    ensures
        r is Some <==> rfind(s@, pat@) is Some,
        r matches Some(i) ==> rfind(s@, pat@) == Some(i as int),
        r matches Some(i) ==> i + pat@.len() <= s@.len(),
{
    if pat.len() > s.len() {
        assert(rfind_upto(s@, pat@, s@.len() - pat@.len()) is None);
        return None;
    }
    let top = s.len() - pat.len();
    let mut i = top;
    loop
        invariant
            i <= top,
            top + pat@.len() == s@.len(),
            forall|k: int| i < k <= top ==> !occurs_at(s@, pat@, k),
        decreases i,
    {
        if chars_occur_at(s, pat, i) {
            proof {
                lemma_rfind_skip(s@, pat@, top as int, i as int);
            }
            return Some(i);
        }
        if i == 0 {
            proof {
                lemma_rfind_skip(s@, pat@, top as int, 0);
                assert(rfind_upto(s@, pat@, -1) is None);
            }
            return None;
        }
        i = i - 1;
    }
}

/// Are the two character sequences equal?
pub fn chars_eq(a: &[char], b: &[char]) -> (r: bool)
    ensures
        r == (a@ == b@),
{
    if a.len() != b.len() {
        return false;
    }
    let r = chars_occur_at(a, b, 0);
    proof {
        if r {
            assert(a@ =~= a@.subrange(0, b@.len() as int));
        } else {
            if a@ == b@ {
                assert(a@.subrange(0, b@.len() as int) =~= b@);
            }
        }
    }
    r
}

/// Do the two strings hold the same characters?
pub fn str_eq(a: &str, b: &str) -> (r: bool)
    ensures
        r == (a@ == b@),
{
    let av = chars_of(a);
    let bv = chars_of(b);
    chars_eq(av.as_slice(), bv.as_slice())
}

/// Does `s` start with `p`? (characters)
pub fn chars_starts_with(s: &[char], p: &[char]) -> (r: bool)
    ensures
        r == starts_with(s@, p@),
{
    let r = chars_occur_at(s, p, 0);
    proof {
        if p@.len() <= s@.len() {
            assert(s@.subrange(0, p@.len() as int) =~= s@.take(p@.len() as int));
        }
    }
    r
}

/// Does `s` start with `p`? (bytes)
pub fn bytes_starts_with(s: &[u8], p: &[u8]) -> (r: bool)
    ensures
        r == starts_with(s@, p@),
{
    let r = bytes_occur_at(s, p, 0);
    proof {
        if p@.len() <= s@.len() {
            assert(s@.subrange(0, p@.len() as int) =~= s@.take(p@.len() as int));
        }
    }
    r
}

/// The characters `s[from..to]`.
pub fn chars_slice(s: &[char], from: usize, to: usize) -> (r: Vec<char>)
    requires
        from <= to <= s@.len(),
    ensures
        r@ == s@.subrange(from as int, to as int),
{
    let mut r: Vec<char> = Vec::new();
    let mut i = from;
    while i < to
        invariant
            from <= i <= to <= s@.len(),
            r@ == s@.subrange(from as int, i as int),
        decreases to - i,
    {
        r.push(s[i]);
        i = i + 1;
        assert(r@ =~= s@.subrange(from as int, i as int));
    }
    r
}

/// `s` with every leading `c` removed (characters).
pub fn chars_trim_start(s: &[char], c: char) -> (r: Vec<char>)
    ensures
        r@ == trim_start(s@, c),
{
    let mut i: usize = 0;
    assert(s@.skip(0) =~= s@);
    while i < s.len() && s[i] == c
        invariant
            i <= s@.len(),
            trim_start(s@, c) == trim_start(s@.skip(i as int), c),
        decreases s@.len() - i,
    {
        assert(s@.skip(i as int).drop_first() =~= s@.skip(i + 1));
        i = i + 1;
    }
    assert(s@.skip(i as int) =~= s@.subrange(i as int, s@.len() as int));
    chars_slice(s, i, s.len())
}

/// The text before the first occurrence of `sep` (characters).
pub fn chars_first_piece(s: &[char], sep: &[char]) -> (r: Vec<char>)
    ensures
        r@ == first_piece(s@, sep@),
{
    match chars_find_from(s, sep, 0) {
        Some(i) => {
            assert(find_from(s@, sep@, 0) == Some(i as int));
            let r = chars_slice(s, 0, i);
            assert(r@ =~= s@.take(i as int));
            r
        },
        None => {
            let r = chars_slice(s, 0, s.len());
            assert(r@ =~= s@);
            r
        },
    }
}

/// The text after the last occurrence of `sep` (characters).
pub fn chars_last_piece(s: &[char], sep: &[char]) -> (r: Vec<char>)
    ensures
        r@ == last_piece(s@, sep@),
{
    match chars_rfind(s, sep) {
        Some(i) => {
            assert(rfind(s@, sep@) == Some(i as int));
            assert(s.len() == s@.len());
            let r = chars_slice(s, i + sep.len(), s.len());
            assert(r@ =~= s@.skip(i + sep@.len()));
            r
        },
        None => {
            let r = chars_slice(s, 0, s.len());
            assert(r@ =~= s@);
            r
        },
    }
}

/// Number of pieces that `split(sep)` yields, for a separator of two or
/// more characters (such as `::`).
pub fn chars_count_pieces(s: &[char], sep: &[char]) -> (n: usize)
    requires
        sep@.len() >= 2,
    ensures
        n == split_pieces(s@, sep@).len(),
{
    let mut start: usize = 0;
    assert(s@.skip(0) =~= s@);
    let mut n: usize = 1;
    loop
        invariant
            sep@.len() >= 2,
            start <= s@.len(),
            1 <= n <= start / 2 + 1,
            split_pieces(s@, sep@).len() == n - 1 + split_pieces(s@.skip(start as int), sep@).len(),
        decreases s@.len() - start,
    {
        let ghost rest = s@.skip(start as int);
        assert(s.len() == s@.len());
        match chars_find_from(s, sep, start) {
            None => {
                proof {
                    lemma_find_shift(s@, sep@, start as int);
                }
                return n;
            },
            Some(i) => {
                proof {
                    lemma_find_shift(s@, sep@, start as int);
                    assert(rest.skip(i - start + sep@.len()) =~= s@.skip(i + sep@.len()));
                }
                start = i + sep.len();
                n = n + 1;
            },
        }
    }
}

/// What `find_from` finds is an occurrence at or after the start.
pub proof fn lemma_find_from_occurs<T>(s: Seq<T>, pat: Seq<T>, i: int)
    ensures
        find_from(s, pat, i) matches Some(j) ==> i <= j && occurs_at(s, pat, j),
    decreases s.len() - i,
{
    if !(i < 0 || i + pat.len() > s.len()) && !occurs_at(s, pat, i) && i < s.len() {
        lemma_find_from_occurs(s, pat, i + 1);
    }
}

/// Searching a suffix is searching the whole from the suffix's start.
pub proof fn lemma_find_shift<T>(s: Seq<T>, pat: Seq<T>, start: int)
    requires
        0 <= start <= s.len(),
    ensures
        find_from(s.skip(start), pat, 0) == (match find_from(s, pat, start) {
            Some(i) => Some(i - start),
            None => None::<int>,
        }),
    decreases s.len() - start,
{
    lemma_find_shift_at(s, pat, start, 0);
}

proof fn lemma_find_shift_at<T>(s: Seq<T>, pat: Seq<T>, start: int, j: int)
    requires
        0 <= start <= s.len(),
        0 <= j,
    ensures
        find_from(s.skip(start), pat, j) == (match find_from(s, pat, start + j) {
            Some(i) => Some(i - start),
            None => None::<int>,
        }),
    decreases s.len() - start - j,
{
    let t = s.skip(start);
    if j + pat.len() > t.len() || pat.len() == 0 {
        if pat.len() == 0 && j <= t.len() {
            assert(t.subrange(j, j) =~= pat);
            assert(s.subrange(start + j, start + j) =~= pat);
        }
    } else {
        assert(t.subrange(j, j + pat.len()) =~= s.subrange(start + j, start + j + pat.len()));
        if !occurs_at(t, pat, j) {
            lemma_find_shift_at(s, pat, start, j + 1);
        }
    }
}

/// The strings `parts[from..to]` joined with `sep` between consecutive ones.
pub fn join_range(parts: &Vec<String>, from: usize, to: usize, sep: &str) -> (r: String)
    requires
        from <= to <= parts@.len(),
    ensures
        r@ == join(parts.deep_view().subrange(from as int, to as int), sep@),
{
    let ghost views = parts.deep_view();
    let mut r = String::new();
    let mut i: usize = from;
    assert(views.subrange(from as int, from as int).len() == 0);
    while i < to
        invariant
            from <= i <= to <= parts@.len(),
            views == parts.deep_view(),
            r@ == join(views.subrange(from as int, i as int), sep@),
        decreases to - i,
    {
        if i > from {
            r.append(sep);
        }
        r.append(parts[i].as_str());
        proof {
            assert(views.subrange(from as int, i + 1).drop_last() =~= views.subrange(from as int, i as int));
            assert(views.subrange(from as int, i + 1).last() == parts@[i as int]@);
            if i == from {
                assert(views.subrange(from as int, i + 1).len() == 1);
            }
        }
        i = i + 1;
    }
    r
}

} // verus!
