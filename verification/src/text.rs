//! Character-level text search shared by the normalizer and the change
//! detector.
//!
//! Text is modelled as a `Seq<char>`, the view of `str` and `String`.

use vstd::prelude::*;

verus! {

/// ASCII lower-casing of one character: `A`..`Z` map to `a`..`z`, every other
/// character is left alone.
pub open spec fn lower_char(c: char) -> char {
    if 'A' <= c && c <= 'Z' {
        ((c as u8 + 32) as u8) as char
    } else {
        c
    }
}

/// ASCII lower-casing of a whole text, character by character.
pub open spec fn lower(s: Seq<char>) -> Seq<char> {
    Seq::new(s.len(), |i: int| lower_char(s[i]))
}

/// `needle` occurs in `hay` starting at index `i`.
pub open spec fn matches_at(hay: Seq<char>, needle: Seq<char>, i: int) -> bool {
    &&& 0 <= i
    &&& i + needle.len() <= hay.len()
    &&& hay.subrange(i, i + needle.len()) == needle
}

/// `needle` occurs in `hay` at index `i` and nowhere before it.
pub open spec fn is_first_match(hay: Seq<char>, needle: Seq<char>, i: int) -> bool {
    &&& matches_at(hay, needle, i)
    &&& forall|j: int| 0 <= j < i ==> !matches_at(hay, needle, j)
}

/// The index of the first occurrence of `needle` in `hay`, if there is one.
pub open spec fn first_match(hay: Seq<char>, needle: Seq<char>) -> Option<int> {
    if exists|i: int| is_first_match(hay, needle, i) {
        Some(choose|i: int| is_first_match(hay, needle, i))
    } else {
        None
    }
}

/// `needle` occurs somewhere in `hay`.
pub open spec fn contains(hay: Seq<char>, needle: Seq<char>) -> bool {
    exists|i: int| matches_at(hay, needle, i)
}

/// A first occurrence is unique, so knowing one determines `first_match`.
pub proof fn lemma_first_match_unique(hay: Seq<char>, needle: Seq<char>, i: int)
    requires
        is_first_match(hay, needle, i),
    ensures
        first_match(hay, needle) == Some(i),
{
    let p = choose|p: int| is_first_match(hay, needle, p);
    assert(is_first_match(hay, needle, p));
    if p < i {
        assert(!matches_at(hay, needle, p));
    }
    if i < p {
        assert(!matches_at(hay, needle, i));
    }
}

/// Without any occurrence there is no first one.
pub proof fn lemma_first_match_none(hay: Seq<char>, needle: Seq<char>)
    requires
        !contains(hay, needle),
    ensures
        first_match(hay, needle) is None,
{
    assert forall|i: int| !is_first_match(hay, needle, i) by {
        assert(!matches_at(hay, needle, i));
    }
}

/// Whatever `first_match` reports is a first occurrence.
pub proof fn lemma_first_match_some(hay: Seq<char>, needle: Seq<char>)
    ensures
        first_match(hay, needle) matches Some(i) ==> is_first_match(hay, needle, i),
{
}

/// Among the occurrences at or after `from` there is a least one, as soon as
/// there is any.
proof fn lemma_least_match(hay: Seq<char>, needle: Seq<char>, from: int, i: int)
    requires
        0 <= from <= i,
        matches_at(hay, needle, i),
        forall|j: int| 0 <= j < from ==> !matches_at(hay, needle, j),
    ensures
        first_match(hay, needle) is Some,
    decreases i - from,
{
    if matches_at(hay, needle, from) {
        lemma_first_match_unique(hay, needle, from);
    } else {
        lemma_least_match(hay, needle, from + 1, i);
    }
}

/// `first_match` finds an occurrence exactly when `contains` holds.
pub proof fn lemma_first_match_iff_contains(hay: Seq<char>, needle: Seq<char>)
    ensures
        first_match(hay, needle) is Some <==> contains(hay, needle),
{
    if contains(hay, needle) {
        let i = choose|i: int| matches_at(hay, needle, i);
        lemma_least_match(hay, needle, 0, i);
    } else {
        lemma_first_match_none(hay, needle);
    }
}

/// Lower-casing commutes with dropping a prefix.
pub proof fn lemma_lower_skip(s: Seq<char>, n: int)
    requires
        0 <= n <= s.len(),
    ensures
        lower(s.skip(n)) == lower(s).skip(n),
{
    assert(lower(s.skip(n)) =~= lower(s).skip(n));
}

/// An occurrence in a suffix is an occurrence in the whole text, shifted.
pub proof fn lemma_matches_at_skip(hay: Seq<char>, needle: Seq<char>, n: int, i: int)
    requires
        0 <= n <= hay.len(),
        0 <= i,
    ensures
        matches_at(hay.skip(n), needle, i) == matches_at(hay, needle, n + i),
{
    if i + needle.len() <= hay.len() - n {
        assert(hay.skip(n).subrange(i, i + needle.len()) =~= hay.subrange(
            n + i,
            n + i + needle.len(),
        ));
    }
}

/// Lower-casing distributes over concatenation.
pub proof fn lemma_lower_concat(a: Seq<char>, b: Seq<char>)
    ensures
        lower(a + b) == lower(a) + lower(b),
{
    assert(lower(a + b) =~= lower(a) + lower(b));
}

/// An occurrence that ends inside a prefix does not depend on what follows
/// the prefix.
pub proof fn lemma_matches_at_prefix(a: Seq<char>, b: Seq<char>, needle: Seq<char>, i: int)
    requires
        0 <= i,
        i + needle.len() <= a.len(),
    ensures
        matches_at(a + b, needle, i) == matches_at(a, needle, i),
{
    assert((a + b).subrange(i, i + needle.len()) =~= a.subrange(i, i + needle.len()));
}

/// The characters of `s`, in order, as an indexable vector.
pub fn to_chars(s: &str) -> (out: Vec<char>)
    ensures
        out@ == s@,
{
    let mut out: Vec<char> = Vec::new();
    for c in it: s.chars()
        invariant
            out@ == it.seq().take(it.index() as int),
            it.seq() == s@,
    {
        out.push(c);
    }
    out
}

/// ASCII lower-casing of one character.
pub fn to_lower_char(c: char) -> (out: char)
    ensures
        out == lower_char(c),
{
    if 'A' <= c && c <= 'Z' {
        let b: u8 = c as u8;
        (b + 32) as char
    } else {
        c
    }
}

/// ASCII lower-casing of a whole text.
pub fn to_lower(s: &Vec<char>) -> (out: Vec<char>)
    ensures
        out@ == lower(s@),
{
    let mut out: Vec<char> = Vec::new();
    let mut i: usize = 0;
    while i < s.len()
        invariant
            i <= s.len(),
            out@ == lower(s@).take(i as int),
        decreases s.len() - i,
    {
        out.push(to_lower_char(s[i]));
        i += 1;
        assert(out@ =~= lower(s@).take(i as int));
    }
    assert(lower(s@).take(s.len() as int) =~= lower(s@));
    out
}

/// Whether `needle` occurs in `hay` at index `i`.
pub fn occurs_at(hay: &Vec<char>, needle: &Vec<char>, i: usize) -> (out: bool)
    ensures
        out == matches_at(hay@, needle@, i as int),
{
    if needle.len() > hay.len() || i > hay.len() - needle.len() {
        return false;
    }
    let mut k: usize = 0;
    while k < needle.len()
        invariant
            k <= needle.len(),
            i + needle.len() <= hay.len(),
            forall|j: int| 0 <= j < k ==> hay@[i + j] == needle@[j],
        decreases needle.len() - k,
    {
        if hay[i + k] != needle[k] {
            assert(hay@.subrange(i as int, i + needle.len())[k as int] == hay@[i + k]);
            return false;
        }
        k += 1;
    }
    assert(hay@.subrange(i as int, i + needle.len()) =~= needle@);
    true
}

/// The first occurrence of `needle` in `hay` at or after index `from`, as an
/// index into `hay`. Behind the end of `hay` nothing is found.
pub fn find_from(hay: &Vec<char>, needle: &Vec<char>, from: usize) -> (out: Option<usize>)
    ensures
        from > hay.len() ==> out is None,
        from <= hay.len() ==> match out {
            Some(i) => from <= i && first_match(hay@.skip(from as int), needle@) == Some(i - from),
            None => first_match(hay@.skip(from as int), needle@) is None,
        },
{
    if from > hay.len() {
        return None;
    }
    let ghost tail = hay@.skip(from as int);
    let mut i: usize = from;
    while i < hay.len()
        invariant
            from <= i <= hay.len(),
            tail == hay@.skip(from as int),
            forall|j: int| 0 <= j < i - from ==> !matches_at(tail, needle@, j),
        decreases hay.len() - i,
    {
        proof {
            lemma_matches_at_skip(hay@, needle@, from as int, i - from);
        }
        if occurs_at(hay, needle, i) {
            proof {
                lemma_first_match_unique(tail, needle@, i - from);
            }
            return Some(i);
        }
        i += 1;
    }
    proof {
        lemma_matches_at_skip(hay@, needle@, from as int, i - from);
    }
    if occurs_at(hay, needle, i) {
        proof {
            lemma_first_match_unique(tail, needle@, i - from);
        }
        return Some(i);
    }
    proof {
        lemma_first_match_none(tail, needle@);
    }
    None
}

} // verus!
