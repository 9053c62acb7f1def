//! Searching a text: prefixes, occurrences of a pattern, the first match.

use vstd::prelude::*;
use crate::text::chars::to_chars;

verus! {

/// `s` begins with the characters of `p`.
pub open spec fn has_prefix(s: Seq<char>, p: Seq<char>) -> bool {
    p.len() <= s.len() && s.subrange(0, p.len() as int) == p
}

/// The characters of `p` stand in `s` from index `at` on.
pub open spec fn occurs_at(s: Seq<char>, p: Seq<char>, at: int) -> bool {
    0 <= at && at + p.len() <= s.len() && s.subrange(at, at + p.len()) == p
}

/// The least index from `from` on at which `p` occurs in `s`, if there is one.
pub open spec fn first_match_from(s: Seq<char>, p: Seq<char>, from: int) -> Option<int>
    decreases s.len() + 1 - from,
{
    if from < 0 || from + p.len() > s.len() {
        None
    } else if occurs_at(s, p, from) {
        Some(from)
    } else {
        first_match_from(s, p, from + 1)
    }
}

/// The least index at which `p` occurs in `s`, if it occurs at all.
pub open spec fn first_match(s: Seq<char>, p: Seq<char>) -> Option<int> {
    first_match_from(s, p, 0)
}

/// `p` occurs somewhere in `s`.
pub open spec fn occurs(s: Seq<char>, p: Seq<char>) -> bool {
    first_match(s, p) is Some
}

/// What `first_match_from` returns is an occurrence, and the first one from
/// `from` on; where it returns nothing there is none from `from` on.
pub proof fn lemma_first_match_from(s: Seq<char>, p: Seq<char>, from: int)
    requires
        0 <= from,
    ensures
        match first_match_from(s, p, from) {
            Some(at) => from <= at && occurs_at(s, p, at) && forall|j: int|
                from <= j < at ==> !occurs_at(s, p, j),
            None => forall|j: int| from <= j ==> !occurs_at(s, p, j),
        },
    decreases s.len() + 1 - from,
{
    if from + p.len() > s.len() {
    } else if occurs_at(s, p, from) {
    } else {
        lemma_first_match_from(s, p, from + 1);
    }
}

/// `p` occurs in `s` exactly when it occurs at some index.
pub proof fn lemma_occurs(s: Seq<char>, p: Seq<char>)
    ensures
        occurs(s, p) <==> exists|at: int| occurs_at(s, p, at),
{
    lemma_first_match_from(s, p, 0);
    if occurs(s, p) {
        assert(occurs_at(s, p, first_match(s, p)->0));
    }
}

/// Whether `p` stands in `s` at index `at`, on character vectors.
pub fn matches_at(s: &Vec<char>, p: &Vec<char>, at: usize) -> (r: bool)
    ensures
        r == occurs_at(s@, p@, at as int),
{
    if p.len() > s.len() || at > s.len() - p.len() {
        return false;
    }
    let mut k: usize = 0;
    while k < p.len()
        invariant
            at + p.len() <= s.len(),
            k <= p.len(),
            forall|j: int| 0 <= j < k ==> s@[at + j] == p@[j],
        decreases p@.len() - k,
    {
        if s[at + k] != p[k] {
            assert(s@.subrange(at as int, at + p@.len())[k as int] != p@[k as int]);
            return false;
        }
        k = k + 1;
    }
    assert(s@.subrange(at as int, at + p@.len()) =~= p@);
    true
}

/// The first index from `from` on at which `p` stands in `s`, on character
/// vectors.
pub fn find_from(s: &Vec<char>, p: &Vec<char>, from: usize) -> (r: Option<usize>)
    ensures
        match r {
            Some(at) => first_match_from(s@, p@, from as int) == Some(at as int) && from <= at
                && at + p.len() <= s.len(),
            None => first_match_from(s@, p@, from as int) is None,
        },
{
    if p.len() > s.len() || from > s.len() - p.len() {
        return None;
    }
    let last: usize = s.len() - p.len();
    let mut i: usize = from;
    loop
        invariant
            from <= i <= last,
            last == s.len() - p.len(),
            first_match_from(s@, p@, from as int) == first_match_from(s@, p@, i as int),
        decreases last - i,
    {
        if matches_at(s, p, i) {
            return Some(i);
        }
        if i == last {
            assert(first_match_from(s@, p@, i + 1) is None);
            return None;
        }
        i = i + 1;
    }
}

/// The index of the first occurrence of `pattern` in `s`, counted in
/// characters.
pub fn find(s: &str, pattern: &str) -> (r: Option<usize>)
    ensures
        match r {
            Some(at) => first_match(s@, pattern@) == Some(at as int) && at + pattern@.len()
                <= s@.len(),
            None => first_match(s@, pattern@) is None,
        },
{
    let sv = to_chars(s);
    let pv = to_chars(pattern);
    find_from(&sv, &pv, 0)
}

/// Whether `pattern` occurs in `s`.
pub fn contains(s: &str, pattern: &str) -> (r: bool)
    ensures
        r == occurs(s@, pattern@),
{
    find(s, pattern).is_some()
}

/// Whether `s` begins with `prefix`.
pub fn starts_with(s: &str, prefix: &str) -> (r: bool)
    ensures
        r == has_prefix(s@, prefix@),
{
    let sv = to_chars(s);
    let pv = to_chars(prefix);
    matches_at(&sv, &pv, 0)
}

} // verus!
