//! First-match scans over sequences.
//!
//! Every priority rule in the engine is "the first element satisfying a
//! predicate wins", so the scans share one spec function and its
//! characterization lemmas.

use vstd::prelude::*;

verus! {

/// Index of the first element of `s` satisfying `p`, if any.
pub open spec fn first_match<T>(s: Seq<T>, p: spec_fn(T) -> bool) -> Option<int>
    decreases s.len(),
{
    if s.len() == 0 {
        None
    } else if p(s[0]) {
        Some(0int)
    } else {
        match first_match(s.skip(1), p) {
            Some(i) => Some(i + 1),
            None => None,
        }
    }
}

/// What `first_match` returns: the first satisfying index, or nothing when
/// no element satisfies `p`.
pub proof fn lemma_first_match<T>(s: Seq<T>, p: spec_fn(T) -> bool)
    ensures
        match first_match(s, p) {
            Some(i) => 0 <= i < s.len() && p(s[i]) && (forall|j: int| 0 <= j < i ==> !p(s[j])),
            None => forall|j: int| 0 <= j < s.len() ==> !p(s[j]),
        },
    decreases s.len(),
{
    if s.len() == 0 {
    } else if p(s[0]) {
    } else {
        let sub = s.skip(1);
        lemma_first_match(sub, p);
        match first_match(sub, p) {
            Some(i) => {
                assert(sub[i] == s[i + 1]);
                assert(forall|j: int| 1 <= j < i + 1 ==> s[j] == sub[j - 1] && !p(sub[j - 1]));
                assert(forall|j: int| 0 <= j < i + 1 ==> !p(s[j]));
            },
            None => {
                assert(forall|j: int| 1 <= j < s.len() ==> s[j] == sub[j - 1] && !p(sub[j - 1]));
                assert(forall|j: int| 0 <= j < s.len() ==> !p(s[j]));
            },
        }
    }
}

/// If `i` is a satisfying index and nothing before it satisfies `p`, then
/// `first_match` returns exactly `i`.
pub proof fn lemma_first_match_is<T>(s: Seq<T>, p: spec_fn(T) -> bool, i: int)
    requires
        0 <= i < s.len(),
        p(s[i]),
        forall|j: int| 0 <= j < i ==> !p(s[j]),
    ensures
        first_match(s, p) == Some(i),
    decreases s.len(),
{
    if i == 0 {
    } else {
        assert(!p(s[0]));
        assert(s.skip(1)[i - 1] == s[i]);
        assert(forall|j: int| 0 <= j < i - 1 ==> s.skip(1)[j] == s[j + 1] && !p(s.skip(1)[j]));
        lemma_first_match_is(s.skip(1), p, i - 1);
    }
}

/// If nothing in `s` satisfies `p`, `first_match` returns nothing.
pub proof fn lemma_first_match_none<T>(s: Seq<T>, p: spec_fn(T) -> bool)
    requires
        forall|j: int| 0 <= j < s.len() ==> !p(s[j]),
    ensures
        first_match(s, p) is None,
{
    lemma_first_match(s, p);
}

} // verus!
