//! Searching and counting in sequences.
use vstd::prelude::*;

verus! {

/// The index of the first element of `s` that satisfies `p`, if any.
pub open spec fn first_match<A>(s: Seq<A>, p: spec_fn(A) -> bool) -> Option<int> {
    if exists|i: int| 0 <= i < s.len() && p(s[i]) {
        Some(
            choose|i: int|
                0 <= i < s.len() && p(s[i]) && forall|j: int| 0 <= j < i ==> !p(#[trigger] s[j]),
        )
    } else {
        None
    }
}

/// The first match is at `i` when nothing before `i` matches and `i` does; there
/// is none when nothing matches.
pub proof fn lemma_first_match<A>(s: Seq<A>, p: spec_fn(A) -> bool, i: int)
    requires
        0 <= i <= s.len(),
        forall|j: int| 0 <= j < i ==> !p(#[trigger] s[j]),
        i == s.len() || p(s[i]),
    ensures
        i < s.len() ==> first_match(s, p) == Some(i),
        i == s.len() ==> first_match(s, p) == None::<int>,
{
    if i < s.len() {
        assert(0 <= i < s.len() && p(s[i]) && forall|j: int| 0 <= j < i ==> !p(#[trigger] s[j]));
        let c = choose|c: int|
            0 <= c < s.len() && p(s[c]) && forall|j: int| 0 <= j < c ==> !p(#[trigger] s[j]);
        if c < i {
            assert(!p(s[c]));
        }
        if c > i {
            assert(!p(s[i]));
        }
    } else {
        assert forall|k: int| 0 <= k < s.len() implies !p(s[k]) by {
            assert(!p(s[k]));
        }
    }
}

/// What `first_match` gives lies in range, matches, and nothing before it does.
pub proof fn lemma_first_match_props<A>(s: Seq<A>, p: spec_fn(A) -> bool)
    ensures
        match first_match(s, p) {
            Some(i) => 0 <= i < s.len() && p(s[i]) && forall|j: int|
                0 <= j < i ==> !p(#[trigger] s[j]),
            None => forall|j: int| 0 <= j < s.len() ==> !p(#[trigger] s[j]),
        },
{
    if exists|i: int| 0 <= i < s.len() && p(s[i]) {
        let w = choose|i: int| 0 <= i < s.len() && p(s[i]);
        let m = least_match(s, p, w);
        assert(0 <= m < s.len() && p(s[m]) && forall|j: int| 0 <= j < m ==> !p(#[trigger] s[j]));
    }
}

/// A least index that matches, at most `w`.
proof fn least_match<A>(s: Seq<A>, p: spec_fn(A) -> bool, w: int) -> (m: int)
    requires
        0 <= w < s.len(),
        p(s[w]),
    ensures
        0 <= m <= w,
        p(s[m]),
        forall|j: int| 0 <= j < m ==> !p(#[trigger] s[j]),
    decreases w,
{
    if exists|j: int| 0 <= j < w && p(s[j]) {
        let j = choose|j: int| 0 <= j < w && p(s[j]);
        least_match(s, p, j)
    } else {
        w
    }
}

/// Number of elements of `s` that satisfy `p`.
pub open spec fn count_matching<A>(s: Seq<A>, p: spec_fn(A) -> bool) -> nat
    decreases s.len(),
{
    if s.len() == 0 {
        0
    } else {
        count_matching(s.drop_last(), p) + if p(s.last()) {
            1nat
        } else {
            0nat
        }
    }
}

pub proof fn lemma_count_le_len<A>(s: Seq<A>, p: spec_fn(A) -> bool)
    ensures
        count_matching(s, p) <= s.len(),
    decreases s.len(),
{
    if s.len() > 0 {
        lemma_count_le_len(s.drop_last(), p);
    }
}

} // verus!
