//! The first position in a sequence at which a predicate holds.
use vstd::prelude::*;

verus! {

/// `i` is a position of `s` where `p` holds, and `p` holds at no earlier position.
pub open spec fn is_first<A>(s: Seq<A>, p: spec_fn(A) -> bool, i: int) -> bool {
    &&& 0 <= i < s.len()
    &&& p(s[i])
    &&& forall|j: int| 0 <= j < i ==> !p(#[trigger] s[j])
}

/// The first position of `s` where `p` holds, if there is one.
pub open spec fn first_index<A>(s: Seq<A>, p: spec_fn(A) -> bool) -> Option<int> {
    if exists|i: int| is_first(s, p, i) {
        Some(choose|i: int| is_first(s, p, i))
    } else {
        None
    }
}

/// The first position is unique.
pub proof fn lemma_first_unique<A>(s: Seq<A>, p: spec_fn(A) -> bool, i: int, k: int)
    requires
        is_first(s, p, i),
        is_first(s, p, k),
    ensures
        i == k,
{
    if i < k {
        assert(!p(s[i]));
    } else if k < i {
        assert(!p(s[k]));
    }
}

/// A position found by a left-to-right search is the first position.
pub proof fn lemma_first_found<A>(s: Seq<A>, p: spec_fn(A) -> bool, i: int)
    requires
        is_first(s, p, i),
    ensures
        first_index(s, p) == Some(i),
{
    let k = choose|k: int| is_first(s, p, k);
    lemma_first_unique(s, p, i, k);
}

/// A search that found nothing means that there is no first position.
pub proof fn lemma_first_absent<A>(s: Seq<A>, p: spec_fn(A) -> bool)
    requires
        forall|j: int| 0 <= j < s.len() ==> !p(#[trigger] s[j]),
    ensures
        first_index(s, p) is None,
{
    if exists|i: int| is_first(s, p, i) {
        let i = choose|i: int| is_first(s, p, i);
        assert(p(s[i]));
    }
}

/// Two sequences on which `p` agrees position by position have the same first position.
pub proof fn lemma_first_congruent<A>(s1: Seq<A>, s2: Seq<A>, p: spec_fn(A) -> bool)
    requires
        s1.len() == s2.len(),
        forall|j: int| 0 <= j < s1.len() ==> p(#[trigger] s1[j]) == p(s2[j]),
    ensures
        first_index(s1, p) == first_index(s2, p),
{
    if exists|i: int| is_first(s1, p, i) {
        let i = choose|i: int| is_first(s1, p, i);
        assert forall|j: int| 0 <= j < i implies !p(#[trigger] s2[j]) by {
            assert(!p(s1[j]));
        }
        assert(is_first(s2, p, i));
        lemma_first_found(s1, p, i);
        lemma_first_found(s2, p, i);
    } else {
        lemma_first_absent_from(s1, p);
        assert forall|j: int| 0 <= j < s2.len() implies !p(#[trigger] s2[j]) by {
            assert(!p(s1[j]));
        }
        lemma_first_absent(s2, p);
    }
}

/// If `p` holds somewhere at or before `j`, then `s` has a first position for `p`.
pub proof fn lemma_has_first<A>(s: Seq<A>, p: spec_fn(A) -> bool, j: int)
    requires
        0 <= j < s.len(),
        p(s[j]),
    ensures
        exists|i: int| is_first(s, p, i),
    decreases j,
{
    if exists|k: int| 0 <= k < j && p(#[trigger] s[k]) {
        let k = choose|k: int| 0 <= k < j && p(#[trigger] s[k]);
        lemma_has_first(s, p, k);
    } else {
        assert(is_first(s, p, j));
    }
}

/// Without a first position, `p` holds nowhere.
pub proof fn lemma_first_absent_from<A>(s: Seq<A>, p: spec_fn(A) -> bool)
    requires
        !(exists|i: int| is_first(s, p, i)),
    ensures
        forall|j: int| 0 <= j < s.len() ==> !p(#[trigger] s[j]),
        first_index(s, p) is None,
{
    assert forall|j: int| 0 <= j < s.len() implies !p(#[trigger] s[j]) by {
        if p(s[j]) {
            lemma_has_first(s, p, j);
        }
    }
}

/// What `first_index` gives: a first position where `p` holds, or nothing
/// when `p` holds nowhere.
pub proof fn lemma_first_index_meaning<A>(s: Seq<A>, p: spec_fn(A) -> bool)
    ensures
        match first_index(s, p) {
            Some(i) => {
                &&& 0 <= i < s.len()
                &&& p(s[i])
                &&& forall|j: int| 0 <= j < i ==> !p(#[trigger] s[j])
            },
            None => forall|j: int| 0 <= j < s.len() ==> !p(#[trigger] s[j]),
        },
{
    if exists|i: int| is_first(s, p, i) {
        let i = choose|i: int| is_first(s, p, i);
        lemma_first_found(s, p, i);
    } else {
        lemma_first_absent_from(s, p);
    }
}

} // verus!
