//! The first element of a sequence that meets a condition.

use vstd::prelude::*;

verus! {

/// Whether `i` is the first place of `s` whose element is `wanted`.
pub open spec fn is_first_index<A>(s: Seq<A>, wanted: spec_fn(A) -> bool, i: int) -> bool {
    &&& 0 <= i < s.len()
    &&& wanted(s[i])
    &&& forall|j: int| 0 <= j < i ==> !wanted(#[trigger] s[j])
}

/// The first place of `s` whose element is `wanted`, if there is one.
pub open spec fn first_index<A>(s: Seq<A>, wanted: spec_fn(A) -> bool) -> Option<int> {
    if exists|i: int| is_first_index(s, wanted, i) {
        Some(choose|i: int| is_first_index(s, wanted, i))
    } else {
        None
    }
}

/// A place that is the first one with a wanted element is the only such
/// place, so it is the one that `first_index` gives.
pub proof fn lemma_first_index_found<A>(s: Seq<A>, wanted: spec_fn(A) -> bool, i: int)
    requires
        is_first_index(s, wanted, i),
    ensures
        first_index(s, wanted) == Some(i),
{
}

/// `first_index` gives nothing exactly where no element is wanted, and
/// otherwise the first place with a wanted element.
pub proof fn lemma_first_index<A>(s: Seq<A>, wanted: spec_fn(A) -> bool)
    ensures
        match first_index(s, wanted) {
            Some(i) => is_first_index(s, wanted, i),
            None => forall|j: int| 0 <= j < s.len() ==> !wanted(#[trigger] s[j]),
        },
{
    if first_index(s, wanted) is None {
        assert forall|j: int| 0 <= j < s.len() implies !wanted(#[trigger] s[j]) by {
            if wanted(s[j]) {
                lemma_some_wanted_has_first(s, wanted, j);
            }
        }
    }
}

/// Where some element up to place `j` is wanted, one of them is the first.
proof fn lemma_some_wanted_has_first<A>(s: Seq<A>, wanted: spec_fn(A) -> bool, j: int)
    requires
        0 <= j < s.len(),
        wanted(s[j]),
    ensures
        exists|i: int| is_first_index(s, wanted, i),
    decreases j,
{
    if exists|k: int| 0 <= k < j && wanted(s[k]) {
        let k = choose|k: int| 0 <= k < j && wanted(s[k]);
        lemma_some_wanted_has_first(s, wanted, k);
    } else {
        assert(is_first_index(s, wanted, j));
    }
}

} // verus!
