//! First-match search over a sequence, shared by the device, audio and
//! monitor selection logic: the index of the first element satisfying a
//! predicate, in enumeration order.

use vstd::prelude::*;

verus! {

/// The index of the first element of `s` satisfying `f`, if any.
pub open spec fn spec_find_first<T>(s: Seq<T>, f: spec_fn(T) -> bool) -> Option<int>
    decreases s.len(),
{
    if s.len() == 0 {
        None
    } else if f(s[0]) {
        Some(0int)
    } else {
        match spec_find_first(s.skip(1), f) {
            Some(i) => Some(i + 1),
            None => None,
        }
    }
}

/// What `spec_find_first` returns: a valid index of the first match, or
/// nothing when no element matches.
pub proof fn lemma_find_first_props<T>(s: Seq<T>, f: spec_fn(T) -> bool)
    ensures
        match spec_find_first(s, f) {
            Some(i) => 0 <= i < s.len() && f(s[i]) && (forall|j: int|
                0 <= j < i ==> !f(#[trigger] s[j])),
            None => forall|j: int| 0 <= j < s.len() ==> !f(#[trigger] s[j]),
        },
    decreases s.len(),
{
    if s.len() > 0 && !f(s[0]) {
        lemma_find_first_props(s.skip(1), f);
        assert(forall|j: int| 1 <= j < s.len() ==> #[trigger] s[j] == s.skip(1)[j - 1]);
    }
}

/// If the elements before `k` do not satisfy `f` and `s[k]` does, then `k`
/// is the first match.
pub proof fn lemma_find_first_at<T>(s: Seq<T>, f: spec_fn(T) -> bool, k: int)
    requires
        0 <= k < s.len(),
        f(s[k]),
        forall|j: int| 0 <= j < k ==> !f(#[trigger] s[j]),
    ensures
        spec_find_first(s, f) == Some(k),
    decreases k,
{
    if k == 0 {
    } else {
        assert(forall|j: int| 0 <= j < s.skip(1).len() ==> s.skip(1)[j] == s[j + 1]);
        lemma_find_first_at(s.skip(1), f, k - 1);
    }
}

/// If no element satisfies `f`, the search finds nothing.
pub proof fn lemma_find_first_none<T>(s: Seq<T>, f: spec_fn(T) -> bool)
    requires
        forall|j: int| 0 <= j < s.len() ==> !f(#[trigger] s[j]),
    ensures
        spec_find_first(s, f) is None,
{
    lemma_find_first_props(s, f);
    match spec_find_first(s, f) {
        Some(i) => {
            assert(!f(s[i]));
        },
        None => {},
    }
}

} // verus!
