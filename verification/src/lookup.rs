//! First-match search, the way `Iterator::position` finds an element.
use vstd::prelude::*;

verus! {

/// The first index in `0..n` where `p` holds, if there is one.
pub open spec fn first_index(n: int, p: spec_fn(int) -> bool) -> Option<int> {
    if exists|i: int| 0 <= i < n && #[trigger] p(i) {
        Some(choose|i: int| 0 <= i < n && #[trigger] p(i) && forall|j: int| 0 <= j < i ==> !#[trigger] p(j))
    } else {
        None
    }
}

/// Where `p` holds somewhere in `0..n`, it holds at a least index.
pub proof fn lemma_least_index_exists(n: int, p: spec_fn(int) -> bool)
    requires
        exists|i: int| 0 <= i < n && #[trigger] p(i),
    ensures
        exists|i: int| 0 <= i < n && #[trigger] p(i) && forall|j: int| 0 <= j < i ==> !#[trigger] p(j),
    decreases n,
{
    if n <= 0 {
    } else if exists|i: int| 0 <= i < n - 1 && #[trigger] p(i) {
        lemma_least_index_exists(n - 1, p);
        let k = choose|i: int| 0 <= i < n - 1 && #[trigger] p(i) && forall|j: int| 0 <= j < i ==> !#[trigger] p(j);
        assert(0 <= k < n && p(k) && forall|j: int| 0 <= j < k ==> !#[trigger] p(j));
    } else {
        assert(p(n - 1));
        assert(forall|j: int| 0 <= j < n - 1 ==> !#[trigger] p(j));
    }
}

/// What `first_index` gives: the least index where `p` holds, or `None`
/// when it holds nowhere.
pub proof fn lemma_first_index(n: int, p: spec_fn(int) -> bool)
    ensures
        match first_index(n, p) {
            Some(k) => 0 <= k < n && p(k) && forall|j: int| 0 <= j < k ==> !#[trigger] p(j),
            None => forall|i: int| 0 <= i < n ==> !#[trigger] p(i),
        },
{
    if exists|i: int| 0 <= i < n && #[trigger] p(i) {
        lemma_least_index_exists(n, p);
    }
}

/// An index where `p` holds and before which it never holds is the first.
pub proof fn lemma_first_index_is(n: int, p: spec_fn(int) -> bool, k: int)
    requires
        0 <= k < n,
        p(k),
        forall|j: int| 0 <= j < k ==> !#[trigger] p(j),
    ensures
        first_index(n, p) == Some(k),
{
    lemma_first_index(n, p);
    let c = first_index(n, p)->0;
    if c < k {
        assert(!p(c));
    } else if c > k {
        assert(!p(k));
    }
}

/// Where `p` holds nowhere there is no first index.
pub proof fn lemma_first_index_none(n: int, p: spec_fn(int) -> bool)
    requires
        forall|i: int| 0 <= i < n ==> !#[trigger] p(i),
    ensures
        first_index(n, p) is None,
{
}

} // verus!
