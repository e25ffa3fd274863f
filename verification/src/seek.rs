//! First-match search in sequences of keys.
//!
//! The collections of the state store are searched front to back for the
//! first item under a key; `position` is the mathematical account of that
//! search and `first_at` the property it returns.

use vstd::prelude::*;

verus! {

/// Whether `i` is the least index at which `keys` holds `k`.
pub open spec fn first_at<K>(keys: Seq<K>, k: K, i: int) -> bool {
    &&& 0 <= i < keys.len()
    &&& keys[i] == k
    &&& forall|j: int| 0 <= j < i ==> keys[j] != k
}

/// The least index at which `keys` holds `k`, if any does.
pub open spec fn position<K>(keys: Seq<K>, k: K) -> Option<int> {
    if exists|i: int| first_at(keys, k, i) {
        Some(choose|i: int| first_at(keys, k, i))
    } else {
        None
    }
}

proof fn lemma_first_exists<K>(keys: Seq<K>, k: K, m: int)
    requires
        0 <= m < keys.len(),
        keys[m] == k,
    ensures
        exists|i: int| first_at(keys, k, i),
    decreases m,
{
    if forall|j: int| 0 <= j < m ==> keys[j] != k {
        assert(first_at(keys, k, m));
    } else {
        let j = choose|j: int| 0 <= j < m && keys[j] == k;
        lemma_first_exists(keys, k, j);
    }
}

/// `position` finds the first match, and finds nothing only where nothing
/// matches.
pub proof fn lemma_position<K>(keys: Seq<K>, k: K)
    ensures
        match position(keys, k) {
            Some(i) => first_at(keys, k, i),
            None => forall|i: int| 0 <= i < keys.len() ==> keys[i] != k,
        },
{
    if position(keys, k) is None {
        assert forall|i: int| 0 <= i < keys.len() implies keys[i] != k by {
            if keys[i] == k {
                lemma_first_exists(keys, k, i);
            }
        }
    }
}

/// A first match is the position.
pub proof fn lemma_position_is<K>(keys: Seq<K>, k: K, i: int)
    requires
        first_at(keys, k, i),
    ensures
        position(keys, k) == Some(i),
{
    let c = choose|c: int| first_at(keys, k, c);
    assert(c == i);
}

/// Where nothing matches there is no position.
pub proof fn lemma_position_none<K>(keys: Seq<K>, k: K)
    requires
        forall|i: int| 0 <= i < keys.len() ==> keys[i] != k,
    ensures
        position(keys, k) is None,
{
}

} // verus!
