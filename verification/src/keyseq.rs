//! Reasoning helpers for sequences used as association lists: a sequence of
//! string keys models a map from each key to the first position where it
//! occurs.

use vstd::prelude::*;

verus! {

/// Position of the first occurrence of `k` in `keys`, or `-1` if absent.
pub open spec fn first_key_index(keys: Seq<Seq<char>>, k: Seq<char>) -> int
    decreases keys.len(),
{
    if keys.len() == 0 {
        -1
    } else if keys[0] == k {
        0
    } else {
        let rest = first_key_index(keys.drop_first(), k);
        if rest < 0 {
            -1
        } else {
            rest + 1
        }
    }
}

/// Whether `k` occurs in `keys`.
pub open spec fn has_key(keys: Seq<Seq<char>>, k: Seq<char>) -> bool {
    first_key_index(keys, k) >= 0
}

/// No key occurs twice.
pub open spec fn unique_keys(keys: Seq<Seq<char>>) -> bool {
    forall|i: int, j: int| 0 <= i < j < keys.len() ==> keys[i] != keys[j]
}

/// `first_key_index` finds a real occurrence, the earliest one, and finds one
/// exactly when one exists.
pub proof fn lemma_first_key_index(keys: Seq<Seq<char>>, k: Seq<char>)
    ensures
        has_key(keys, k) ==> 0 <= first_key_index(keys, k) < keys.len()
            && keys[first_key_index(keys, k)] == k,
        has_key(keys, k) <==> exists|i: int| 0 <= i < keys.len() && keys[i] == k,
        forall|j: int| 0 <= j < first_key_index(keys, k) ==> keys[j] != k,
    decreases keys.len(),
{
    if keys.len() > 0 && keys[0] != k {
        let rest = keys.drop_first();
        lemma_first_key_index(rest, k);
        assert(forall|i: int| 0 <= i < rest.len() ==> rest[i] == keys[i + 1]);
        if exists|i: int| 0 <= i < keys.len() && keys[i] == k {
            let i = choose|i: int| 0 <= i < keys.len() && keys[i] == k;
            assert(rest[i - 1] == k);
        }
        assert forall|j: int| 0 <= j < first_key_index(keys, k) implies keys[j] != k by {
            if j > 0 {
                assert(rest[j - 1] == keys[j]);
            }
        }
    }
}

/// An occurrence with no earlier occurrence is the one `first_key_index`
/// finds.
pub proof fn lemma_first_key_index_is_first(keys: Seq<Seq<char>>, k: Seq<char>, i: int)
    requires
        0 <= i < keys.len(),
        keys[i] == k,
        forall|j: int| 0 <= j < i ==> keys[j] != k,
    ensures
        first_key_index(keys, k) == i,
{
    lemma_first_key_index(keys, k);
}

} // verus!
