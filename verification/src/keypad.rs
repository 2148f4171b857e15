//! The keypad as instructions see it: sixteen key states, sampled as they are.

use vstd::prelude::*;

verus! {

/// Whether at least one key is down.
pub open spec fn any_pressed(keys: Seq<bool>) -> bool {
    exists|k: int| 0 <= k < keys.len() && keys[k]
}

/// Whether key `k` is down and no key with a lower number is.
pub open spec fn is_lowest_pressed(keys: Seq<bool>, k: int) -> bool {
    &&& 0 <= k < keys.len()
    &&& keys[k]
    &&& forall|j: int| 0 <= j < k ==> !keys[j]
}

/// Number of the lowest key that is down. Meaningful only if one is.
pub open spec fn lowest_pressed(keys: Seq<bool>) -> int {
    choose|k: int| is_lowest_pressed(keys, k)
}

/// At most one key is the lowest one down, so finding it determines
/// [`lowest_pressed`].
pub proof fn lemma_lowest_pressed_unique(keys: Seq<bool>, k: int)
    requires
        is_lowest_pressed(keys, k),
    ensures
        lowest_pressed(keys) == k,
        any_pressed(keys),
{
    let l = lowest_pressed(keys);
    assert(is_lowest_pressed(keys, l));
    if l < k {
        assert(!keys[l]);
    } else if k < l {
        assert(!keys[k]);
    }
}

/// If key `k` is down, some key at or below `k` is the lowest one down.
pub proof fn lemma_lowest_pressed_below(keys: Seq<bool>, k: int)
    requires
        0 <= k < keys.len(),
        keys[k],
    ensures
        is_lowest_pressed(keys, lowest_pressed(keys)),
        lowest_pressed(keys) <= k,
    decreases k,
{
    if forall|j: int| 0 <= j < k ==> !keys[j] {
        lemma_lowest_pressed_unique(keys, k);
    } else {
        let j = choose|j: int| 0 <= j < k && keys[j];
        lemma_lowest_pressed_below(keys, j);
    }
}

/// While any key is down, [`lowest_pressed`] names a key that is down, and no
/// key below it is.
pub proof fn lemma_lowest_pressed_exists(keys: Seq<bool>)
    requires
        any_pressed(keys),
    ensures
        is_lowest_pressed(keys, lowest_pressed(keys)),
{
    let k = choose|k: int| 0 <= k < keys.len() && keys[k];
    lemma_lowest_pressed_below(keys, k);
}

} // verus!
