//! The sixteen-key keypad.

use vstd::prelude::*;
use crate::machine::KEY_COUNT;

verus! {

/// Whether key `k` is pressed and no key with a smaller index is.
pub open spec fn is_lowest_pressed(keys: Seq<bool>, k: int) -> bool {
    &&& 0 <= k < keys.len()
    &&& keys[k]
    &&& forall|j: int| 0 <= j < k ==> !keys[j]
}

/// Whether any key is pressed.
pub open spec fn any_pressed(keys: Seq<bool>) -> bool {
    exists|k: int| 0 <= k < keys.len() && keys[k]
}

/// The smallest index of a pressed key, where there is one.
pub open spec fn lowest_pressed(keys: Seq<bool>) -> int {
    choose|k: int| is_lowest_pressed(keys, k)
}

/// Among the pressed keys there is a lowest one, and `lowest_pressed` is it:
/// given that key `k` is pressed, `lowest_pressed(keys)` is a pressed key at
/// or below `k` with no pressed key below it.
pub proof fn lemma_lowest_pressed(keys: Seq<bool>, k: int)
    requires
        0 <= k < keys.len(),
        keys[k],
    ensures
        is_lowest_pressed(keys, lowest_pressed(keys)),
        lowest_pressed(keys) <= k,
    decreases k,
{
    if exists|j: int| 0 <= j < k && keys[j] {
        let j = choose|j: int| 0 <= j < k && keys[j];
        lemma_lowest_pressed(keys, j);
    } else {
        assert(is_lowest_pressed(keys, k));
        let chosen = lowest_pressed(keys);
        assert(chosen <= k) by {
            if chosen > k {
                assert(!keys[k]);
            }
        }
    }
}

/// Scans the key latches in ascending order and returns the index of the
/// first one that is pressed, or `None` where no key is pressed.
pub fn first_pressed(keys: &[bool; KEY_COUNT]) -> (found: Option<u8>)
    ensures
        any_pressed(keys@) <==> found is Some,
        found matches Some(k) ==> k == lowest_pressed(keys@) && is_lowest_pressed(keys@, k as int),
{
    let mut k: usize = 0;
    while k < KEY_COUNT
        invariant
            k <= KEY_COUNT,
            forall|j: int| 0 <= j < k ==> !keys@[j],
        decreases KEY_COUNT - k,
    {
        if keys[k] {
            proof {
                lemma_lowest_pressed(keys@, k as int);
                let chosen = lowest_pressed(keys@);
                assert(chosen == k) by {
                    if chosen < k {
                        assert(!keys@[chosen]);
                    }
                }
            }
            return Some(k as u8);
        }
        k += 1;
    }
    None
}

} // verus!
