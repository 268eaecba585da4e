//! What the model guarantees, proved once for every sequence.

use vstd::prelude::*;
use crate::model::{after_insert, after_remove, element_at, insert_outcome, live};

verus! {

/// Removal at a live index shortens the sequence by exactly one element,
/// keeps every element before the index in place and moves every element
/// behind it one position down.
pub proof fn lemma_remove_shifts_down<T>(s: Seq<T>, idx: int)
    requires
        live(s, idx),
    ensures
        after_remove(s, idx).len() == s.len() - 1,
        forall|k: int| 0 <= k < idx ==> after_remove(s, idx)[k] == s[k],
        forall|k: int| idx <= k < s.len() - 1 ==> after_remove(s, idx)[k] == s[k + 1],
{
}

/// Insertion at a live index succeeds, lengthens the sequence by exactly
/// one element, puts the new element at the index, keeps every element
/// before the index in place and moves every other element one position up.
pub proof fn lemma_insert_shifts_up<T>(s: Seq<T>, idx: int, element: T)
    requires
        live(s, idx),
    ensures
        insert_outcome(s, idx, element) == Ok::<(), T>(()),
        after_insert(s, idx, element).len() == s.len() + 1,
        after_insert(s, idx, element)[idx] == element,
        forall|k: int| 0 <= k < idx ==> after_insert(s, idx, element)[k] == s[k],
        forall|k: int| idx < k <= s.len() ==> after_insert(s, idx, element)[k] == s[k - 1],
{
}

/// At an index that is not live, reading and removal yield nothing,
/// insertion hands the element back, and the sequence stays as it is.
pub proof fn lemma_not_live_changes_nothing<T>(s: Seq<T>, idx: int, element: T)
    requires
        !live(s, idx),
    ensures
        element_at(s, idx) is None,
        after_remove(s, idx) == s,
        insert_outcome(s, idx, element) == Err::<(), T>(element),
        after_insert(s, idx, element) == s,
{
}

/// The length of a sequence is not a live index, so insertion there is
/// refused: the operations never append.
pub proof fn lemma_length_is_not_live<T>(s: Seq<T>, element: T)
    ensures
        !live(s, s.len() as int),
        insert_outcome(s, s.len() as int, element) == Err::<(), T>(element),
        after_insert(s, s.len() as int, element) == s,
{
}

/// Insertion at a live index followed by removal at the same index gives
/// back the inserted element and the sequence as it was.
pub proof fn lemma_insert_then_remove<T>(s: Seq<T>, idx: int, element: T)
    requires
        live(s, idx),
    ensures
        live(after_insert(s, idx, element), idx),
        element_at(after_insert(s, idx, element), idx) == Some(element),
        after_remove(after_insert(s, idx, element), idx) == s,
{
}

} // verus!
