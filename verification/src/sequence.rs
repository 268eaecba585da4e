//! The `SafeSequence` interface and its contracts.

use vstd::prelude::*;
use crate::model::{after_insert, after_remove, element_at, insert_outcome, live};

verus! {

/// Positional operations that signal an index that is not live in place of
/// aborting.
///
/// The contracts are stated over the view of the sequence, a `Seq<T>` of
/// its elements in order, and agree on one notion of validity: `live`.
pub trait SafeSequence<T>: View<V = Seq<T>> + Sized {
    /// Tells whether `idx` is a live index.
    fn has_index(&self, idx: usize) -> (present: bool)
        ensures
            present == live(self@, idx as int),
    ;

    /// Borrows the element at `idx` if `idx` is live, and reports its
    /// absence otherwise.
    fn try_get(&self, idx: usize) -> (found: Option<&T>)
        ensures
            found == match element_at(self@, idx as int) {
                Some(element) => Some(&element),
                None => None,
            },
    ;

    /// Takes the element at `idx` out of the sequence if `idx` is live; the
    /// elements behind it move one position down and keep their order.
    /// Otherwise reports absence and leaves the sequence as it was.
    fn try_remove(&mut self, idx: usize) -> (removed: Option<T>)
        ensures
            removed == element_at(old(self)@, idx as int),
            final(self)@ == after_remove(old(self)@, idx as int),
            !live(old(self)@, idx as int) ==> *final(self) == *old(self),
    ;

    /// Places `element` at `idx` if `idx` is live; the element that stood
    /// there and those behind it move one position up and keep their order.
    /// Otherwise hands `element` back in `Err` and leaves the sequence as it
    /// was.
    fn try_insert(&mut self, idx: usize, element: T) -> (outcome: Result<(), T>)
        ensures
            outcome == insert_outcome(old(self)@, idx as int, element),
            final(self)@ == after_insert(old(self)@, idx as int, element),
            !live(old(self)@, idx as int) ==> *final(self) == *old(self),
    ;
}

} // verus!
