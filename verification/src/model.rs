//! The mathematical model of the operations: what each one yields and
//! leaves behind, stated on a `Seq` of the elements.

use vstd::prelude::*;

verus! {

/// An index is live in `s` when it names an element that `s` holds.
pub open spec fn live<T>(s: Seq<T>, idx: int) -> bool {
    0 <= idx < s.len()
}

/// The element found at `idx`: present exactly when `idx` is live.
pub open spec fn element_at<T>(s: Seq<T>, idx: int) -> Option<T> {
    if live(s, idx) {
        Some(s[idx])
    } else {
        None
    }
}

/// What removal at `idx` leaves: `s` without the element at `idx` when
/// `idx` is live, and `s` itself otherwise.
pub open spec fn after_remove<T>(s: Seq<T>, idx: int) -> Seq<T> {
    if live(s, idx) {
        s.remove(idx)
    } else {
        s
    }
}

/// What insertion of `element` at `idx` leaves: `s` with `element` standing
/// at `idx` when `idx` is live, and `s` itself otherwise. The length of `s`
/// is not a live index, so insertion never appends.
pub open spec fn after_insert<T>(s: Seq<T>, idx: int, element: T) -> Seq<T> {
    if live(s, idx) {
        s.insert(idx, element)
    } else {
        s
    }
}

/// What insertion of `element` at `idx` reports: success when `idx` is
/// live, and otherwise a failure that carries `element` back.
pub open spec fn insert_outcome<T>(s: Seq<T>, idx: int, element: T) -> Result<(), T> {
    if live(s, idx) {
        Ok(())
    } else {
        Err(element)
    }
}

} // verus!
