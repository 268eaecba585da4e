//! `SafeSequence` for `Vec`.
//!
//! Removal and insertion move the run behind the index by one slot. The
//! move hands a single carried element from slot to slot, so no element is
//! ever duplicated or dropped and `T` needs neither `Clone` nor `Default`.
//! Removal at `idx` touches `len - idx` slots and insertion `len - idx + 1`,
//! so both are constant-time at the end and linear at the front.

use vstd::prelude::*;
use crate::sequence::SafeSequence;

verus! {

/// Pushes `element` in at `idx` and moves every element from `idx` on one
/// slot up; the element that falls off the end is returned. The length of
/// `v` stays as it is.
fn shift_up<T>(v: &mut Vec<T>, idx: usize, element: T) -> (last: T)
    requires
        idx <= old(v)@.len(),
    ensures
        last == old(v)@.insert(idx as int, element).last(),
        final(v)@ == old(v)@.insert(idx as int, element).drop_last(),
{
    let ghost before = v@;
    let ghost inserted = element;
    let len: usize = v.len();
    let mut carry = element;
    let mut j: usize = idx;
    while j < len
        invariant
            idx <= j <= len,
            v@.len() == len,
            before.len() == len,
            forall|k: int| 0 <= k < j ==> v@[k] == before.insert(idx as int, inserted)[k],
            forall|k: int| j <= k < len ==> v@[k] == before[k],
            carry == before.insert(idx as int, inserted)[j as int],
        decreases len - j,
    {
        core::mem::swap(&mut v[j], &mut carry);
        j += 1;
    }
    carry
}

/// Pushes `last` in at the end and moves every element behind `idx` one
/// slot down; the element that falls off at `idx` is returned. The length
/// of `v` stays as it is.
fn shift_down<T>(v: &mut Vec<T>, idx: usize, last: T) -> (first: T)
    requires
        idx <= old(v)@.len(),
    ensures
        first == old(v)@.push(last)[idx as int],
        final(v)@ == old(v)@.push(last).remove(idx as int),
{
    let ghost before = v@.push(last);
    let mut carry = last;
    let mut j: usize = v.len();
    while j > idx
        invariant
            idx <= j <= v@.len(),
            before.len() == v@.len() + 1,
            forall|k: int| 0 <= k < j ==> v@[k] == before[k],
            forall|k: int| j <= k < v@.len() ==> v@[k] == before[k + 1],
            carry == before[j as int],
        decreases j,
    {
        j -= 1;
        core::mem::swap(&mut v[j], &mut carry);
    }
    carry
}

/// Each contract below spells out, for a `Vec`, what the interface promises
/// through the model.
impl<T> SafeSequence<T> for Vec<T> {
    fn has_index(&self, idx: usize) -> (present: bool)
        ensures
            present == (idx < self@.len()),
    {
        idx < self.len()
    }

    fn try_get(&self, idx: usize) -> (found: Option<&T>)
        ensures
            idx < self@.len() ==> found == Some(&self@[idx as int]),
            idx >= self@.len() ==> found is None,
    {
        if self.has_index(idx) {
            Some(&self[idx])
        } else {
            None
        }
    }

    fn try_remove(&mut self, idx: usize) -> (removed: Option<T>)
        ensures
            idx < old(self)@.len() ==> {
                &&& removed == Some(old(self)@[idx as int])
                &&& final(self)@ == old(self)@.remove(idx as int)
            },
            idx >= old(self)@.len() ==> {
                &&& removed is None
                &&& *final(self) == *old(self)
            },
    {
        if self.has_index(idx) {
            match self.pop() {
                Some(last) => Some(shift_down(self, idx, last)),
                None => None,
            }
        } else {
            None
        }
    }

    fn try_insert(&mut self, idx: usize, element: T) -> (outcome: Result<(), T>)
        ensures
            idx < old(self)@.len() ==> {
                &&& outcome == Ok::<(), T>(())
                &&& final(self)@ == old(self)@.insert(idx as int, element)
            },
            idx >= old(self)@.len() ==> {
                &&& outcome == Err::<(), T>(element)
                &&& *final(self) == *old(self)
            },
    {
        if self.has_index(idx) {
            let last = shift_up(self, idx, element);
            self.push(last);
            Ok(())
        } else {
            Err(element)
        }
    }
}

} // verus!
