//! Views onto a slot that is known to be poisoned.

use crate::slot::{Slot, SlotData, SlotView, Status};
use vstd::prelude::*;

verus! {

/// A shared view onto a poisoned slot.
pub struct Poisoned<'a, T> {
    pub(crate) slot: &'a Slot<T>,
}

impl<'a, T> View for Poisoned<'a, T> {
    type V = SlotView<T>;

    /// The slot that the view looks at.
    closed spec fn view(&self) -> SlotView<T> {
        self.slot@
    }
}

impl<'a, T> Poisoned<'a, T> {
    /// The slot behind the view is well-formed and poisoned.
    pub closed spec fn wf(self) -> bool {
        &&& self.slot.wf()
        &&& self.slot@.status() == Status::Poisoned
    }

    /// A view onto `slot`, which the caller has found poisoned.
    #[inline]
    #[must_use]
    pub(crate) fn new(slot: &'a Slot<T>) -> (poisoned: Self)
        requires
            slot.wf(),
            slot@.status() == Status::Poisoned,
        ensures
            poisoned.wf(),
            poisoned@ == slot@,
    {
        Poisoned { slot }
    }

    /// The slot that the view looks at.
    #[inline]
    #[must_use]
    pub fn slot(self) -> (slot: &'a Slot<T>)
        ensures
            slot@ == self@,
            self.wf() ==> slot.wf(),
    {
        self.slot
    }

    /// The index of the slot that follows this one on the poison list.
    #[inline]
    #[must_use]
    pub fn next_poison(self) -> (next: Option<u32>)
        requires
            self.wf(),
        ensures
            next == self@.next,
    {
        match self.slot.data {
            SlotData::NextPoison(next) => next,
            _ => vstd::pervasive::unreached(),
        }
    }
}

impl<'a, T> Clone for Poisoned<'a, T> {
    #[inline]
    fn clone(&self) -> (copy: Self)
        ensures
            copy == *self,
    {
        *self
    }
}

impl<'a, T> Copy for Poisoned<'a, T> {}

/// An exclusive view onto a poisoned slot.
///
/// A poisoned slot is never given a value again, so the view offers no way
/// to change it. The field is public so that contracts can speak of the slot
/// that the view leaves behind when its borrow ends.
pub struct PoisonedMut<'a, T> {
    pub slot: &'a mut Slot<T>,
}

impl<'a, T> View for PoisonedMut<'a, T> {
    type V = SlotView<T>;

    /// The slot that the view looks at, as it is now.
    open spec fn view(&self) -> SlotView<T> {
        self.slot@
    }
}

impl<'a, T> PoisonedMut<'a, T> {
    /// The slot behind the view is well-formed and poisoned.
    pub open spec fn wf(self) -> bool {
        &&& self.slot.wf()
        &&& self@.status() == Status::Poisoned
    }
}

} // verus!
