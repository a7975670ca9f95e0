//! Views onto a slot that is known to be vacant.

use crate::slot::{next_of, OccupiedMut, Slot, SlotData, SlotView, Status};
use vstd::prelude::*;

verus! {

/// A shared view onto a vacant slot.
pub struct Vacant<'a, T> {
    pub(crate) slot: &'a Slot<T>,
}

impl<'a, T> View for Vacant<'a, T> {
    type V = SlotView<T>;

    /// The slot that the view looks at.
    closed spec fn view(&self) -> SlotView<T> {
        self.slot@
    }
}

impl<'a, T> Vacant<'a, T> {
    /// The slot behind the view is well-formed and vacant.
    pub closed spec fn wf(self) -> bool {
        &&& self.slot.wf()
        &&& self.slot@.status() == Status::Vacant
    }

    /// A view onto `slot`, which the caller has found vacant.
    #[inline]
    #[must_use]
    pub(crate) fn new(slot: &'a Slot<T>) -> (vacant: Self)
        requires
            slot.wf(),
            slot@.status() == Status::Vacant,
        ensures
            vacant.wf(),
            vacant@ == slot@,
    {
        Vacant { slot }
    }

    /// The slot that the view looks at.
    #[inline]
    #[must_use]
    pub fn slot(self) -> (slot: &'a Slot<T>)
        ensures
            slot@ == self@,
            self.wf() ==> slot.wf(),
    {
        self.slot
    }

    /// The index of the slot that follows this one on the vacant list.
    #[inline]
    #[must_use]
    pub fn next_vacant(self) -> (next: Option<u32>)
        requires
            self.wf(),
        ensures
            next == self@.next,
    {
        match self.slot.data {
            SlotData::NextVacant(next) => next,
            _ => vstd::pervasive::unreached(),
        }
    }
}

impl<'a, T> Clone for Vacant<'a, T> {
    #[inline]
    fn clone(&self) -> (copy: Self)
        ensures
            copy == *self,
    {
        *self
    }
}

impl<'a, T> Copy for Vacant<'a, T> {}

/// An exclusive view onto a vacant slot.
///
/// The field is public so that contracts can speak of the slot that the view
/// leaves behind when its borrow ends.
pub struct VacantMut<'a, T> {
    pub slot: &'a mut Slot<T>,
}

impl<'a, T> View for VacantMut<'a, T> {
    type V = SlotView<T>;

    /// The slot that the view looks at, as it is now.
    open spec fn view(&self) -> SlotView<T> {
        self.slot@
    }
}

impl<'a, T> VacantMut<'a, T> {
    /// The slot behind the view is well-formed and vacant.
    pub open spec fn wf(self) -> bool {
        &&& self.slot.wf()
        &&& self@.status() == Status::Vacant
    }

    /// Puts `value` into the slot and starts a new occupancy.
    ///
    /// The generation advances by one step, which always leads from vacancy
    /// to occupancy. The slot gives up its link: it becomes the head of the
    /// vacant list in the slot's place.
    #[inline]
    #[must_use]
    pub(crate) fn insert(self, value: T, next_vacant: &mut Option<u32>) -> (occupied: OccupiedMut<
        'a,
        T,
    >)
        requires
            self.wf(),
        ensures
            occupied.wf(),
            occupied@ == (SlotView { gen: next_of(self@.gen), value: Some(value), next: None }),
            *final(next_vacant) == self@.next,
            *final(occupied.slot) == *final(self.slot),
    {
        let slot = self.slot;
        match slot.data {
            SlotData::NextVacant(link) => {
                *next_vacant = link;
            },
            _ => {
                vstd::pervasive::unreached::<()>();
            },
        }
        *slot = Slot { gen: slot.gen.next(), data: SlotData::Value(value) };
        OccupiedMut { slot }
    }
}

} // verus!
