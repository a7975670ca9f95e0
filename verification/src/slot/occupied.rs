//! Views onto a slot that is known to be occupied.

use crate::slot::{next_of, status_of, Slot, SlotData, SlotView, Status};
use vstd::prelude::*;

verus! {

/// A shared view onto an occupied slot.
///
/// The view trusts the state that it was made for: it is well-formed while
/// its slot is well-formed and occupied, and only the crate makes one, from a
/// slot that it has checked.
pub struct Occupied<'a, T> {
    pub(crate) slot: &'a Slot<T>,
}

impl<'a, T> View for Occupied<'a, T> {
    type V = SlotView<T>;

    /// The slot that the view looks at.
    closed spec fn view(&self) -> SlotView<T> {
        self.slot@
    }
}

impl<'a, T> Occupied<'a, T> {
    /// The slot behind the view is well-formed and occupied.
    pub closed spec fn wf(self) -> bool {
        &&& self.slot.wf()
        &&& self.slot@.status() == Status::Occupied
    }

    /// A view onto `slot`, which the caller has found occupied.
    #[inline]
    #[must_use]
    pub(crate) fn new(slot: &'a Slot<T>) -> (occupied: Self)
        requires
            slot.wf(),
            slot@.status() == Status::Occupied,
        ensures
            occupied.wf(),
            occupied@ == slot@,
    {
        Occupied { slot }
    }

    /// The slot that the view looks at.
    #[inline]
    #[must_use]
    pub fn slot(self) -> (slot: &'a Slot<T>)
        ensures
            slot@ == self@,
            self.wf() ==> slot.wf(),
    {
        self.slot
    }

    /// The value that the slot holds.
    #[inline]
    #[must_use]
    pub fn value(self) -> (value: &'a T)
        requires
            self.wf(),
        ensures
            self@.value == Some(*value),
    {
        match &self.slot.data {
            SlotData::Value(value) => value,
            _ => vstd::pervasive::unreached(),
        }
    }
}

impl<T> Clone for Occupied<'_, T> {
    #[inline]
    fn clone(&self) -> (copy: Self)
        ensures
            copy == *self,
    {
        *self
    }
}

impl<T> Copy for Occupied<'_, T> {}

/// An exclusive view onto an occupied slot.
///
/// The field is public so that contracts can speak of the slot that the view
/// leaves behind when its borrow ends.
pub struct OccupiedMut<'a, T> {
    pub slot: &'a mut Slot<T>,
}

impl<'a, T> View for OccupiedMut<'a, T> {
    type V = SlotView<T>;

    /// The slot that the view looks at, as it is now.
    open spec fn view(&self) -> SlotView<T> {
        self.slot@
    }
}

impl<'a, T> OccupiedMut<'a, T> {
    /// The slot behind the view is well-formed and occupied.
    pub open spec fn wf(self) -> bool {
        &&& self.slot.wf()
        &&& self@.status() == Status::Occupied
    }

    /// Moves the value out of the slot and retires this occupancy.
    ///
    /// The generation advances by one step. If it then encodes vacancy, the
    /// slot becomes the head of the vacant list, else that of the poison
    /// list: the slot keeps the previous head as its link, and `index`, the
    /// slot's own index, replaces the head.
    #[inline]
    #[must_use]
    pub(crate) fn take(
        self,
        index: u32,
        next_vacant: &mut Option<u32>,
        next_poison: &mut Option<u32>,
    ) -> (taken: (T, &'a mut Slot<T>))
        requires
            self.wf(),
        ensures
            self@.value == Some(taken.0),
            taken.1.wf(),
            taken.1@.status() != Status::Occupied,
            taken.1@ == (SlotView::<T> {
                gen: next_of(self@.gen),
                value: None,
                next: if status_of(next_of(self@.gen)) == Status::Vacant {
                    *old(next_vacant)
                } else {
                    *old(next_poison)
                },
            }),
            status_of(next_of(self@.gen)) == Status::Vacant ==> {
                &&& *final(next_vacant) == Some(index)
                &&& *final(next_poison) == *old(next_poison)
            },
            status_of(next_of(self@.gen)) != Status::Vacant ==> {
                &&& *final(next_poison) == Some(index)
                &&& *final(next_vacant) == *old(next_vacant)
            },
            *final(taken.1) == *final(self.slot),
    {
        let slot = self.slot;
        let gen = slot.gen.next();
        let data = if gen.is_vacant() {
            let link = *next_vacant;
            *next_vacant = Some(index);
            SlotData::NextVacant(link)
        } else {
            let link = *next_poison;
            *next_poison = Some(index);
            SlotData::NextPoison(link)
        };
        let mut retired = Slot { gen, data };
        core::mem::swap(slot, &mut retired);
        match retired.data {
            SlotData::Value(value) => (value, slot),
            _ => vstd::pervasive::unreached(),
        }
    }

    /// The value that the slot holds.
    #[inline]
    #[must_use]
    pub fn value(&self) -> (value: &T)
        requires
            self.wf(),
        ensures
            self@.value == Some(*value),
    {
        match &self.slot.data {
            SlotData::Value(value) => value,
            _ => vstd::pervasive::unreached(),
        }
    }

    /// The value, to be changed in place: the slot keeps its generation and
    /// stays occupied, holding whatever the borrow leaves in it.
    #[inline]
    #[must_use]
    pub fn value_mut(&mut self) -> (value: &mut T)
        requires
            old(self).wf(),
        ensures
            old(self)@.value == Some(*value),
            final(self).wf(),
            final(self)@ == (SlotView { value: Some(*final(value)), ..old(self)@ }),
            *final(final(self).slot) == *final(old(self).slot),
    {
        match &mut self.slot.data {
            SlotData::Value(value) => value,
            _ => vstd::pervasive::unreached(),
        }
    }

    /// As [`OccupiedMut::value_mut`], for the whole lifetime of the view.
    #[inline]
    #[must_use]
    pub fn into_value(self) -> (value: &'a mut T)
        requires
            self.wf(),
        ensures
            self@.value == Some(*value),
            final(self.slot).wf(),
            final(self.slot)@ == (SlotView { value: Some(*final(value)), ..self@ }),
    {
        match &mut self.slot.data {
            SlotData::Value(value) => value,
            _ => vstd::pervasive::unreached(),
        }
    }

    /// The slot that the view looks at.
    #[inline]
    #[must_use]
    pub fn slot(&self) -> (slot: &Slot<T>)
        ensures
            *slot == *old(self.slot),
    {
        self.slot
    }

    /// The slot that the view looks at, borrowed from the view: the view
    /// goes on with the slot as the borrow leaves it.
    #[inline]
    #[must_use]
    pub fn slot_mut(&mut self) -> (slot: &mut Slot<T>)
        ensures
            *slot == *old(self).slot,
            *final(self).slot == *final(slot),
            *final(final(self).slot) == *final(old(self).slot),
    {
        self.slot
    }

    /// The slot that the view looks at, for the whole lifetime of the view.
    #[inline]
    #[must_use]
    pub fn into_slot(self) -> (slot: &'a mut Slot<T>)
        ensures
            *slot == *old(self.slot),
            *final(slot) == *final(self.slot),
    {
        self.slot
    }

    /// A shared view onto the same slot, for as long as this view is
    /// borrowed.
    #[inline]
    #[must_use]
    pub fn reborrow(&self) -> (shared: Occupied<'_, T>)
        ensures
            shared@ == self@,
            self.wf() ==> shared.wf(),
    {
        Occupied { slot: self.slot }
    }

    /// An exclusive view onto the same slot, for as long as this view is
    /// borrowed: this view goes on with the slot as the other leaves it.
    #[inline]
    #[must_use]
    pub fn reborrow_mut(&mut self) -> (reborrowed: OccupiedMut<'_, T>)
        ensures
            *reborrowed.slot == *old(self).slot,
            *final(self).slot == *final(reborrowed.slot),
            *final(final(self).slot) == *final(old(self).slot),
    {
        OccupiedMut { slot: self.slot }
    }

    /// A shared view onto the same slot, for the whole lifetime of the view.
    #[inline]
    #[must_use]
    pub fn into_shared(self) -> (shared: Occupied<'a, T>)
        ensures
            shared@ == self@,
            self.wf() ==> shared.wf(),
    {
        Occupied { slot: self.slot }
    }
}

} // verus!
