//! Views onto a slot whose state is found out when the view is made.

use crate::slot::{Occupied, OccupiedMut, Poisoned, PoisonedMut, SlotView, Vacant, VacantMut};
use vstd::prelude::*;

verus! {

/// A shared view onto a slot in whichever state it is.
pub enum Content<'a, T> {
    Occupied(Occupied<'a, T>),
    Vacant(Vacant<'a, T>),
    Poisoned(Poisoned<'a, T>),
}

impl<'a, T> View for Content<'a, T> {
    type V = SlotView<T>;

    /// The slot that the view looks at.
    open spec fn view(&self) -> SlotView<T> {
        match *self {
            Content::Occupied(occupied) => occupied@,
            Content::Vacant(vacant) => vacant@,
            Content::Poisoned(poisoned) => poisoned@,
        }
    }
}

impl<'a, T> Content<'a, T> {
    /// The view inside is well-formed: its variant is the slot's state.
    pub open spec fn wf(self) -> bool {
        match self {
            Content::Occupied(occupied) => occupied.wf(),
            Content::Vacant(vacant) => vacant.wf(),
            Content::Poisoned(poisoned) => poisoned.wf(),
        }
    }
}

impl<T> Clone for Content<'_, T> {
    #[inline]
    fn clone(&self) -> (copy: Self)
        ensures
            copy == *self,
    {
        *self
    }
}

impl<T> Copy for Content<'_, T> {}

/// An exclusive view onto a slot in whichever state it is.
pub enum ContentMut<'a, T> {
    Occupied(OccupiedMut<'a, T>),
    Vacant(VacantMut<'a, T>),
    Poisoned(PoisonedMut<'a, T>),
}

impl<'a, T> View for ContentMut<'a, T> {
    type V = SlotView<T>;

    /// The slot that the view looks at, as it is now.
    open spec fn view(&self) -> SlotView<T> {
        match *self {
            ContentMut::Occupied(occupied) => occupied@,
            ContentMut::Vacant(vacant) => vacant@,
            ContentMut::Poisoned(poisoned) => poisoned@,
        }
    }
}

impl<'a, T> ContentMut<'a, T> {
    /// The view inside is well-formed: its variant is the slot's state.
    pub open spec fn wf(self) -> bool {
        match self {
            ContentMut::Occupied(occupied) => occupied.wf(),
            ContentMut::Vacant(vacant) => vacant.wf(),
            ContentMut::Poisoned(poisoned) => poisoned.wf(),
        }
    }
}

} // verus!
