//! Handles: the keys that an arena hands out on insertion.

use crate::slot::Gen;
use vstd::prelude::*;

verus! {

/// A handle as plain values: the index of its slot, and the raw generation of
/// the occupancy that it stands for.
pub struct HandleView {
    pub index: u32,
    pub gen: u32,
}

/// Identifies one occupancy of one slot of an arena.
///
/// A handle is valid for as long as the slot stays occupied at the generation
/// that the handle was issued with. Handles are plain data: they can be
/// compared and stored by value, and mean something only to the arena that
/// issued them.
#[derive(Debug, Clone, Copy, PartialEq, Eq, Structural, Hash)]
pub struct Handle {
    index: u32,
    gen: Gen,
}

impl View for Handle {
    type V = HandleView;

    closed spec fn view(&self) -> HandleView {
        HandleView { index: self.index, gen: self.gen@ }
    }
}

impl Handle {
    /// Rebuilds a handle from the two integers that it consists of.
    #[inline]
    #[must_use]
    pub fn from_raw(index: u32, gen: u32) -> (handle: Handle)
        ensures
            handle@ == (HandleView { index, gen }),
    {
        Handle { index, gen: Gen::from_raw(gen) }
    }

    /// The index of the slot that this handle points at.
    #[inline]
    #[must_use]
    pub fn index(self) -> (index: u32)
        ensures
            index == self@.index,
    {
        self.index
    }

    /// The generation that the slot had when this handle was issued.
    #[inline]
    #[must_use]
    pub fn gen(self) -> (gen: Gen)
        ensures
            gen@ == self@.gen,
    {
        self.gen
    }
}

} // verus!
