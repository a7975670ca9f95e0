//! Storage slots and the typed windows onto their content.

mod content;
mod gen;
mod occupied;
mod poisoned;
mod vacant;

pub use content::{Content, ContentMut};
pub use gen::{lemma_life_cycle, next_of, status_of, Gen, Status};
pub use occupied::{Occupied, OccupiedMut};
pub use poisoned::{Poisoned, PoisonedMut};
pub use vacant::{Vacant, VacantMut};

use vstd::prelude::*;

verus! {

/// What a slot stores besides its generation.
///
/// Which variant is live follows from the status that the slot's generation
/// encodes; [`Slot::wf`] says so.
pub(crate) enum SlotData<T> {
    /// Value for occupied slots.
    Value(T),
    /// Stores an index to the next vacant slot in the vacant list.
    NextVacant(Option<u32>),
    /// Stores an index to the next poisoned slot in the poison list.
    NextPoison(Option<u32>),
}

/// A storage slot that has storage for a value and its current generation.
///
/// It can be in one of the following states:
///
/// - **Occupied**: This slot contains a valid, instantiated `T`.
/// - **Vacant**:   This slot is currently empty, but it can be initialized.
/// - **Poisoned**: This slot had a generation that overflowed, and cannot
///                 be used to store another `T`.
///
/// A slot cannot be cloned: a copy would duplicate an occupancy that handles
/// identify uniquely.
pub struct Slot<T> {
    pub(crate) gen: Gen,
    pub(crate) data: SlotData<T>,
}

/// A slot as plain values: its raw generation, the value it holds while it
/// is occupied, and its link into a free list while it is not.
pub struct SlotView<T> {
    pub gen: u32,
    pub value: Option<T>,
    pub next: Option<u32>,
}

impl<T> SlotView<T> {
    /// The status of the slot, which its generation alone decides.
    pub open spec fn status(self) -> Status {
        status_of(self.gen)
    }

    /// A value is held exactly while the generation encodes occupancy, and
    /// an occupied slot carries no link.
    pub open spec fn wf(self) -> bool {
        &&& self.value is Some <==> self.status() == Status::Occupied
        &&& self.value is Some ==> self.next is None
    }
}

impl<T> View for Slot<T> {
    type V = SlotView<T>;

    closed spec fn view(&self) -> SlotView<T> {
        match self.data {
            SlotData::Value(value) => SlotView { gen: self.gen@, value: Some(value), next: None },
            SlotData::NextVacant(next) => SlotView { gen: self.gen@, value: None, next },
            SlotData::NextPoison(next) => SlotView { gen: self.gen@, value: None, next },
        }
    }
}

impl<T> Slot<T> {
    /// The stored member is the one that the generation's status selects.
    pub closed spec fn wf(&self) -> bool {
        match self.data {
            SlotData::Value(_) => status_of(self.gen@) == Status::Occupied,
            SlotData::NextVacant(_) => status_of(self.gen@) == Status::Vacant,
            SlotData::NextPoison(_) => status_of(self.gen@) == Status::Poisoned,
        }
    }

    /// A well-formed slot has a well-formed view.
    pub proof fn lemma_wf_view(&self)
        requires
            self.wf(),
        ensures
            self@.wf(),
    {
    }

    /// A fresh slot: vacant, at the first generation, linked to nothing.
    #[inline]
    #[must_use]
    pub(crate) fn new() -> (slot: Slot<T>)
        ensures
            slot.wf(),
            slot@ == (SlotView::<T> { gen: Gen::VACANT, value: None, next: None }),
    {
        Slot { gen: Gen::vacant(), data: SlotData::NextVacant(None) }
    }

    /// A view onto the slot in the state that its generation encodes.
    #[inline]
    #[must_use]
    pub fn content(&self) -> (content: Content<'_, T>)
        requires
            self.wf(),
        ensures
            content.wf(),
            content@ == self@,
            content is Occupied <==> self@.status() == Status::Occupied,
            content is Vacant <==> self@.status() == Status::Vacant,
            content is Poisoned <==> self@.status() == Status::Poisoned,
    {
        match self.gen.status() {
            Status::Occupied => Content::Occupied(Occupied::new(self)),
            Status::Vacant => Content::Vacant(Vacant::new(self)),
            Status::Poisoned => Content::Poisoned(Poisoned::new(self)),
        }
    }

    /// An exclusive view onto the slot in the state that its generation
    /// encodes. The slot is what the view leaves behind.
    #[inline]
    #[must_use]
    pub fn content_mut(&mut self) -> (content: ContentMut<'_, T>)
        requires
            old(self).wf(),
        ensures
            content.wf(),
            content@ == old(self)@,
            content is Occupied <==> old(self)@.status() == Status::Occupied,
            content is Vacant <==> old(self)@.status() == Status::Vacant,
            content is Poisoned <==> old(self)@.status() == Status::Poisoned,
            content matches ContentMut::Occupied(occupied) ==> *final(occupied.slot) == *final(self),
            content matches ContentMut::Vacant(vacant) ==> *final(vacant.slot) == *final(self),
            content matches ContentMut::Poisoned(poisoned) ==> *final(poisoned.slot) == *final(self),
    {
        match self.gen.status() {
            Status::Occupied => ContentMut::Occupied(OccupiedMut { slot: self }),
            Status::Vacant => ContentMut::Vacant(VacantMut { slot: self }),
            Status::Poisoned => ContentMut::Poisoned(PoisonedMut { slot: self }),
        }
    }

    /// A slot at the generation `gen`, which decides what the slot holds:
    /// `value` while `gen` encodes occupancy, and else `link`. The value is
    /// handed back where it does not go with the generation.
    #[inline]
    pub(crate) fn with_gen(gen: Gen, value: Option<T>, link: Option<u32>) -> (made: Result<
        Slot<T>,
        Option<T>,
    >)
        ensures
            (value is Some <==> status_of(gen@) == Status::Occupied) ==> {
                &&& made matches Ok(slot)
                &&& slot.wf()
                &&& slot@ == (SlotView {
                    gen: gen@,
                    value,
                    next: if value is Some {
                        None
                    } else {
                        link
                    },
                })
            },
            !(value is Some <==> status_of(gen@) == Status::Occupied) ==> made == Err::<
                Slot<T>,
                Option<T>,
            >(value),
    {
        match (gen.status(), value) {
            (Status::Occupied, Some(value)) => Ok(Slot { gen, data: SlotData::Value(value) }),
            (Status::Vacant, None) => Ok(Slot { gen, data: SlotData::NextVacant(link) }),
            (Status::Poisoned, None) => Ok(Slot { gen, data: SlotData::NextPoison(link) }),
            (_, value) => Err(value),
        }
    }

    /// The current generation of the slot.
    #[inline]
    #[must_use]
    pub fn gen(&self) -> (gen: Gen)
        ensures
            gen@ == self@.gen,
    {
        self.gen
    }

    /// Is the slot empty, and free to be given a value?
    #[inline]
    #[must_use]
    pub fn is_vacant(&self) -> (vacant: bool)
        ensures
            vacant <==> self@.status() == Status::Vacant,
    {
        self.gen.is_vacant()
    }

    /// Does the slot hold a value?
    #[inline]
    #[must_use]
    pub fn is_occupied(&self) -> (occupied: bool)
        ensures
            occupied <==> self@.status() == Status::Occupied,
    {
        self.gen.is_occupied()
    }

    /// Is the slot used up, never to hold a value again?
    #[inline]
    #[must_use]
    pub fn is_poisoned(&self) -> (poisoned: bool)
        ensures
            poisoned <==> self@.status() == Status::Poisoned,
    {
        self.gen.is_poisoned()
    }

    /// The status of the slot, which its generation encodes.
    #[inline]
    #[must_use]
    pub fn status(&self) -> (status: Status)
        ensures
            status == self@.status(),
    {
        self.gen.status()
    }
}

} // verus!
