//! A generational slot arena: stable, validity-checked handles onto values
//! kept in contiguous storage, with freed slots reused through an intrusive
//! free list.
//!
//! - [`slot`] holds the generation, which encodes the state of a slot, the
//!   slot itself, and the views that give access to a slot in a known state.
//! - [`handle`] holds the handle that an insertion issues.
//! - [`Slotted`] is the arena.
//! - [`model`] says what an arena is as a mathematical value, and what each
//!   operation does to that value; the contracts of the arena speak of it.
//! - [`laws`] proves what holds of every arena.

pub mod handle;
pub mod laws;
pub mod model;
pub mod slot;

use handle::Handle;
use model::{successor, SlottedView};
use slot::{Gen, Occupied, OccupiedMut, Slot, SlotView, Status, VacantMut};
use vstd::prelude::*;

verus! {

/// An arena of slots.
///
/// Vacant slots are threaded on a free list that starts at `next_vacant`, and
/// poisoned slots on one that starts at `next_poison`; the links are kept in
/// the slots themselves. Freed slots are reused last in, first out. A
/// poisoned slot is never reused, so the number of slots only grows.
pub struct Slotted<T> {
    slots: Vec<Slot<T>>,
    next_vacant: Option<u32>,
    next_poison: Option<u32>,
    len: usize,
    vacant: Ghost<Seq<u32>>,
    poisoned: Ghost<Seq<u32>>,
}

/// The slots as plain values, one by one.
spec fn views<T>(slots: Seq<Slot<T>>) -> Seq<SlotView<T>> {
    Seq::new(slots.len(), |i: int| slots[i]@)
}

/// Every slot is well-formed.
spec fn all_wf<T>(slots: Seq<Slot<T>>) -> bool {
    forall|i: int| 0 <= i < slots.len() ==> (#[trigger] slots[i]).wf()
}

/// Whatever slot replaces the one at `index`, the views change at `index`
/// alone, and the slots stay well-formed if the new slot is.
proof fn lemma_replace<T>(slots: Seq<Slot<T>>, index: int)
    requires
        0 <= index < slots.len(),
        all_wf(slots),
    ensures
        forall|slot: Slot<T>|
            #![trigger slots.update(index, slot)]
            {
                &&& views(slots.update(index, slot)) == views(slots).update(index, slot@)
                &&& slot.wf() ==> all_wf(slots.update(index, slot)) && slot@.wf()
            },
{
    assert forall|slot: Slot<T>| #![trigger slots.update(index, slot)] {
        &&& views(slots.update(index, slot)) == views(slots).update(index, slot@)
        &&& slot.wf() ==> all_wf(slots.update(index, slot)) && slot@.wf()
    } by {
        assert(views(slots.update(index, slot)) =~= views(slots).update(index, slot@));
        if slot.wf() {
            slot.lemma_wf_view();
        }
    }
}

/// Appending a slot appends its view, and the slots stay well-formed if the
/// new slot is.
proof fn lemma_push<T>(slots: Seq<Slot<T>>, slot: Slot<T>)
    requires
        all_wf(slots),
        slot.wf(),
    ensures
        views(slots.push(slot)) == views(slots).push(slot@),
        all_wf(slots.push(slot)),
{
    assert(views(slots.push(slot)) =~= views(slots).push(slot@));
}

impl<T> View for Slotted<T> {
    type V = SlottedView<T>;

    closed spec fn view(&self) -> SlottedView<T> {
        SlottedView { slots: views(self.slots@), vacant: self.vacant@, poisoned: self.poisoned@ }
    }
}

impl<T> Slotted<T> {
    /// The arena is well-formed: its slots are, its view is an arena, the
    /// two heads are those of the free lists, and the count of occupied
    /// slots is right.
    pub closed spec fn wf(&self) -> bool {
        &&& all_wf(self.slots@)
        &&& self@.inv()
        &&& self.next_vacant == self@.vacant_head()
        &&& self.next_poison == self@.poison_head()
        &&& self.len == self@.len()
    }

    /// The view of a well-formed arena satisfies the arena invariant.
    pub proof fn lemma_wf_inv(&self)
        requires
            self.wf(),
        ensures
            self@.inv(),
    {
    }

    /// An arena without slots.
    #[inline]
    #[must_use]
    pub fn new() -> (arena: Self)
        ensures
            arena.wf(),
            arena@ == SlottedView::<T>::empty(),
    {
        let arena = Slotted {
            slots: Vec::new(),
            next_vacant: None,
            next_poison: None,
            len: 0,
            vacant: Ghost(Seq::empty()),
            poisoned: Ghost(Seq::empty()),
        };
        proof {
            assert(arena@.slots =~= Seq::empty());
            SlottedView::<T>::lemma_empty_inv();
        }
        arena
    }

    /// Stores `value` and issues the handle to it.
    ///
    /// The slot at the head of the vacant list is reused if there is one,
    /// else a slot is appended. Either way the slot moves one generation on,
    /// from vacancy to occupancy.
    pub fn insert(&mut self, value: T) -> (handle: Handle)
        requires
            old(self).wf(),
            old(self)@.can_insert(),
        ensures
            final(self).wf(),
            final(self)@ == old(self)@.insert(value),
            handle@ == old(self)@.next_handle(),
    {
        proof {
            old(self)@.lemma_insert_inv(value);
        }
        let index: u32 = match self.next_vacant {
            Some(index) => index,
            None => {
                let index: u32 = self.slots.len() as u32;
                let slot = Slot::new();
                proof {
                    lemma_push(self.slots@, slot);
                }
                self.slots.push(slot);
                index
            },
        };
        proof {
            lemma_replace(self.slots@, index as int);
            if old(self).vacant@.len() > 0 {
                assert(old(self)@.slots[index as int].next == successor(old(self)@.vacant, 0));
            }
        }
        let vacant = VacantMut { slot: &mut self.slots[index as usize] };
        let occupied = vacant.insert(value, &mut self.next_vacant);
        let gen = occupied.slot.gen();
        assert(self.len < self.slots.len());
        self.len = self.len + 1;
        proof {
            if old(self).vacant@.len() > 0 {
                self.vacant@ = old(self).vacant@.drop_first();
            }
            assert(self@.slots =~= old(self)@.insert(value).slots);
        }
        Handle::from_raw(index, gen.get())
    }

    /// As [`Slotted::insert`], but gives `value` back where no index is left
    /// for it: no vacant slot waits for reuse, and the index of a new slot
    /// would not fit the index type.
    pub fn try_insert(&mut self, value: T) -> (issued: Result<Handle, T>)
        requires
            old(self).wf(),
        ensures
            final(self).wf(),
            old(self)@.can_insert() ==> {
                &&& issued matches Ok(handle)
                &&& handle@ == old(self)@.next_handle()
                &&& final(self)@ == old(self)@.insert(value)
            },
            !old(self)@.can_insert() ==> issued == Err::<Handle, T>(value) && final(self)@ == old(
                self,
            )@,
    {
        if self.next_vacant.is_none() && self.slots.len() > u32::MAX as usize {
            Err(value)
        } else {
            Ok(self.insert(value))
        }
    }

    /// Appends a slot in the state that a store outside the arena kept of
    /// it: its raw generation and, while it was occupied, its value.
    ///
    /// A slot that is not occupied becomes the head of the free list that
    /// its status selects. The slot is rejected, and `value` given back,
    /// where a value comes with a generation that does not encode occupancy,
    /// or none with one that does, or where the index of the slot would not
    /// fit the index type. Else the index of the slot is returned.
    pub fn restore(&mut self, gen: u32, value: Option<T>) -> (restored: Result<u32, Option<T>>)
        requires
            old(self).wf(),
        ensures
            final(self).wf(),
            old(self)@.can_restore(gen, value) ==> {
                &&& restored == Ok::<u32, Option<T>>(old(self)@.slots.len() as u32)
                &&& final(self)@ == old(self)@.restore(gen, value)
            },
            !old(self)@.can_restore(gen, value) ==> {
                &&& restored == Err::<u32, Option<T>>(value)
                &&& final(self)@ == old(self)@
            },
    {
        let index: usize = self.slots.len();
        if index > u32::MAX as usize {
            return Err(value);
        }
        let gen = Gen::from_raw(gen);
        let status = gen.status();
        let link = match status {
            Status::Vacant => self.next_vacant,
            Status::Poisoned => self.next_poison,
            Status::Occupied => None,
        };
        match Slot::with_gen(gen, value, link) {
            Err(value) => Err(value),
            Ok(slot) => {
                proof {
                    old(self)@.lemma_restore_inv(gen@, value);
                    lemma_push(self.slots@, slot);
                }
                self.slots.push(slot);
                match status {
                    Status::Vacant => {
                        self.next_vacant = Some(index as u32);
                        proof {
                            self.vacant@ = seq![index as u32] + old(self).vacant@;
                        }
                    },
                    Status::Poisoned => {
                        self.next_poison = Some(index as u32);
                        proof {
                            self.poisoned@ = seq![index as u32] + old(self).poisoned@;
                        }
                    },
                    Status::Occupied => {
                        assert(self.len < self.slots.len());
                        self.len = self.len + 1;
                    },
                }
                Ok(index as u32)
            },
        }
    }

    /// Is `handle` valid: does it point at a slot that is occupied at the
    /// generation of the handle?
    #[must_use]
    pub fn contains(&self, handle: Handle) -> (valid: bool)
        ensures
            valid == self@.contains(handle@),
    {
        let index: u32 = handle.index();
        if index as usize >= self.slots.len() {
            return false;
        }
        let slot = &self.slots[index as usize];
        slot.gen().get() == handle.gen().get() && slot.is_occupied()
    }

    /// Takes the value under `handle` out of the arena.
    ///
    /// A handle that is not valid gives `None` and changes nothing. Else the
    /// slot moves one generation on. If that generation encodes vacancy, the
    /// slot is the next to be reused; else it is poisoned, and never reused.
    pub fn remove(&mut self, handle: Handle) -> (removed: Option<T>)
        requires
            old(self).wf(),
        ensures
            final(self).wf(),
            removed == old(self)@.get(handle@),
            final(self)@ == old(self)@.remove(handle@),
    {
        if !self.contains(handle) {
            return None;
        }
        let index: u32 = handle.index();
        proof {
            old(self)@.lemma_remove_inv(handle@);
            old(self)@.lemma_count();
            assert(old(self)@.indices(Status::Occupied).contains(index as int));
            lemma_replace(self.slots@, index as int);
        }
        let occupied = OccupiedMut { slot: &mut self.slots[index as usize] };
        let (value, slot) = occupied.take(index, &mut self.next_vacant, &mut self.next_poison);
        let vacated = slot.is_vacant();
        self.len = self.len - 1;
        proof {
            if vacated {
                self.vacant@ = seq![index] + old(self).vacant@;
            } else {
                self.poisoned@ = seq![index] + old(self).poisoned@;
            }
        }
        Some(value)
    }

    /// A shared view onto the slot under `handle`, if the handle is valid.
    #[must_use]
    pub fn get(&self, handle: Handle) -> (found: Option<Occupied<'_, T>>)
        requires
            self.wf(),
        ensures
            found is Some <==> self@.contains(handle@),
            found matches Some(occupied) ==> {
                &&& occupied.wf()
                &&& occupied@ == self@.slots[handle@.index as int]
                &&& occupied@.value == self@.get(handle@)
            },
    {
        if !self.contains(handle) {
            return None;
        }
        Some(Occupied::new(&self.slots[handle.index() as usize]))
    }

    /// An exclusive view onto the slot under `handle`, if the handle is
    /// valid.
    ///
    /// The arena is left with the slot as the view leaves it. It stays
    /// well-formed if that slot is well-formed and occupied, as it is after
    /// any change to the value.
    #[must_use]
    pub fn get_mut(&mut self, handle: Handle) -> (found: Option<OccupiedMut<'_, T>>)
        requires
            old(self).wf(),
        ensures
            found is Some <==> old(self)@.contains(handle@),
            found is None ==> *final(self) == *old(self),
            found matches Some(occupied) ==> {
                &&& occupied.wf()
                &&& occupied@ == old(self)@.slots[handle@.index as int]
                &&& final(self)@ == old(self)@.with_slot(handle@.index as int, final(occupied.slot)@)
                &&& final(occupied.slot).wf() && final(occupied.slot)@.status() == Status::Occupied
                    ==> final(self).wf()
            },
    {
        if !self.contains(handle) {
            return None;
        }
        let index: u32 = handle.index();
        proof {
            lemma_replace(self.slots@, index as int);
            self@.lemma_with_slot_inv_all(index as int);
        }
        Some(OccupiedMut { slot: &mut self.slots[index as usize] })
    }

    /// The slot at `index`, in whichever state it is.
    #[must_use]
    pub fn slot(&self, index: u32) -> (found: Option<&Slot<T>>)
        requires
            self.wf(),
        ensures
            found is Some <==> index < self@.slots.len(),
            found matches Some(slot) ==> slot.wf() && slot@ == self@.slots[index as int],
    {
        if index as usize >= self.slots.len() {
            return None;
        }
        Some(&self.slots[index as usize])
    }

    /// The number of occupied slots.
    #[inline]
    #[must_use]
    pub fn len(&self) -> (len: usize)
        requires
            self.wf(),
        ensures
            len == self@.len(),
    {
        self.len
    }

    /// Is no slot occupied?
    #[inline]
    #[must_use]
    pub fn is_empty(&self) -> (empty: bool)
        requires
            self.wf(),
        ensures
            empty <==> self@.len() == 0,
    {
        self.len == 0
    }

    /// The number of slots, whatever their state. It never shrinks.
    #[inline]
    #[must_use]
    pub fn capacity(&self) -> (capacity: usize)
        ensures
            capacity == self@.slots.len(),
    {
        self.slots.len()
    }

    /// The index of the slot at the head of the vacant list, which the next
    /// insertion reuses, if any slot is vacant.
    #[inline]
    #[must_use]
    pub fn vacant_head(&self) -> (head: Option<u32>)
        requires
            self.wf(),
        ensures
            head == self@.vacant_head(),
    {
        self.next_vacant
    }

    /// The index of the slot at the head of the poison list, if any slot is
    /// poisoned.
    #[inline]
    #[must_use]
    pub fn poison_head(&self) -> (head: Option<u32>)
        requires
            self.wf(),
        ensures
            head == self@.poison_head(),
    {
        self.next_poison
    }
}

} // verus!
