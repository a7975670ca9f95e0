//! The arena as a mathematical value, and what each operation does to it.

pub(crate) mod lists;

pub use lists::{collects, head, reachable, reaches, successor, threaded};

use crate::handle::HandleView;
use lists::{lemma_extend, lemma_grow, lemma_keep, lemma_list_count, lemma_pop, lemma_retire};
use crate::slot::{next_of, status_of, Gen, SlotView, Status};
use vstd::prelude::*;
use vstd::set_lib::{lemma_int_range, lemma_len_subset, lemma_set_disjoint_lens, set_int_range};

verus! {

/// An arena as plain values: its slots in index order, and its two free
/// lists, each from its head onwards.
pub struct SlottedView<T> {
    pub slots: Seq<SlotView<T>>,
    pub vacant: Seq<u32>,
    pub poisoned: Seq<u32>,
}

/// One step in the life of an arena.
pub enum Op<T> {
    /// A value is inserted.
    Insert(T),
    /// The value under a handle is removed.
    Remove(HandleView),
    /// The value under a handle is replaced.
    Replace(HandleView, T),
    /// A slot is restored at a generation, with the value that it holds.
    Restore(u32, Option<T>),
}

impl<T> SlottedView<T> {
    /// The arena without any slot.
    pub open spec fn empty() -> Self {
        SlottedView { slots: Seq::empty(), vacant: Seq::empty(), poisoned: Seq::empty() }
    }

    /// What holds of an arena at all times.
    ///
    /// Every index fits the index type, every slot is well-formed, the vacant
    /// list is threaded through exactly the vacant slots, and the poison list
    /// through exactly the poisoned ones.
    pub open spec fn inv(self) -> bool {
        &&& self.slots.len() <= u32::MAX + 1
        &&& forall|i: int| 0 <= i < self.slots.len() ==> (#[trigger] self.slots[i]).wf()
        &&& threaded(self.slots, self.vacant)
        &&& threaded(self.slots, self.poisoned)
        &&& collects(self.slots, self.vacant, Status::Vacant)
        &&& collects(self.slots, self.poisoned, Status::Poisoned)
    }

    /// The index at the head of the vacant list, which the next insertion
    /// reuses, if there is one.
    pub open spec fn vacant_head(self) -> Option<u32> {
        head(self.vacant)
    }

    /// The index at the head of the poison list, if there is one.
    pub open spec fn poison_head(self) -> Option<u32> {
        head(self.poisoned)
    }

    /// The handle `key`, an index and a generation, is valid: the index
    /// denotes a slot that is occupied at exactly that generation.
    pub open spec fn contains(self, key: HandleView) -> bool {
        &&& key.index < self.slots.len()
        &&& self.slots[key.index as int].gen == key.gen
        &&& self.slots[key.index as int].status() == Status::Occupied
    }

    /// The value that `key` stands for, if `key` is valid.
    pub open spec fn get(self, key: HandleView) -> Option<T> {
        if self.contains(key) {
            self.slots[key.index as int].value
        } else {
            None
        }
    }

    /// The number of occupied slots.
    pub open spec fn len(self) -> int {
        self.slots.len() - self.vacant.len() - self.poisoned.len()
    }

    /// The next insertion finds an index: either a vacant slot waits for
    /// reuse, or the index of a new slot still fits the index type.
    pub open spec fn can_insert(self) -> bool {
        self.vacant.len() > 0 || self.slots.len() <= u32::MAX
    }

    /// The handle that the next insertion issues: the head of the vacant list
    /// one generation on, or else a new slot at the end, one generation after
    /// the first.
    pub open spec fn next_handle(self) -> HandleView {
        if self.vacant.len() > 0 {
            HandleView {
                index: self.vacant[0],
                gen: next_of(self.slots[self.vacant[0] as int].gen),
            }
        } else {
            HandleView { index: self.slots.len() as u32, gen: next_of(Gen::VACANT) }
        }
    }

    /// The arena after `value` was inserted under [`Self::next_handle`].
    pub open spec fn insert(self, value: T) -> Self {
        let key = self.next_handle();
        let slot = SlotView { gen: key.gen, value: Some(value), next: None };
        if self.vacant.len() > 0 {
            SlottedView {
                slots: self.slots.update(key.index as int, slot),
                vacant: self.vacant.drop_first(),
                poisoned: self.poisoned,
            }
        } else {
            SlottedView { slots: self.slots.push(slot), vacant: self.vacant, poisoned: self.poisoned }
        }
    }

    /// The arena after the value under `key` was removed.
    ///
    /// An invalid handle changes nothing. Else the slot moves one generation
    /// on and becomes the head of the free list that its new status selects.
    pub open spec fn remove(self, key: HandleView) -> Self {
        if !self.contains(key) {
            self
        } else if status_of(next_of(key.gen)) == Status::Vacant {
            let slot = SlotView { gen: next_of(key.gen), value: None, next: self.vacant_head() };
            SlottedView {
                slots: self.slots.update(key.index as int, slot),
                vacant: seq![key.index] + self.vacant,
                poisoned: self.poisoned,
            }
        } else {
            let slot = SlotView { gen: next_of(key.gen), value: None, next: self.poison_head() };
            SlottedView {
                slots: self.slots.update(key.index as int, slot),
                vacant: self.vacant,
                poisoned: seq![key.index] + self.poisoned,
            }
        }
    }

    /// The arena with the slot at `index` replaced by `slot`.
    pub open spec fn with_slot(self, index: int, slot: SlotView<T>) -> Self {
        SlottedView {
            slots: self.slots.update(index, slot),
            vacant: self.vacant,
            poisoned: self.poisoned,
        }
    }

    /// The arena after the value under `key` was replaced by `value`.
    pub open spec fn replace(self, key: HandleView, value: T) -> Self {
        if self.contains(key) {
            self.with_slot(key.index as int, SlotView { gen: key.gen, value: Some(value), next: None })
        } else {
            self
        }
    }

    /// The indices of the slots whose status is `status`.
    pub open spec fn indices(self, status: Status) -> Set<int> {
        Set::new(|i: int| 0 <= i < self.slots.len() && self.slots[i].status() == status)
    }

    /// Each free list is as long as the set of slots that it collects is
    /// large, and [`Self::len`] counts the occupied slots.
    pub proof fn lemma_count(self)
        requires
            self.inv(),
        ensures
            self.indices(Status::Vacant).finite(),
            self.indices(Status::Poisoned).finite(),
            self.indices(Status::Occupied).finite(),
            self.indices(Status::Vacant).len() == self.vacant.len(),
            self.indices(Status::Poisoned).len() == self.poisoned.len(),
            self.indices(Status::Occupied).len() == self.len(),
    {
        let all = set_int_range(0, self.slots.len() as int);
        let vacant = self.indices(Status::Vacant);
        let poisoned = self.indices(Status::Poisoned);
        let occupied = self.indices(Status::Occupied);
        lemma_int_range(0, self.slots.len() as int);
        lemma_list_count(self.slots, self.vacant, Status::Vacant);
        lemma_list_count(self.slots, self.poisoned, Status::Poisoned);
        lemma_len_subset(occupied, all);
        lemma_set_disjoint_lens(vacant, poisoned);
        lemma_set_disjoint_lens(vacant + poisoned, occupied);
        assert(vacant + poisoned + occupied =~= all);
    }

    /// A slot at generation `gen` that holds `value` can be restored: a
    /// value comes exactly with a generation that encodes occupancy, and the
    /// index of the slot fits the index type.
    pub open spec fn can_restore(self, gen: u32, value: Option<T>) -> bool {
        &&& self.slots.len() <= u32::MAX
        &&& value is Some <==> status_of(gen) == Status::Occupied
    }

    /// The arena with one more slot at the end, at generation `gen`: it
    /// holds `value` if `gen` encodes occupancy, and else it is the head of
    /// the free list that its status selects.
    pub open spec fn restore(self, gen: u32, value: Option<T>) -> Self {
        let index = self.slots.len() as u32;
        match status_of(gen) {
            Status::Occupied => SlottedView {
                slots: self.slots.push(SlotView { gen, value, next: None }),
                vacant: self.vacant,
                poisoned: self.poisoned,
            },
            Status::Vacant => SlottedView {
                slots: self.slots.push(SlotView { gen, value, next: self.vacant_head() }),
                vacant: seq![index] + self.vacant,
                poisoned: self.poisoned,
            },
            Status::Poisoned => SlottedView {
                slots: self.slots.push(SlotView { gen, value, next: self.poison_head() }),
                vacant: self.vacant,
                poisoned: seq![index] + self.poisoned,
            },
        }
    }

    /// The arena after the step `op`. A step that cannot be taken changes
    /// nothing.
    pub open spec fn apply(self, op: Op<T>) -> Self {
        match op {
            Op::Insert(value) => if self.can_insert() {
                self.insert(value)
            } else {
                self
            },
            Op::Remove(key) => self.remove(key),
            Op::Replace(key, value) => self.replace(key, value),
            Op::Restore(gen, value) => if self.can_restore(gen, value) {
                self.restore(gen, value)
            } else {
                self
            },
        }
    }

    /// The arena after the steps `ops`, taken in order.
    pub open spec fn apply_all(self, ops: Seq<Op<T>>) -> Self
        decreases ops.len(),
    {
        if ops.len() == 0 {
            self
        } else {
            self.apply_all(ops.drop_last()).apply(ops.last())
        }
    }

    /// The empty arena is an arena.
    pub proof fn lemma_empty_inv()
        ensures
            Self::empty().inv(),
            Self::empty().len() == 0,
    {
    }

    /// Insertion keeps the invariant.
    pub proof fn lemma_insert_inv(self, value: T)
        requires
            self.inv(),
            self.can_insert(),
        ensures
            self.insert(value).inv(),
            self.insert(value).len() == self.len() + 1,
    {
        let key = self.next_handle();
        let slot = SlotView { gen: key.gen, value: Some(value), next: None };
        if self.vacant.len() > 0 {
            let index = self.vacant[0] as int;
            lemma_pop(self.slots, self.vacant, Status::Vacant, slot);
            lemma_keep(self.slots, self.poisoned, Status::Poisoned, index, slot);
        } else {
            lemma_grow(self.slots, self.vacant, Status::Vacant, slot);
            lemma_grow(self.slots, self.poisoned, Status::Poisoned, slot);
        }
    }

    /// Removal keeps the invariant, whatever the handle.
    pub proof fn lemma_remove_inv(self, key: HandleView)
        requires
            self.inv(),
        ensures
            self.remove(key).inv(),
            self.remove(key).len() == if self.contains(key) {
                self.len() - 1
            } else {
                self.len()
            },
    {
        if self.contains(key) {
            let index = key.index as int;
            if status_of(next_of(key.gen)) == Status::Vacant {
                let slot = SlotView::<T> { gen: next_of(key.gen), value: None, next: self.vacant_head() };
                lemma_retire(self.slots, self.vacant, Status::Vacant, key.index, slot);
                lemma_keep(self.slots, self.poisoned, Status::Poisoned, index, slot);
                } else {
                let slot = SlotView::<T> { gen: next_of(key.gen), value: None, next: self.poison_head() };
                lemma_retire(self.slots, self.poisoned, Status::Poisoned, key.index, slot);
                lemma_keep(self.slots, self.vacant, Status::Vacant, index, slot);
                }
        }
    }

    /// Restoring a slot keeps the invariant.
    pub proof fn lemma_restore_inv(self, gen: u32, value: Option<T>)
        requires
            self.inv(),
            self.can_restore(gen, value),
        ensures
            self.restore(gen, value).inv(),
            self.restore(gen, value).len() == if value is Some {
                self.len() + 1
            } else {
                self.len()
            },
    {
        match status_of(gen) {
            Status::Occupied => {
                let slot = SlotView { gen, value, next: None };
                lemma_grow(self.slots, self.vacant, Status::Vacant, slot);
                lemma_grow(self.slots, self.poisoned, Status::Poisoned, slot);
                },
            Status::Vacant => {
                let slot = SlotView { gen, value, next: self.vacant_head() };
                lemma_extend(self.slots, self.vacant, Status::Vacant, slot);
                lemma_grow(self.slots, self.poisoned, Status::Poisoned, slot);
                },
            Status::Poisoned => {
                let slot = SlotView { gen, value, next: self.poison_head() };
                lemma_extend(self.slots, self.poisoned, Status::Poisoned, slot);
                lemma_grow(self.slots, self.vacant, Status::Vacant, slot);
                },
        }
    }

    /// An occupied slot may be replaced by any well-formed occupied slot:
    /// the free lists do not pass through it.
    pub proof fn lemma_with_slot_inv(self, index: int, slot: SlotView<T>)
        requires
            self.inv(),
            0 <= index < self.slots.len(),
            self.slots[index].status() == Status::Occupied,
            slot.wf(),
            slot.status() == Status::Occupied,
        ensures
            self.with_slot(index, slot).inv(),
            self.with_slot(index, slot).len() == self.len(),
    {
        lemma_keep(self.slots, self.vacant, Status::Vacant, index, slot);
        lemma_keep(self.slots, self.poisoned, Status::Poisoned, index, slot);
    }

    /// As [`Self::lemma_with_slot_inv`], of every slot at once.
    pub proof fn lemma_with_slot_inv_all(self, index: int)
        requires
            self.inv(),
            0 <= index < self.slots.len(),
            self.slots[index].status() == Status::Occupied,
        ensures
            forall|slot: SlotView<T>|
                slot.wf() && slot.status() == Status::Occupied ==> {
                    &&& (#[trigger] self.with_slot(index, slot)).inv()
                    &&& self.with_slot(index, slot).len() == self.len()
                },
    {
        assert forall|slot: SlotView<T>| slot.wf() && slot.status() == Status::Occupied implies {
            &&& (#[trigger] self.with_slot(index, slot)).inv()
            &&& self.with_slot(index, slot).len() == self.len()
        } by {
            self.lemma_with_slot_inv(index, slot);
        }
    }
}

} // verus!
