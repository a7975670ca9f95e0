//! What holds of every arena, whatever is done with it.

use crate::model::lists::lemma_reachable_is_list;
use crate::handle::HandleView;
use crate::model::{reachable, Op, SlottedView};
use crate::slot::{next_of, status_of, SlotView, Status};
use vstd::prelude::*;
use vstd::set_lib::set_int_range;

verus! {

/// What was inserted is found under the handle that its insertion issued,
/// and that handle was not valid before.
pub proof fn lemma_insert_then_get<T>(arena: SlottedView<T>, value: T)
    requires
        arena.inv(),
        arena.can_insert(),
    ensures
        !arena.contains(arena.next_handle()),
        arena.insert(value).contains(arena.next_handle()),
        arena.insert(value).get(arena.next_handle()) == Some(value),
{
}

/// Removal under the handle that an insertion issued gives the inserted
/// value back, and a second removal under that handle finds nothing and
/// changes nothing.
pub proof fn lemma_insert_then_remove<T>(arena: SlottedView<T>, value: T)
    requires
        arena.inv(),
        arena.can_insert(),
    ensures
        ({
            let handle = arena.next_handle();
            let removed = arena.insert(value).remove(handle);
            &&& arena.insert(value).get(handle) == Some(value)
            &&& removed.get(handle) is None
            &&& removed.remove(handle) == removed
        }),
{
    lemma_insert_then_get(arena, value);
}

/// A handle goes stale with its occupancy: after its removal it finds
/// nothing, also once the arena holds a later value, which the later handle
/// finds. Where the slot was not poisoned by the removal, the later
/// insertion reuses its index, two generations on.
pub proof fn lemma_stale_handle<T>(arena: SlottedView<T>, first: T, second: T)
    requires
        arena.inv(),
        arena.can_insert(),
        arena.insert(first).remove(arena.next_handle()).can_insert(),
    ensures
        ({
            let stale = arena.next_handle();
            let emptied = arena.insert(first).remove(stale);
            let fresh = emptied.next_handle();
            let refilled = emptied.insert(second);
            &&& fresh != stale
            &&& refilled.get(stale) is None
            &&& refilled.get(fresh) == Some(second)
            &&& status_of(next_of(stale.gen)) == Status::Vacant ==> {
                &&& fresh.index == stale.index
                &&& fresh.gen == stale.gen + 2
            }
            &&& status_of(next_of(stale.gen)) != Status::Vacant ==> fresh.index != stale.index
        }),
{
    let stale = arena.next_handle();
    let filled = arena.insert(first);
    let emptied = filled.remove(stale);
    lemma_insert_then_get(arena, first);
    arena.lemma_insert_inv(first);
    filled.lemma_remove_inv(stale);
    lemma_insert_then_get(emptied, second);
}

/// A step leaves every handle alone that it is not about: what was found
/// under a valid handle before is found under it after, unless the step
/// removes or replaces the value under that very handle.
pub proof fn lemma_unrelated_handles<T>(arena: SlottedView<T>, op: Op<T>, other: HandleView)
    requires
        arena.inv(),
        arena.contains(other),
        op != Op::Remove::<T>(other),
        !(op matches Op::Replace(handle, _) && handle == other),
    ensures
        arena.apply(op).get(other) == arena.get(other),
{
    if arena.vacant.len() > 0 {
        assert(arena.slots[arena.vacant[0] as int].status() == Status::Vacant);
    }
}

/// A handle that was valid and has been removed stays stale for ever: no
/// later step makes it valid again, not even one that fills its slot anew.
pub proof fn lemma_stale_for_ever<T>(arena: SlottedView<T>, handle: HandleView, ops: Seq<Op<T>>)
    requires
        arena.inv(),
        arena.contains(handle),
    ensures
        !arena.remove(handle).apply_all(ops).contains(handle),
        arena.remove(handle).apply_all(ops).get(handle) is None,
{
    let removed = arena.remove(handle);
    arena.lemma_remove_inv(handle);
    lemma_generations_monotonic(removed, ops);
    assert(removed.apply_all(ops).slots[handle.index as int].gen
        >= removed.slots[handle.index as int].gen);
}

/// No step breaks the invariant.
pub proof fn lemma_step_inv<T>(arena: SlottedView<T>, op: Op<T>)
    requires
        arena.inv(),
    ensures
        arena.apply(op).inv(),
{
    match op {
        Op::Insert(value) => {
            if arena.can_insert() {
                arena.lemma_insert_inv(value);
            }
        },
        Op::Remove(handle) => {
            arena.lemma_remove_inv(handle);
        },
        Op::Replace(handle, value) => {
            if arena.contains(handle) {
                arena.lemma_with_slot_inv(
                    handle.index as int,
                    SlotView { gen: handle.gen, value: Some(value), next: None },
                );
            }
        },
        Op::Restore(gen, value) => {
            if arena.can_restore(gen, value) {
                arena.lemma_restore_inv(gen, value);
            }
        },
    }
}

/// One step never takes a slot away, never moves a generation back, and
/// leaves every poisoned slot as it is.
pub proof fn lemma_step_monotonic<T>(arena: SlottedView<T>, op: Op<T>)
    requires
        arena.inv(),
    ensures
        arena.apply(op).slots.len() >= arena.slots.len(),
        forall|i: int|
            0 <= i < arena.slots.len() ==> {
                &&& (#[trigger] arena.apply(op).slots[i]).gen >= arena.slots[i].gen
                &&& arena.slots[i].status() == Status::Poisoned ==> arena.apply(op).slots[i]
                    == arena.slots[i]
            },
{
    if arena.vacant.len() > 0 {
        assert(arena.slots[arena.vacant[0] as int].status() == Status::Vacant);
    }
}

/// However long an arena lives, it stays an arena, it keeps every slot, and
/// no generation moves back. A slot that is poisoned never changes again: it
/// stays off the vacant list, and no insertion reuses its index.
pub proof fn lemma_generations_monotonic<T>(arena: SlottedView<T>, ops: Seq<Op<T>>)
    requires
        arena.inv(),
    ensures
        arena.apply_all(ops).inv(),
        arena.apply_all(ops).slots.len() >= arena.slots.len(),
        forall|i: int|
            0 <= i < arena.slots.len() ==> {
                &&& (#[trigger] arena.apply_all(ops).slots[i]).gen >= arena.slots[i].gen
                &&& arena.slots[i].status() == Status::Poisoned ==> {
                    &&& arena.apply_all(ops).slots[i] == arena.slots[i]
                    &&& !arena.apply_all(ops).vacant.contains(i as u32)
                    &&& arena.apply_all(ops).can_insert() ==> arena.apply_all(
                        ops,
                    ).next_handle().index != i
                }
            },
    decreases ops.len(),
{
    let after = arena.apply_all(ops);
    if ops.len() > 0 {
        let before = arena.apply_all(ops.drop_last());
        lemma_generations_monotonic(arena, ops.drop_last());
        lemma_step_inv(before, ops.last());
        lemma_step_monotonic(before, ops.last());
        assert forall|i: int| 0 <= i < arena.slots.len() implies (#[trigger] after.slots[i]).gen
            >= arena.slots[i].gen && (arena.slots[i].status() == Status::Poisoned
            ==> after.slots[i] == arena.slots[i]) by {
            assert(before.slots[i].gen >= arena.slots[i].gen);
        }
    }
    if after.vacant.len() > 0 {
        assert(after.slots[after.vacant[0] as int].status() == Status::Vacant);
    }
}

/// Each occupancy of a slot has a generation above every earlier one: a
/// handle that is issued after any number of steps for the index of an
/// earlier handle carries a strictly greater generation.
pub proof fn lemma_occupancies_increase<T>(arena: SlottedView<T>, value: T, ops: Seq<Op<T>>)
    requires
        arena.inv(),
        arena.can_insert(),
        arena.insert(value).apply_all(ops).can_insert(),
    ensures
        ({
            let earlier = arena.next_handle();
            let later = arena.insert(value).apply_all(ops).next_handle();
            later.index == earlier.index ==> later.gen > earlier.gen
        }),
{
    let earlier = arena.next_handle();
    let filled = arena.insert(value);
    let after = filled.apply_all(ops);
    arena.lemma_insert_inv(value);
    lemma_generations_monotonic(filled, ops);
    assert(after.slots[earlier.index as int].gen >= filled.slots[earlier.index as int].gen);
    if after.vacant.len() > 0 {
        assert(after.slots[after.vacant[0] as int].status() == Status::Vacant);
    }
}

/// The slots of an arena fall into three parts: those that the walk from the
/// vacant head meets, which are the vacant ones; those that the walk from
/// the poison head meets, which are the poisoned ones; and the occupied
/// ones. No two parts share an index, and together they are all indices.
pub proof fn lemma_partition<T>(arena: SlottedView<T>)
    requires
        arena.inv(),
    ensures
        ({
            let vacant = reachable(arena.slots, arena.vacant_head());
            let poisoned = reachable(arena.slots, arena.poison_head());
            let occupied = arena.indices(Status::Occupied);
            &&& vacant == arena.indices(Status::Vacant)
            &&& poisoned == arena.indices(Status::Poisoned)
            &&& vacant.disjoint(poisoned)
            &&& vacant.disjoint(occupied)
            &&& poisoned.disjoint(occupied)
            &&& vacant + poisoned + occupied == set_int_range(0, arena.slots.len() as int)
        }),
{
    let vacant = reachable(arena.slots, arena.vacant_head());
    let poisoned = reachable(arena.slots, arena.poison_head());
    lemma_reachable_is_list(arena.slots, arena.vacant);
    lemma_reachable_is_list(arena.slots, arena.poisoned);
    assert forall|index: int| vacant.contains(index) <==> arena.indices(Status::Vacant).contains(
        index,
    ) by {
        if arena.indices(Status::Vacant).contains(index) {
            assert(arena.vacant.contains(index as u32));
        }
    }
    assert forall|index: int| poisoned.contains(index) <==> arena.indices(
        Status::Poisoned,
    ).contains(index) by {
        if arena.indices(Status::Poisoned).contains(index) {
            assert(arena.poisoned.contains(index as u32));
        }
    }
}

} // verus!
