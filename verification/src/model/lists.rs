//! Free lists: sequences of slot indices that are threaded through the
//! slots by the links that the slots hold.

use crate::slot::{SlotView, Status};
use vstd::prelude::*;
use vstd::seq_lib::seq_to_set_is_finite;

verus! {

/// The head of a free list, if the list has one.
pub open spec fn head(list: Seq<u32>) -> Option<u32> {
    if list.len() > 0 {
        Some(list[0])
    } else {
        None
    }
}

/// The index that follows position `k` on a free list, if any does.
pub open spec fn successor(list: Seq<u32>, k: int) -> Option<u32> {
    if k + 1 < list.len() {
        Some(list[k + 1])
    } else {
        None
    }
}

/// `list` is threaded through `slots`: every index on it denotes a slot, the
/// link of that slot is the index that follows on the list, and the slot of
/// the last index has no link.
pub open spec fn threaded<T>(slots: Seq<SlotView<T>>, list: Seq<u32>) -> bool {
    forall|k: int|
        0 <= k < list.len() ==> {
            &&& list[k] < slots.len()
            &&& slots[list[k] as int].next == #[trigger] successor(list, k)
        }
}

/// The walk along the links from `start` meets `index` within `steps` links.
pub open spec fn reaches<T>(
    slots: Seq<SlotView<T>>,
    start: Option<u32>,
    index: int,
    steps: nat,
) -> bool
    decreases steps,
{
    match start {
        None => false,
        Some(first) => first == index || (steps > 0 && first < slots.len() && reaches(
            slots,
            slots[first as int].next,
            index,
            (steps - 1) as nat,
        )),
    }
}

/// The indices that the walk along the links from `start` meets.
pub open spec fn reachable<T>(slots: Seq<SlotView<T>>, start: Option<u32>) -> Set<int> {
    Set::new(|index: int| exists|steps: nat| reaches(slots, start, index, steps))
}

/// Every slot that `list` names has the status `status`, and every slot with
/// that status is named by `list`, once.
pub open spec fn collects<T>(slots: Seq<SlotView<T>>, list: Seq<u32>, status: Status) -> bool {
    &&& list.no_duplicates()
    &&& forall|k: int|
        0 <= k < list.len() ==> (#[trigger] list[k]) < slots.len() && slots[list[k] as int].status()
            == status
    &&& forall|i: int|
        0 <= i < slots.len() && (#[trigger] slots[i]).status() == status ==> list.contains(i as u32)
}

/// A list that collects the slots of one status is as long as the set of
/// their indices is large.
pub(crate) proof fn lemma_list_count<T>(slots: Seq<SlotView<T>>, list: Seq<u32>, status: Status)
    requires
        slots.len() <= u32::MAX + 1,
        collects(slots, list, status),
    ensures
        Set::new(|i: int| 0 <= i < slots.len() && slots[i].status() == status).finite(),
        Set::new(|i: int| 0 <= i < slots.len() && slots[i].status() == status).len() == list.len(),
{
    let indices = Set::new(|i: int| 0 <= i < slots.len() && slots[i].status() == status);
    let ints = list.map_values(|index: u32| index as int);
    assert forall|i: int| indices.contains(i) implies ints.contains(i) by {
        let k = choose|k: int| 0 <= k < list.len() && list[k] == i as u32;
        assert(ints[k] == i);
    }
    assert(ints.to_set() =~= indices);
    seq_to_set_is_finite(ints);
    ints.unique_seq_to_set();
}

/// A free list does not change when a slot off the list is replaced by a slot
/// that does not belong on it.
pub(crate) proof fn lemma_keep<T>(
    slots: Seq<SlotView<T>>,
    list: Seq<u32>,
    status: Status,
    index: int,
    slot: SlotView<T>,
)
    requires
        threaded(slots, list),
        collects(slots, list, status),
        0 <= index < slots.len(),
        slots[index].status() != status,
        slot.status() != status,
    ensures
        threaded(slots.update(index, slot), list),
        collects(slots.update(index, slot), list, status),
{
    let after = slots.update(index, slot);
    assert forall|k: int| 0 <= k < list.len() implies after[list[k] as int].next
        == #[trigger] successor(list, k) by {
        assert(list[k] != index);
    }
    assert forall|i: int| 0 <= i < after.len() && (#[trigger] after[i]).status()
        == status implies list.contains(i as u32) by {
        assert(slots[i].status() == status);
    }
}

/// A free list does not change when a slot that does not belong on it is
/// appended.
pub(crate) proof fn lemma_grow<T>(
    slots: Seq<SlotView<T>>,
    list: Seq<u32>,
    status: Status,
    slot: SlotView<T>,
)
    requires
        threaded(slots, list),
        collects(slots, list, status),
        slot.status() != status,
    ensures
        threaded(slots.push(slot), list),
        collects(slots.push(slot), list, status),
{
    let after = slots.push(slot);
    assert forall|k: int| 0 <= k < list.len() implies after[list[k] as int].next
        == #[trigger] successor(list, k) by {
        assert(list[k] < slots.len());
    }
    assert forall|i: int| 0 <= i < after.len() && (#[trigger] after[i]).status()
        == status implies list.contains(i as u32) by {
        assert(slots[i].status() == status);
    }
}

/// Taking the head off a free list: the slot at the head is replaced by one
/// that does not belong on the list, and the rest of the list stays threaded.
pub(crate) proof fn lemma_pop<T>(
    slots: Seq<SlotView<T>>,
    list: Seq<u32>,
    status: Status,
    slot: SlotView<T>,
)
    requires
        slots.len() <= u32::MAX + 1,
        threaded(slots, list),
        collects(slots, list, status),
        list.len() > 0,
        slot.status() != status,
    ensures
        threaded(slots.update(list[0] as int, slot), list.drop_first()),
        collects(slots.update(list[0] as int, slot), list.drop_first(), status),
{
    let after = slots.update(list[0] as int, slot);
    let rest = list.drop_first();
    assert forall|k: int| 0 <= k < rest.len() implies (#[trigger] rest[k]) == list[k + 1]
        && rest[k] != list[0] by {
        assert(list[k + 1] != list[0]);
    }
    assert forall|k: int| 0 <= k < rest.len() implies after[rest[k] as int].next
        == #[trigger] successor(rest, k) by {
        assert(slots[list[k + 1] as int].next == successor(list, k + 1));
    }
    assert forall|i: int| 0 <= i < after.len() && (#[trigger] after[i]).status()
        == status implies rest.contains(i as u32) by {
        assert(slots[i].status() == status);
        let k = choose|k: int| 0 <= k < list.len() && list[k] == i as u32;
        assert(rest[k - 1] == i as u32);
    }
}

/// Appending a slot that goes at the head of a free list: the slot takes the
/// old head as its link, and its index goes in front.
pub(crate) proof fn lemma_extend<T>(
    slots: Seq<SlotView<T>>,
    list: Seq<u32>,
    status: Status,
    slot: SlotView<T>,
)
    requires
        slots.len() <= u32::MAX,
        threaded(slots, list),
        collects(slots, list, status),
        slot.status() == status,
        slot.status() != Status::Occupied,
        slot.next == head(list),
    ensures
        threaded(slots.push(slot), seq![slots.len() as u32] + list),
        collects(slots.push(slot), seq![slots.len() as u32] + list, status),
{
    let filler = SlotView::<T> { gen: 1, value: None, next: None };
    lemma_grow(slots, list, status, filler);
    lemma_retire(slots.push(filler), list, status, slots.len() as u32, slot);
    assert(slots.push(filler).update(slots.len() as int, slot) =~= slots.push(slot));
}

/// Putting a slot at the head of a free list: the slot takes the old head as
/// its link, and its index goes in front.
pub(crate) proof fn lemma_retire<T>(
    slots: Seq<SlotView<T>>,
    list: Seq<u32>,
    status: Status,
    index: u32,
    slot: SlotView<T>,
)
    requires
        slots.len() <= u32::MAX + 1,
        threaded(slots, list),
        collects(slots, list, status),
        index < slots.len(),
        slots[index as int].status() != status,
        slot.status() == status,
        slot.next == head(list),
    ensures
        threaded(slots.update(index as int, slot), seq![index] + list),
        collects(slots.update(index as int, slot), seq![index] + list, status),
{
    let after = slots.update(index as int, slot);
    let longer = seq![index] + list;
    assert forall|k: int| 0 < k < longer.len() implies (#[trigger] longer[k]) == list[k - 1]
        && longer[k] != index by {
        assert(slots[list[k - 1] as int].status() == status);
    }
    assert forall|k: int| 0 <= k < longer.len() implies after[longer[k] as int].next
        == #[trigger] successor(longer, k) by {
        if k > 0 {
            assert(slots[list[k - 1] as int].next == successor(list, k - 1));
        }
    }
    assert forall|i: int| 0 <= i < after.len() && (#[trigger] after[i]).status()
        == status implies longer.contains(i as u32) by {
        if i == index {
            assert(longer[0] == index);
        } else {
            assert(slots[i].status() == status);
            let k = choose|k: int| 0 <= k < list.len() && list[k] == i as u32;
            assert(longer[k + 1] == i as u32);
        }
    }
}

/// A walk that starts on a threaded list meets nothing but what follows on
/// the list.
proof fn lemma_walk_stays_on_list<T>(
    slots: Seq<SlotView<T>>,
    list: Seq<u32>,
    from: int,
    index: int,
    steps: nat,
)
    requires
        threaded(slots, list),
        0 <= from < list.len(),
        reaches(slots, Some(list[from]), index, steps),
    ensures
        exists|k: int| from <= k < list.len() && list[k] == index,
    decreases steps,
{
    if list[from] != index {
        assert(slots[list[from] as int].next == successor(list, from));
        assert(!reaches(slots, None, index, (steps - 1) as nat));
        lemma_walk_stays_on_list(slots, list, from + 1, index, (steps - 1) as nat);
    }
}

/// A walk that starts on a threaded list meets everything that follows on
/// the list.
proof fn lemma_walk_covers_list<T>(slots: Seq<SlotView<T>>, list: Seq<u32>, from: int, to: int)
    requires
        threaded(slots, list),
        0 <= from <= to < list.len(),
    ensures
        reaches(slots, Some(list[from]), list[to] as int, (to - from) as nat),
    decreases to - from,
{
    if from < to {
        assert(slots[list[from] as int].next == successor(list, from));
        lemma_walk_covers_list(slots, list, from + 1, to);
    }
}

/// The walk from the head of a threaded list meets exactly the indices on
/// the list.
pub(crate) proof fn lemma_reachable_is_list<T>(slots: Seq<SlotView<T>>, list: Seq<u32>)
    requires
        threaded(slots, list),
    ensures
        forall|index: int|
            reachable(slots, head(list)).contains(index) <==> exists|k: int|
                0 <= k < list.len() && list[k] == index,
{
    assert forall|index: int| reachable(slots, head(list)).contains(index) implies exists|k: int|
        0 <= k < list.len() && list[k] == index by {
        let steps = choose|steps: nat| reaches(slots, head(list), index, steps);
        lemma_walk_stays_on_list(slots, list, 0, index, steps);
    }
    assert forall|index: int| (exists|k: int| 0 <= k < list.len() && list[k] == index) implies reachable(
        slots,
        head(list),
    ).contains(index) by {
        let k = choose|k: int| 0 <= k < list.len() && list[k] == index;
        lemma_walk_covers_list(slots, list, 0, k);
    }
}

} // verus!
