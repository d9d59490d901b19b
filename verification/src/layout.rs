use crate::error::KernelError;
use crate::shader::{LayoutDescription, LayoutDescriptorIndex};
use vstd::prelude::*;

verus! {

/// No two descriptors share a binding.
pub open spec fn bindings_unique(descriptors: Seq<LayoutDescription>) -> bool {
    forall|i: int, j: int|
        0 <= i < j < descriptors.len() ==> descriptors[i].binding != descriptors[j].binding
}

/// No two descriptors address the same slot of the same list.
pub open spec fn slots_unique(descriptors: Seq<LayoutDescription>) -> bool {
    forall|i: int, j: int|
        0 <= i < j < descriptors.len() ==> descriptors[i].index != descriptors[j].index
}

/// Every slot lies inside the payload list it addresses.
pub open spec fn slots_in_range(
    descriptors: Seq<LayoutDescription>,
    writables: nat,
    readables: nat,
) -> bool {
    forall|i: int|
        0 <= i < descriptors.len() ==> match (#[trigger] descriptors[i]).index {
            LayoutDescriptorIndex::WriteIndex(slot) => slot < writables,
            LayoutDescriptorIndex::ReadIndex(slot) => slot < readables,
        }
}

/// Some descriptor addresses `index`.
pub open spec fn slot_declared(
    descriptors: Seq<LayoutDescription>,
    index: LayoutDescriptorIndex,
) -> bool {
    exists|i: int| 0 <= i < descriptors.len() && (#[trigger] descriptors[i]).index == index
}

/// Every payload of either list is addressed by some descriptor.
pub open spec fn slots_covered(
    descriptors: Seq<LayoutDescription>,
    writables: nat,
    readables: nat,
) -> bool {
    &&& forall|slot: usize|
        slot < writables ==> slot_declared(descriptors, #[trigger] direction_index(true, slot))
    &&& forall|slot: usize|
        slot < readables ==> slot_declared(descriptors, #[trigger] direction_index(false, slot))
}

/// The descriptors of a kernel line up with its payloads: bindings are unique, and the
/// write slots and the read slots each name every payload of their list exactly once.
pub open spec fn layout_valid(
    descriptors: Seq<LayoutDescription>,
    writables: nat,
    readables: nat,
) -> bool {
    &&& bindings_unique(descriptors)
    &&& slots_unique(descriptors)
    &&& slots_in_range(descriptors, writables, readables)
    &&& slots_covered(descriptors, writables, readables)
}

/// The place of the descriptor that addresses `index`; meaningful where one does.
pub open spec fn slot_position(
    descriptors: Seq<LayoutDescription>,
    index: LayoutDescriptorIndex,
) -> int {
    choose|i: int| 0 <= i < descriptors.len() && (#[trigger] descriptors[i]).index == index
}

/// The write descriptors, ordered by slot.
pub open spec fn write_subset(descriptors: Seq<LayoutDescription>, writables: nat) -> Seq<
    LayoutDescription,
> {
    Seq::new(
        writables,
        |slot: int|
            descriptors[slot_position(
                descriptors,
                LayoutDescriptorIndex::WriteIndex(slot as usize),
            )],
    )
}

/// The read descriptors, ordered by slot.
pub open spec fn read_subset(descriptors: Seq<LayoutDescription>, readables: nat) -> Seq<
    LayoutDescription,
> {
    Seq::new(
        readables,
        |slot: int|
            descriptors[slot_position(
                descriptors,
                LayoutDescriptorIndex::ReadIndex(slot as usize),
            )],
    )
}

/// Under unique slots, a descriptor that addresses `index` is the one `slot_position` names.
pub proof fn lemma_slot_position(
    descriptors: Seq<LayoutDescription>,
    index: LayoutDescriptorIndex,
    at: int,
)
    requires
        slots_unique(descriptors),
        0 <= at < descriptors.len(),
        descriptors[at].index == index,
    ensures
        slot_position(descriptors, index) == at,
{
    let chosen = slot_position(descriptors, index);
    assert(0 <= chosen < descriptors.len() && descriptors[chosen].index == index);
    if chosen < at {
        assert(descriptors[chosen].index != descriptors[at].index);
    } else if at < chosen {
        assert(descriptors[at].index != descriptors[chosen].index);
    }
}

/// In descriptors that line up with the payloads, every payload of either list is
/// addressed by exactly one descriptor: the one that `slot_position` names.
pub proof fn lemma_payload_addressed_once(
    descriptors: Seq<LayoutDescription>,
    writables: nat,
    readables: nat,
    write: bool,
    slot: usize,
)
    requires
        layout_valid(descriptors, writables, readables),
        slot < (if write {
            writables
        } else {
            readables
        }),
    ensures
        ({
            let index = direction_index(write, slot);
            let at = slot_position(descriptors, index);
            &&& 0 <= at < descriptors.len()
            &&& descriptors[at].index == index
            &&& forall|j: int|
                0 <= j < descriptors.len() && descriptors[j].index == index ==> j == at
        }),
{
    let index = direction_index(write, slot);
    assert(slot_declared(descriptors, index));
    let at = slot_position(descriptors, index);
    assert forall|j: int| 0 <= j < descriptors.len() && descriptors[j].index == index implies j
        == at by {
        lemma_slot_position(descriptors, index, j);
    }
}

/// The first descriptor that addresses `index`, if any does.
pub fn find_slot(descriptors: &Vec<LayoutDescription>, index: LayoutDescriptorIndex) -> (found:
    Option<usize>)
    ensures
        found is Some <==> slot_declared(descriptors@, index),
        found matches Some(at) ==> at < descriptors.len() && descriptors[at as int].index == index
            && forall|j: int| 0 <= j < at ==> descriptors[j].index != index,
{
    let mut at: usize = 0;
    while at < descriptors.len()
        invariant
            at <= descriptors.len(),
            forall|j: int| 0 <= j < at ==> descriptors[j].index != index,
        decreases descriptors.len() - at,
    {
        if descriptors[at].index == index {
            return Some(at);
        }
        at = at + 1;
    }
    None
}

/// Whether no descriptor after `at` repeats the binding or the slot of the one at `at`.
fn distinct_from_rest(descriptors: &Vec<LayoutDescription>, at: usize) -> (distinct: bool)
    requires
        at < descriptors.len(),
    ensures
        distinct <==> forall|j: int|
            at < j < descriptors.len() ==> descriptors[at as int].binding != descriptors[j].binding
                && descriptors[at as int].index != descriptors[j].index,
{
    let mut j: usize = at + 1;
    while j < descriptors.len()
        invariant
            at < j <= descriptors.len(),
            forall|k: int|
                at < k < j ==> descriptors[at as int].binding != descriptors[k].binding
                    && descriptors[at as int].index != descriptors[k].index,
        decreases descriptors.len() - j,
    {
        if descriptors[at].binding == descriptors[j].binding || descriptors[at].index
            == descriptors[j].index {
            return false;
        }
        j = j + 1;
    }
    true
}

/// Whether bindings and slots are unique over the whole list.
fn all_distinct(descriptors: &Vec<LayoutDescription>) -> (distinct: bool)
    ensures
        distinct <==> bindings_unique(descriptors@) && slots_unique(descriptors@),
{
    let mut i: usize = 0;
    while i < descriptors.len()
        invariant
            i <= descriptors.len(),
            forall|a: int, b: int|
                0 <= a < i && a < b < descriptors.len() ==> descriptors[a].binding
                    != descriptors[b].binding && descriptors[a].index != descriptors[b].index,
        decreases descriptors.len() - i,
    {
        if !distinct_from_rest(descriptors, i) {
            return false;
        }
        i = i + 1;
    }
    true
}

/// Whether every slot lies inside its payload list.
fn all_in_range(descriptors: &Vec<LayoutDescription>, writables: usize, readables: usize) -> (ok:
    bool)
    ensures
        ok <==> slots_in_range(descriptors@, writables as nat, readables as nat),
{
    let mut i: usize = 0;
    while i < descriptors.len()
        invariant
            i <= descriptors.len(),
            forall|k: int|
                0 <= k < i ==> match (#[trigger] descriptors[k]).index {
                    LayoutDescriptorIndex::WriteIndex(slot) => slot < writables,
                    LayoutDescriptorIndex::ReadIndex(slot) => slot < readables,
                },
        decreases descriptors.len() - i,
    {
        let inside = match descriptors[i].index {
            LayoutDescriptorIndex::WriteIndex(slot) => slot < writables,
            LayoutDescriptorIndex::ReadIndex(slot) => slot < readables,
        };
        if !inside {
            return false;
        }
        i = i + 1;
    }
    true
}

/// The descriptors of one direction, ordered by slot; `None` where a slot below `count`
/// has no descriptor.
fn collect_subset(descriptors: &Vec<LayoutDescription>, write: bool, count: usize) -> (subset:
    Option<Vec<LayoutDescription>>)
    requires
        slots_unique(descriptors@),
    ensures
        subset is Some <==> forall|slot: usize|
            slot < count ==> slot_declared(descriptors@, #[trigger] direction_index(write, slot)),
        subset matches Some(list) ==> list@ == if write {
            write_subset(descriptors@, count as nat)
        } else {
            read_subset(descriptors@, count as nat)
        },
{
    let mut list: Vec<LayoutDescription> = Vec::new();
    let mut slot: usize = 0;
    while slot < count
        invariant
            slot <= count,
            slots_unique(descriptors@),
            list.len() == slot,
            forall|s: usize|
                s < slot ==> slot_declared(descriptors@, #[trigger] direction_index(write, s)),
            forall|s: int|
                0 <= s < slot ==> list@[s] == descriptors@[slot_position(
                    descriptors@,
                    direction_index(write, s as usize),
                )],
        decreases count - slot,
    {
        let index = if write {
            LayoutDescriptorIndex::WriteIndex(slot)
        } else {
            LayoutDescriptorIndex::ReadIndex(slot)
        };
        match find_slot(descriptors, index) {
            Some(at) => {
                proof {
                    lemma_slot_position(descriptors@, index, at as int);
                }
                list.push(descriptors[at]);
            },
            None => {
                assert(!slot_declared(descriptors@, direction_index(write, slot)));
                return None;
            },
        }
        slot = slot + 1;
    }
    proof {
        if write {
            assert(list@ =~= write_subset(descriptors@, count as nat));
        } else {
            assert(list@ =~= read_subset(descriptors@, count as nat));
        }
    }
    Some(list)
}

/// The index that addresses `slot` of the write list or of the read list.
pub open spec fn direction_index(write: bool, slot: usize) -> LayoutDescriptorIndex {
    if write {
        LayoutDescriptorIndex::WriteIndex(slot)
    } else {
        LayoutDescriptorIndex::ReadIndex(slot)
    }
}

/// The two derived lists of a kernel's descriptors, each ordered by slot.
pub struct SlotOrder {
    pub write: Vec<LayoutDescription>,
    pub read: Vec<LayoutDescription>,
}

/// Checks a kernel's descriptors against the lengths of its payload lists and derives the
/// write list and the read list. Anything that does not line up is a `BindingMismatch`.
pub fn validate_layout(
    descriptors: &Vec<LayoutDescription>,
    writables: usize,
    readables: usize,
) -> (checked: Result<SlotOrder, KernelError>)
    ensures
        checked is Ok <==> layout_valid(descriptors@, writables as nat, readables as nat),
        checked matches Err(error) ==> error == KernelError::BindingMismatch,
        checked matches Ok(order) ==> order.write@ == write_subset(descriptors@, writables as nat)
            && order.read@ == read_subset(descriptors@, readables as nat),
{
    if !all_distinct(descriptors) {
        return Err(KernelError::BindingMismatch);
    }
    if !all_in_range(descriptors, writables, readables) {
        return Err(KernelError::BindingMismatch);
    }
    let write = match collect_subset(descriptors, true, writables) {
        Some(list) => list,
        None => {
            return Err(KernelError::BindingMismatch);
        },
    };
    let read = match collect_subset(descriptors, false, readables) {
        Some(list) => list,
        None => {
            return Err(KernelError::BindingMismatch);
        },
    };
    Ok(SlotOrder { write, read })
}

} // verus!
