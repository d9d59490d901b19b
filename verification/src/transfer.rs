use crate::command::DeviceReply;
use crate::data::{refusal, refuse, LinkedMemory, MappedMemoryPointer};
use crate::error::{CopyTarget, KernelError, Phase};
use crate::shader::{LayoutDescription, LayoutDescriptorIndex};
use vstd::prelude::*;

verus! {

/// The copy of one payload into device memory: `words` go through `pointer`.
#[derive(Debug, PartialEq, Eq)]
pub struct HostWrite {
    pub pointer: MappedMemoryPointer,
    pub words: Vec<u32>,
}

/// The mathematical content of a `HostWrite`.
pub struct HostWriteView {
    pub pointer: MappedMemoryPointer,
    pub words: Seq<u32>,
}

impl View for HostWrite {
    type V = HostWriteView;

    open spec fn view(&self) -> HostWriteView {
        HostWriteView { pointer: self.pointer, words: self.words@ }
    }
}

/// What the device's answer to the map of a window comes to: the copy may go on where
/// the map is done; a refusal is an error that names the binding and carries the device's
/// code; an answer of any other kind is unexpected.
pub open spec fn map_outcome(binding: u32, reply: DeviceReply) -> Result<(), KernelError> {
    match reply {
        DeviceReply::Done => Ok(()),
        _ => Err(refusal(Phase::MapMemory { binding }, reply)),
    }
}

/// Takes the device's answer to the map of the window onto the memory of `binding` and
/// says whether the copy through it may be made.
pub fn mapped(binding: u32, reply: DeviceReply) -> (outcome: Result<(), KernelError>)
    ensures
        outcome == map_outcome(binding, reply),
{
    match reply {
        DeviceReply::Done => Ok(()),
        _ => Err(refuse(Phase::MapMemory { binding }, reply)),
    }
}

/// The word sequences behind a list of payload images.
pub open spec fn payload_views(payloads: Seq<Vec<u32>>) -> Seq<Seq<u32>> {
    Seq::new(payloads.len(), |i: int| payloads[i]@)
}

/// The contents of a list of host writes.
pub open spec fn write_views(writes: Seq<HostWrite>) -> Seq<HostWriteView> {
    Seq::new(writes.len(), |i: int| writes[i]@)
}

/// The copy that fills the buffer of one write descriptor: the payload of its slot goes
/// into the linked memory of its slot. A slot outside either list is a `BindingMismatch`;
/// a payload that does not fill exactly the declared bytes is a `SizeMismatch`.
pub open spec fn write_for(
    descriptor: LayoutDescription,
    payloads: Seq<Seq<u32>>,
    buffers: Seq<LinkedMemory>,
) -> Result<HostWriteView, KernelError> {
    let slot = descriptor.slot() as int;
    if slot >= payloads.len() || slot >= buffers.len() {
        Err(KernelError::BindingMismatch)
    } else if 4 * payloads[slot].len() != descriptor.buffer_size {
        Err(
            KernelError::SizeMismatch {
                target: CopyTarget::Binding(descriptor.binding),
                declared: descriptor.buffer_size,
            },
        )
    } else {
        Ok(
            HostWriteView {
                pointer: MappedMemoryPointer {
                    binding: buffers[slot].binding,
                    memory: buffers[slot].memory,
                    size: descriptor.buffer_size,
                    length: payloads[slot].len() as usize,
                },
                words: payloads[slot],
            },
        )
    }
}

/// The copies of the write phase: one per write descriptor, in the order of the
/// descriptors; or the error of the first write descriptor that has none.
pub open spec fn write_plan(
    descriptors: Seq<LayoutDescription>,
    payloads: Seq<Seq<u32>>,
    buffers: Seq<LinkedMemory>,
) -> Result<Seq<HostWriteView>, KernelError>
    decreases descriptors.len(),
{
    if descriptors.len() == 0 {
        Ok(seq![])
    } else {
        match write_plan(descriptors.drop_last(), payloads, buffers) {
            Err(error) => Err(error),
            Ok(writes) => if descriptors.last().index is ReadIndex {
                Ok(writes)
            } else {
                match write_for(descriptors.last(), payloads, buffers) {
                    Ok(write) => Ok(writes.push(write)),
                    Err(error) => Err(error),
                }
            },
        }
    }
}

/// The copy that reads the buffer of one read descriptor back: as many words as the
/// payload of its slot holds, out of the linked memory of its slot. The errors are those
/// of `write_for`.
pub open spec fn read_for(
    descriptor: LayoutDescription,
    payloads: Seq<Seq<u32>>,
    buffers: Seq<LinkedMemory>,
) -> Result<MappedMemoryPointer, KernelError> {
    let slot = descriptor.slot() as int;
    if slot >= payloads.len() || slot >= buffers.len() {
        Err(KernelError::BindingMismatch)
    } else if 4 * payloads[slot].len() != descriptor.buffer_size {
        Err(
            KernelError::SizeMismatch {
                target: CopyTarget::Binding(descriptor.binding),
                declared: descriptor.buffer_size,
            },
        )
    } else {
        Ok(
            MappedMemoryPointer {
                binding: buffers[slot].binding,
                memory: buffers[slot].memory,
                size: descriptor.buffer_size,
                length: payloads[slot].len() as usize,
            },
        )
    }
}

/// The copies of the read phase: one per read descriptor, in the order of the
/// descriptors; or the error of the first read descriptor that has none.
pub open spec fn read_plan(
    descriptors: Seq<LayoutDescription>,
    payloads: Seq<Seq<u32>>,
    buffers: Seq<LinkedMemory>,
) -> Result<Seq<MappedMemoryPointer>, KernelError>
    decreases descriptors.len(),
{
    if descriptors.len() == 0 {
        Ok(seq![])
    } else {
        match read_plan(descriptors.drop_last(), payloads, buffers) {
            Err(error) => Err(error),
            Ok(reads) => if descriptors.last().index is WriteIndex {
                Ok(reads)
            } else {
                match read_for(descriptors.last(), payloads, buffers) {
                    Ok(read) => Ok(reads.push(read)),
                    Err(error) => Err(error),
                }
            },
        }
    }
}

/// The slots that the first images go to: the slot of each read descriptor, in the order
/// of the descriptors, as long as an image of exactly the declared size is there for it.
pub open spec fn delivered(descriptors: Seq<LayoutDescription>, images: Seq<Seq<u32>>) -> Result<
    Seq<usize>,
    KernelError,
>
    decreases descriptors.len(),
{
    if descriptors.len() == 0 {
        Ok(seq![])
    } else {
        match delivered(descriptors.drop_last(), images) {
            Err(error) => Err(error),
            Ok(slots) => {
                let descriptor = descriptors.last();
                if descriptor.index is WriteIndex {
                    Ok(slots)
                } else if slots.len() >= images.len() {
                    Err(KernelError::BindingMismatch)
                } else if 4 * images[slots.len() as int].len() != descriptor.buffer_size {
                    Err(
                        KernelError::SizeMismatch {
                            target: CopyTarget::Binding(descriptor.binding),
                            declared: descriptor.buffer_size,
                        },
                    )
                } else {
                    Ok(slots.push(descriptor.slot()))
                }
            },
        }
    }
}

/// The slot that each image goes to, where the images are exactly one per read
/// descriptor and each has the declared size. Too few or too many images are a
/// `BindingMismatch`, an image of another size a `SizeMismatch`.
pub open spec fn delivery_slots(
    descriptors: Seq<LayoutDescription>,
    images: Seq<Seq<u32>>,
) -> Result<Seq<usize>, KernelError> {
    match delivered(descriptors, images) {
        Err(error) => Err(error),
        Ok(slots) => if slots.len() != images.len() {
            Err(KernelError::BindingMismatch)
        } else {
            Ok(slots)
        },
    }
}

/// Whether `count` words fill exactly `bytes` bytes.
fn fills(count: usize, bytes: u64) -> (exact: bool)
    ensures
        exact <==> 4 * count == bytes,
{
    bytes % 4 == 0 && bytes / 4 == count as u64
}

/// Computes `write_plan`.
pub fn plan_writes(
    descriptors: &Vec<LayoutDescription>,
    payloads: &Vec<Vec<u32>>,
    buffers: &Vec<LinkedMemory>,
) -> (planned: Result<Vec<HostWrite>, KernelError>)
    ensures
        match write_plan(descriptors@, payload_views(payloads@), buffers@) {
            Ok(plan) => planned matches Ok(writes) && write_views(writes@) == plan,
            Err(error) => planned matches Err(found) && found == error,
        },
{
    let mut writes: Vec<HostWrite> = Vec::new();
    let mut i: usize = 0;
    assert(write_views(writes@) =~= seq![]);
    while i < descriptors.len()
        invariant
            i <= descriptors.len(),
            write_plan(descriptors@.take(i as int), payload_views(payloads@), buffers@) == Ok::<
                Seq<HostWriteView>,
                KernelError,
            >(write_views(writes@)),
        decreases descriptors.len() - i,
    {
        let descriptor = descriptors[i];
        proof {
            let next = descriptors@.take(i + 1);
            assert(next.drop_last() =~= descriptors@.take(i as int));
            assert(next.last() == descriptor);
            if i + 1 < descriptors.len() {
                lemma_write_plan_error(
                    next,
                    descriptors@,
                    payload_views(payloads@),
                    buffers@,
                );
            } else {
                assert(next =~= descriptors@);
            }
        }
        if let LayoutDescriptorIndex::WriteIndex(slot) = descriptor.index {
            if slot >= payloads.len() || slot >= buffers.len() {
                return Err(KernelError::BindingMismatch);
            }
            let pointer = match buffers[slot].get_mapped_pointer(payloads[slot].len()) {
                Some(pointer) if pointer.size == descriptor.buffer_size => pointer,
                _ => {
                    return Err(
                        KernelError::SizeMismatch {
                            target: CopyTarget::Binding(descriptor.binding),
                            declared: descriptor.buffer_size,
                        },
                    );
                },
            };
            let ghost before = write_views(writes@);
            writes.push(HostWrite { pointer, words: payloads[slot].clone() });
            assert(write_views(writes@) =~= before.push(writes@.last()@));
        }
        i = i + 1;
    }
    assert(descriptors@.take(descriptors.len() as int) =~= descriptors@);
    Ok(writes)
}

/// An error in the plan of a prefix is the error of the whole plan.
proof fn lemma_write_plan_error(
    prefix: Seq<LayoutDescription>,
    descriptors: Seq<LayoutDescription>,
    payloads: Seq<Seq<u32>>,
    buffers: Seq<LinkedMemory>,
)
    requires
        prefix.len() <= descriptors.len(),
        prefix == descriptors.take(prefix.len() as int),
    ensures
        write_plan(prefix, payloads, buffers) is Err ==> write_plan(descriptors, payloads, buffers)
            == write_plan(prefix, payloads, buffers),
    decreases descriptors.len(),
{
    if prefix.len() < descriptors.len() {
        assert(descriptors.drop_last().take(prefix.len() as int) =~= prefix);
        lemma_write_plan_error(prefix, descriptors.drop_last(), payloads, buffers);
    } else {
        assert(prefix =~= descriptors);
    }
}

/// An error in the plan of a prefix is the error of the whole plan.
proof fn lemma_read_plan_error(
    prefix: Seq<LayoutDescription>,
    descriptors: Seq<LayoutDescription>,
    payloads: Seq<Seq<u32>>,
    buffers: Seq<LinkedMemory>,
)
    requires
        prefix.len() <= descriptors.len(),
        prefix == descriptors.take(prefix.len() as int),
    ensures
        read_plan(prefix, payloads, buffers) is Err ==> read_plan(descriptors, payloads, buffers)
            == read_plan(prefix, payloads, buffers),
    decreases descriptors.len(),
{
    if prefix.len() < descriptors.len() {
        assert(descriptors.drop_last().take(prefix.len() as int) =~= prefix);
        lemma_read_plan_error(prefix, descriptors.drop_last(), payloads, buffers);
    } else {
        assert(prefix =~= descriptors);
    }
}

/// An error in the deliveries of a prefix is the error of the whole.
proof fn lemma_delivered_error(
    prefix: Seq<LayoutDescription>,
    descriptors: Seq<LayoutDescription>,
    images: Seq<Seq<u32>>,
)
    requires
        prefix.len() <= descriptors.len(),
        prefix == descriptors.take(prefix.len() as int),
    ensures
        delivered(prefix, images) is Err ==> delivered(descriptors, images) == delivered(
            prefix,
            images,
        ),
    decreases descriptors.len(),
{
    if prefix.len() < descriptors.len() {
        assert(descriptors.drop_last().take(prefix.len() as int) =~= prefix);
        lemma_delivered_error(prefix, descriptors.drop_last(), images);
    } else {
        assert(prefix =~= descriptors);
    }
}

/// Computes `read_plan`.
pub fn plan_reads(
    descriptors: &Vec<LayoutDescription>,
    payloads: &Vec<Vec<u32>>,
    buffers: &Vec<LinkedMemory>,
) -> (planned: Result<Vec<MappedMemoryPointer>, KernelError>)
    ensures
        match read_plan(descriptors@, payload_views(payloads@), buffers@) {
            Ok(plan) => planned matches Ok(reads) && reads@ == plan,
            Err(error) => planned matches Err(found) && found == error,
        },
{
    let mut reads: Vec<MappedMemoryPointer> = Vec::new();
    let mut i: usize = 0;
    while i < descriptors.len()
        invariant
            i <= descriptors.len(),
            read_plan(descriptors@.take(i as int), payload_views(payloads@), buffers@) == Ok::<
                Seq<MappedMemoryPointer>,
                KernelError,
            >(reads@),
        decreases descriptors.len() - i,
    {
        let descriptor = descriptors[i];
        proof {
            let next = descriptors@.take(i + 1);
            assert(next.drop_last() =~= descriptors@.take(i as int));
            assert(next.last() == descriptor);
            if i + 1 < descriptors.len() {
                lemma_read_plan_error(next, descriptors@, payload_views(payloads@), buffers@);
            } else {
                assert(next =~= descriptors@);
            }
        }
        if let LayoutDescriptorIndex::ReadIndex(slot) = descriptor.index {
            if slot >= payloads.len() || slot >= buffers.len() {
                return Err(KernelError::BindingMismatch);
            }
            let pointer = match buffers[slot].get_mapped_pointer(payloads[slot].len()) {
                Some(pointer) if pointer.size == descriptor.buffer_size => pointer,
                _ => {
                    return Err(
                        KernelError::SizeMismatch {
                            target: CopyTarget::Binding(descriptor.binding),
                            declared: descriptor.buffer_size,
                        },
                    );
                },
            };
            reads.push(pointer);
        }
        i = i + 1;
    }
    assert(descriptors@.take(descriptors.len() as int) =~= descriptors@);
    Ok(reads)
}

/// Computes `delivery_slots`.
pub fn plan_deliveries(descriptors: &Vec<LayoutDescription>, images: &Vec<Vec<u32>>) -> (planned:
    Result<Vec<usize>, KernelError>)
    ensures
        match delivery_slots(descriptors@, payload_views(images@)) {
            Ok(plan) => planned matches Ok(slots) && slots@ == plan,
            Err(error) => planned matches Err(found) && found == error,
        },
{
    let mut slots: Vec<usize> = Vec::new();
    let mut i: usize = 0;
    while i < descriptors.len()
        invariant
            i <= descriptors.len(),
            delivered(descriptors@.take(i as int), payload_views(images@)) == Ok::<
                Seq<usize>,
                KernelError,
            >(slots@),
        decreases descriptors.len() - i,
    {
        let descriptor = descriptors[i];
        proof {
            let next = descriptors@.take(i + 1);
            assert(next.drop_last() =~= descriptors@.take(i as int));
            assert(next.last() == descriptor);
            if i + 1 < descriptors.len() {
                lemma_delivered_error(next, descriptors@, payload_views(images@));
            } else {
                assert(next =~= descriptors@);
            }
        }
        if let LayoutDescriptorIndex::ReadIndex(slot) = descriptor.index {
            if slots.len() >= images.len() {
                return Err(KernelError::BindingMismatch);
            }
            if !fills(images[slots.len()].len(), descriptor.buffer_size) {
                return Err(
                    KernelError::SizeMismatch {
                        target: CopyTarget::Binding(descriptor.binding),
                        declared: descriptor.buffer_size,
                    },
                );
            }
            slots.push(slot);
        }
        i = i + 1;
    }
    assert(descriptors@.take(descriptors.len() as int) =~= descriptors@);
    if slots.len() != images.len() {
        return Err(KernelError::BindingMismatch);
    }
    Ok(slots)
}

} // verus!
