use crate::context::VkCtx;
use crate::data::LinkedMemory;
use crate::demo::multiply5x5_shader::Matrix5x5MultiplicationShader;
use crate::demo::multiply_nx_m_shader::{MatrixNxMShader, MatrixPairSizes};
use crate::dispatch::dispatch_outcome;
use crate::error::KernelError;
use crate::shader::{
    read_outcome, received_all, stored, ComputeShader, KernelView, LayoutDescription,
    PushConstants, ShaderExecutionContextView,
};
use crate::transfer::{write_for, write_plan};
use vstd::prelude::*;

verus! {

/// Between `before` and `after` the kernel kept all that goes into a run: its bindings,
/// its writable payloads, its parameter block and its work-group counts.
pub open spec fn inputs_kept(before: KernelView, after: KernelView) -> bool {
    &&& after.layout == before.layout
    &&& after.writables == before.writables
    &&& after.push_constants == before.push_constants
    &&& after.group_vec == before.group_vec
}

/// Kernels of type `K` change nothing but their readable payloads when they take words
/// in.
pub open spec fn reads_keep_inputs<P: PushConstants, K: ComputeShader<P>>() -> bool {
    forall|kernel: KernelView, slot: usize, words: Seq<u32>|
        inputs_kept(kernel, (#[trigger] K::received(kernel, slot, words)).1)
}

/// Taking in any number of images keeps the inputs, where taking in one does.
proof fn lemma_received_all_keeps_inputs<P: PushConstants, K: ComputeShader<P>>(
    kernel: KernelView,
    slots: Seq<usize>,
    images: Seq<Seq<u32>>,
    from: nat,
)
    requires
        reads_keep_inputs::<P, K>(),
    ensures
        inputs_kept(kernel, received_all::<P, K>(kernel, slots, images, from).1),
    decreases slots.len() - from,
{
    if from < slots.len() {
        let (status, next) = K::received(kernel, slots[from as int], images[from as int]);
        assert(inputs_kept(kernel, next));
        if status is Ok {
            lemma_received_all_keeps_inputs::<P, K>(next, slots, images, from + 1);
        }
    }
}

/// The read phase of a kernel that changes nothing but its readable payloads keeps all
/// that goes into a run, whatever images come back and whether or not they are accepted.
pub proof fn lemma_read_phase_keeps_inputs<P: PushConstants, K: ComputeShader<P>>(
    kernel: KernelView,
    images: Seq<Seq<u32>>,
)
    requires
        reads_keep_inputs::<P, K>(),
    ensures
        inputs_kept(kernel, read_outcome::<P, K>(kernel, images).1),
{
    match crate::transfer::delivery_slots(kernel.layout, images) {
        Ok(slots) => {
            lemma_received_all_keeps_inputs::<P, K>(kernel, slots, images, 0);
        },
        Err(_) => {},
    }
}

/// A second cycle repeats the first: after a read phase, with whatever images, the write
/// phase plans the same copies and the dispatch opens in the same state as before it.
/// Nothing that a run depends on is carried from one run to the next, except in the
/// readable payloads.
pub proof fn lemma_second_cycle_repeats_first<P: PushConstants, K: ComputeShader<P>>(
    ctx: &VkCtx,
    context: ShaderExecutionContextView,
    kernel: KernelView,
    images: Seq<Seq<u32>>,
    write_buffers: Seq<LinkedMemory>,
)
    requires
        reads_keep_inputs::<P, K>(),
    ensures
        ({
            let after = read_outcome::<P, K>(kernel, images).1;
            &&& write_plan(after.layout, after.writables, write_buffers) == write_plan(
                kernel.layout,
                kernel.writables,
                write_buffers,
            )
            &&& dispatch_outcome(ctx, context, after.push_constants, after.group_vec)
                == dispatch_outcome(ctx, context, kernel.push_constants, kernel.group_vec)
        }),
{
    lemma_read_phase_keeps_inputs::<P, K>(kernel, images);
}

/// Kernels of type `K` keep their readable payloads as plain words: what they answer to
/// a read, and what they hold after it, is what `stored` says.
pub open spec fn reads_store_words<P: PushConstants, K: ComputeShader<P>>() -> bool {
    forall|kernel: KernelView, slot: usize, words: Seq<u32>|
        #[trigger] K::received(kernel, slot, words) == stored(kernel, slot, words)
}

/// A kernel that keeps its readable payloads as plain words changes nothing but them when
/// it takes words in.
pub proof fn lemma_storing_keeps_inputs<P: PushConstants, K: ComputeShader<P>>()
    requires
        reads_store_words::<P, K>(),
    ensures
        reads_keep_inputs::<P, K>(),
{
    assert forall|kernel: KernelView, slot: usize, words: Seq<u32>|
        inputs_kept(kernel, (#[trigger] K::received(kernel, slot, words)).1) by {
        assert(K::received(kernel, slot, words) == stored(kernel, slot, words));
    }
}

/// Both matrix kernels keep their result as plain words, and so change nothing but their
/// result when they take words in.
pub proof fn lemma_matrix_kernels_keep_inputs()
    ensures
        reads_store_words::<MatrixPairSizes, MatrixNxMShader>(),
        reads_store_words::<MatrixPairSizes, Matrix5x5MultiplicationShader>(),
        reads_keep_inputs::<MatrixPairSizes, MatrixNxMShader>(),
        reads_keep_inputs::<MatrixPairSizes, Matrix5x5MultiplicationShader>(),
{
}

/// The round trip through an identity kernel, for every kernel that keeps its readable
/// payloads as plain words: the words that the write phase copies from a writable payload,
/// handed back unchanged for a readable payload of the same length, are taken in; the
/// readable payload then holds exactly the words of the writable one, bit for bit, and
/// the writable payloads and every other readable payload are what they were.
pub proof fn lemma_identity_round_trip<P: PushConstants, K: ComputeShader<P>>(
    kernel: KernelView,
    descriptor: LayoutDescription,
    buffers: Seq<LinkedMemory>,
    slot: usize,
)
    requires
        reads_store_words::<P, K>(),
        write_for(descriptor, kernel.writables, buffers) is Ok,
        slot < kernel.readables.len(),
        kernel.readables[slot as int].len() == kernel.writables[descriptor.slot() as int].len(),
    ensures
        ({
            let payload = kernel.writables[descriptor.slot() as int];
            let copied = write_for(descriptor, kernel.writables, buffers)->Ok_0.words;
            let (status, after) = K::received(kernel, slot, copied);
            &&& copied == payload
            &&& status == Ok::<(), KernelError>(())
            &&& after.readables == kernel.readables.update(slot as int, payload)
            &&& after.readables[slot as int] == payload
            &&& inputs_kept(kernel, after)
        }),
{
    let copied = write_for(descriptor, kernel.writables, buffers)->Ok_0.words;
    assert(K::received(kernel, slot, copied) == stored(kernel, slot, copied));
}

/// The same image twice is the same result twice: a kernel that keeps its readable
/// payloads as plain words and takes in the words it already took answers alike and holds
/// what it held.
pub proof fn lemma_same_image_twice<P: PushConstants, K: ComputeShader<P>>(
    kernel: KernelView,
    slot: usize,
    words: Seq<u32>,
)
    requires
        reads_store_words::<P, K>(),
    ensures
        ({
            let (status, after) = K::received(kernel, slot, words);
            K::received(after, slot, words) == (status, after)
        }),
{
    let (status, after) = stored(kernel, slot, words);
    assert(K::received(kernel, slot, words) == stored(kernel, slot, words));
    assert(K::received(after, slot, words) == stored(after, slot, words));
    if status is Ok {
        assert(after.readables.update(slot as int, words) =~= after.readables);
    }
}

} // verus!
