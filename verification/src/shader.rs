use crate::builder::{open_outcome, ContextBuilder};
use crate::command::{
    CreateInfo, CreateInfoView, DeviceCommand, DeviceCommandView, DeviceObject, ObjectKind,
};
use crate::context::VkCtx;
use crate::data::{LinkedMemory, LinkedMemoryBuilder, LinkedStage, MappedMemoryPointer};
use crate::dispatch::{dispatch_outcome, Dispatch};
use crate::error::{CopyTarget, KernelError};
use crate::layout::{layout_valid, read_subset, validate_layout, write_subset};
use crate::transfer::{
    delivery_slots, payload_views, plan_deliveries, plan_reads, plan_writes, read_plan,
    write_plan, write_views, HostWrite,
};
use crate::vulkan::storage_buffer_usage;
use vstd::prelude::*;

verus! {

/// Which payload list of a kernel a binding draws from, and the slot in that list.
#[derive(Clone, Copy, Debug, PartialEq, Eq, Structural)]
pub enum LayoutDescriptorIndex {
    /// Host to device: slot of the kernel's writable payloads.
    WriteIndex(usize),
    /// Device to host: slot of the kernel's readable payloads.
    ReadIndex(usize),
}

/// One binding that a kernel declares: where the shader sees it, how many bytes it holds,
/// and which payload it carries.
#[derive(Clone, Copy, Debug, PartialEq, Eq, Structural)]
pub struct LayoutDescription {
    pub binding: u32,
    pub buffer_size: u64,
    pub index: LayoutDescriptorIndex,
}

impl LayoutDescription {
    /// The slot, whichever list it addresses.
    pub open spec fn slot(&self) -> usize {
        match self.index {
            LayoutDescriptorIndex::WriteIndex(i) => i,
            LayoutDescriptorIndex::ReadIndex(i) => i,
        }
    }

    /// The slot that the descriptor addresses in the payload list of its direction.
    pub fn get_index(&self) -> (slot: usize)
        ensures
            slot == self.slot(),
    {
        match self.index {
            LayoutDescriptorIndex::WriteIndex(i) => i,
            LayoutDescriptorIndex::ReadIndex(i) => i,
        }
    }

    /// Opens the creation of the linked memory behind this binding: a storage buffer of
    /// exactly `buffer_size` bytes, then host-visible, host-coherent memory bound to it.
    /// The driver performs the command and hands the answer to the builder's `advance`.
    pub fn create_linked_memory(&self) -> (opened: (LinkedMemoryBuilder, DeviceCommand))
        ensures
            opened.0 == LinkedMemoryBuilder::start(*self),
            opened.1@ == LinkedMemoryBuilder::first_command(*self),
    {
        (
            LinkedMemoryBuilder {
                descriptor: *self,
                stage: LinkedStage::AwaitBuffer,
                buffer: 0,
                memory: 0,
            },
            DeviceCommand::Create(
                CreateInfo::Buffer { size: self.buffer_size, usage: storage_buffer_usage() },
            ),
        )
    }
}

/// The device objects behind a list of linked memories, in list order, each buffer before
/// its memory.
pub open spec fn linked_objects(linked: Seq<LinkedMemory>) -> Seq<DeviceObject>
    decreases linked.len(),
{
    if linked.len() == 0 {
        seq![]
    } else {
        linked_objects(linked.drop_last()) + linked.last().objects()
    }
}

/// The objects `layouts` names, as descriptor set layouts.
pub open spec fn layout_objects(layouts: Seq<u64>) -> Seq<DeviceObject> {
    Seq::new(
        layouts.len(),
        |i: int| DeviceObject { kind: ObjectKind::DescriptorSetLayout, handle: layouts[i] },
    )
}

/// A built kernel, ready to run any number of times: the handles of everything that the
/// build created on the device. It owns them all, and `destroy` gives them all back.
#[derive(Debug, PartialEq, Eq)]
pub struct ShaderExecutionContext {
    pub shader_module: u64,
    pub descriptor_set_layouts: Vec<u64>,
    pub descriptor_set: u64,
    /// The pool that `descriptor_set` was taken from and goes back to.
    pub descriptor_pool: u64,
    pub pipeline_layout: u64,
    pub pipeline: u64,
    /// The bytes of push constants the pipeline layout was made for; 0 where the kernel
    /// has none.
    pub push_constant_size: u32,
    /// The linked memories of the write descriptors, by slot.
    pub write_buffers: Vec<LinkedMemory>,
    /// The linked memories of the read descriptors, by slot.
    pub read_buffers: Vec<LinkedMemory>,
}

/// The mathematical content of a `ShaderExecutionContext`.
pub struct ShaderExecutionContextView {
    pub shader_module: u64,
    pub descriptor_set_layouts: Seq<u64>,
    pub descriptor_set: u64,
    pub descriptor_pool: u64,
    pub pipeline_layout: u64,
    pub pipeline: u64,
    pub push_constant_size: u32,
    pub write_buffers: Seq<LinkedMemory>,
    pub read_buffers: Seq<LinkedMemory>,
}

impl View for ShaderExecutionContext {
    type V = ShaderExecutionContextView;

    open spec fn view(&self) -> ShaderExecutionContextView {
        ShaderExecutionContextView {
            shader_module: self.shader_module,
            descriptor_set_layouts: self.descriptor_set_layouts@,
            descriptor_set: self.descriptor_set,
            descriptor_pool: self.descriptor_pool,
            pipeline_layout: self.pipeline_layout,
            pipeline: self.pipeline,
            push_constant_size: self.push_constant_size,
            write_buffers: self.write_buffers@,
            read_buffers: self.read_buffers@,
        }
    }
}

impl ShaderExecutionContextView {
    /// Everything the context owns on the device, in the order of its release: the linked
    /// memories of the write list, those of the read list, the pipeline, the pipeline
    /// layout, the descriptor set, every descriptor set layout, the shader module.
    pub open spec fn objects(self) -> Seq<DeviceObject> {
        linked_objects(self.write_buffers) + linked_objects(self.read_buffers) + seq![
            DeviceObject { kind: ObjectKind::Pipeline, handle: self.pipeline },
            DeviceObject { kind: ObjectKind::PipelineLayout, handle: self.pipeline_layout },
            DeviceObject {
                kind: ObjectKind::DescriptorSet { pool: self.descriptor_pool },
                handle: self.descriptor_set,
            },
        ] + layout_objects(self.descriptor_set_layouts) + seq![
            DeviceObject { kind: ObjectKind::ShaderModule, handle: self.shader_module },
        ]
    }
}

/// Appends the objects of `linked` to `release`, in list order.
pub(crate) fn push_linked(release: &mut Vec<DeviceObject>, linked: &Vec<LinkedMemory>)
    ensures
        final(release)@ == old(release)@ + linked_objects(linked@),
{
    let ghost before = release@;
    let mut i: usize = 0;
    while i < linked.len()
        invariant
            i <= linked.len(),
            release@ == before + linked_objects(linked@.take(i as int)),
        decreases linked.len() - i,
    {
        proof {
            let next = linked@.take(i + 1);
            assert(next.drop_last() =~= linked@.take(i as int));
            assert(next.last() == linked@[i as int]);
        }
        release.push(DeviceObject { kind: ObjectKind::Buffer, handle: linked[i].buffer });
        release.push(DeviceObject { kind: ObjectKind::Memory, handle: linked[i].memory });
        assert(release@ =~= before + linked_objects(linked@.take(i + 1)));
        i = i + 1;
    }
    assert(linked@.take(linked.len() as int) =~= linked@);
}

impl ShaderExecutionContext {
    /// Takes the context down. The driver releases what comes back, in order: the linked
    /// memories (write list, then read list, each buffer before its memory), the pipeline,
    /// the pipeline layout, the descriptor set, every descriptor set layout, and the shader
    /// module. The context is consumed: it cannot be used or destroyed again.
    pub fn destroy(self) -> (release: Vec<DeviceObject>)
        ensures
            release@ == self@.objects(),
    {
        let mut release: Vec<DeviceObject> = Vec::new();
        push_linked(&mut release, &self.write_buffers);
        push_linked(&mut release, &self.read_buffers);
        release.push(DeviceObject { kind: ObjectKind::Pipeline, handle: self.pipeline });
        release.push(
            DeviceObject { kind: ObjectKind::PipelineLayout, handle: self.pipeline_layout },
        );
        release.push(
            DeviceObject {
                kind: ObjectKind::DescriptorSet { pool: self.descriptor_pool },
                handle: self.descriptor_set,
            },
        );
        let ghost prefix = release@;
        let mut i: usize = 0;
        while i < self.descriptor_set_layouts.len()
            invariant
                i <= self.descriptor_set_layouts.len(),
                release@ == prefix + layout_objects(self.descriptor_set_layouts@.take(i as int)),
            decreases self.descriptor_set_layouts.len() - i,
        {
            release.push(
                DeviceObject {
                    kind: ObjectKind::DescriptorSetLayout,
                    handle: self.descriptor_set_layouts[i],
                },
            );
            assert(release@ =~= prefix + layout_objects(
                self.descriptor_set_layouts@.take(i + 1),
            ));
            i = i + 1;
        }
        assert(self.descriptor_set_layouts@.take(self.descriptor_set_layouts.len() as int)
            =~= self.descriptor_set_layouts@);
        release.push(DeviceObject { kind: ObjectKind::ShaderModule, handle: self.shader_module });
        assert(release@ =~= self@.objects());
        release
    }
}

/// A parameter block: a small fixed-size value that travels with the dispatch command. The
/// harness passes its words on as they are and reads nothing into them.
pub trait PushConstants {
    /// The block as the 32-bit words that are pushed, in order.
    spec fn words(&self) -> Seq<u32>;

    fn to_words(&self) -> (words: Vec<u32>)
        ensures
            words@ == self.words(),
    ;
}

/// The words of a block, where there is one.
pub open spec fn block_words<P: PushConstants>(block: Option<P>) -> Option<Seq<u32>> {
    match block {
        Some(constants) => Some(constants.words()),
        None => None,
    }
}

/// The number of words of a block, where there is one.
pub open spec fn block_length(block: Option<Seq<u32>>) -> Option<usize> {
    match block {
        Some(words) => Some(words.len() as usize),
        None => None,
    }
}

/// All that the harness sees of a kernel.
pub struct KernelView {
    /// The bindings the kernel declares.
    pub layout: Seq<LayoutDescription>,
    /// The words of each writable payload, by write slot.
    pub writables: Seq<Seq<u32>>,
    /// The words of each readable payload, by read slot.
    pub readables: Seq<Seq<u32>>,
    /// The words of the parameter block, where the kernel has one.
    pub push_constants: Option<Seq<u32>>,
    /// The work-group counts in x, y and z.
    pub group_vec: (u32, u32, u32),
}

/// What a kernel is compiled from: its source text, the name the compiler reports errors
/// under, and the entry point.
#[derive(Debug, PartialEq, Eq)]
pub struct ShaderSource {
    pub source: String,
    pub file_name: String,
    pub entry_point: String,
}

/// What a kernel whose readable payloads are plain words answers to `words` for `slot`,
/// and how it is seen afterwards: a slot outside the readable payloads is a
/// `BindingMismatch`; words in another number than the payload holds are a `SizeMismatch`;
/// else the payload of the slot holds exactly `words`, and nothing else has changed.
pub open spec fn stored(kernel: KernelView, slot: usize, words: Seq<u32>) -> (
    Result<(), KernelError>,
    KernelView,
) {
    if slot >= kernel.readables.len() {
        (Err(KernelError::BindingMismatch), kernel)
    } else if words.len() != kernel.readables[slot as int].len() {
        (
            Err(
                KernelError::SizeMismatch {
                    target: CopyTarget::Payload,
                    declared: (4 * kernel.readables[slot as int].len()) as u64,
                },
            ),
            kernel,
        )
    } else {
        (Ok(()), KernelView { readables: kernel.readables.update(slot as int, words), ..kernel })
    }
}

/// What the kernel holds after it took in the images from number `from` on, each through
/// `received` at its slot, in order; the first refusal ends it.
pub open spec fn received_all<P: PushConstants, K: ComputeShader<P>>(
    kernel: KernelView,
    slots: Seq<usize>,
    images: Seq<Seq<u32>>,
    from: nat,
) -> (Result<(), KernelError>, KernelView)
    decreases slots.len() - from,
{
    if from >= slots.len() {
        (Ok(()), kernel)
    } else {
        let (status, next) = K::received(kernel, slots[from as int], images[from as int]);
        if status is Err {
            (status, next)
        } else {
            received_all::<P, K>(next, slots, images, from + 1)
        }
    }
}

/// What the read phase comes to. The images must be one per read descriptor, in the order
/// of the descriptors, each of the declared size; if they are not, the kernel stays as it
/// is. Otherwise each goes to the payload of its slot.
pub open spec fn read_outcome<P: PushConstants, K: ComputeShader<P>>(
    kernel: KernelView,
    images: Seq<Seq<u32>>,
) -> (Result<(), KernelError>, KernelView) {
    match delivery_slots(kernel.layout, images) {
        Err(error) => (Err(error), kernel),
        Ok(slots) => received_all::<P, K>(kernel, slots, images, 0),
    }
}

/// What every kernel gives the harness: its source, its bindings, its payloads in both
/// directions, its parameter block and its work-group counts. From these the harness
/// derives the build, the transfers and the dispatch.
///
/// The view names what the methods return; `received` names what `read_slot` does to the
/// view, and `kept` what it leaves alone of the kernel itself.
pub trait ComputeShader<TPushConstants: PushConstants>: Sized {
    /// The kernel as the harness sees it.
    spec fn view(&self) -> KernelView;

    /// What `read_slot` answers on a kernel seen as `kernel`, and how the kernel is seen
    /// after it.
    spec fn received(kernel: KernelView, slot: usize, words: Seq<u32>) -> (
        Result<(), KernelError>,
        KernelView,
    );

    /// What the kernel's bytecode is compiled from.
    fn get_shader_source() -> ShaderSource;

    fn get_layout_descriptors(&self) -> (descriptors: Vec<LayoutDescription>)
        ensures
            descriptors@ == self@.layout,
    ;

    /// The image of each writable payload, by write slot.
    fn get_writables(&self) -> (payloads: Vec<Vec<u32>>)
        ensures
            payload_views(payloads@) == self@.writables,
    ;

    /// The image of each readable payload as it stands, by read slot.
    fn get_readables(&self) -> (payloads: Vec<Vec<u32>>)
        ensures
            payload_views(payloads@) == self@.readables,
    ;

    /// What no read changes of a kernel beyond what its view shows: how the kernel after
    /// reads relates to the kernel before them.
    spec fn kept(before: Self, after: Self) -> bool;

    /// A kernel that was not read into keeps what `kept` names.
    proof fn lemma_kept_same(kernel: Self)
        ensures
            Self::kept(kernel, kernel),
    ;

    /// What one read keeps and the next keeps, both keep.
    proof fn lemma_kept_chain(first: Self, second: Self, third: Self)
        requires
            Self::kept(first, second),
            Self::kept(second, third),
        ensures
            Self::kept(first, third),
    ;

    /// Hands the words that came back from the device to the readable payload at `slot`.
    fn read_slot(&mut self, slot: usize, words: &Vec<u32>) -> (status: Result<(), KernelError>)
        ensures
            (status, final(self)@) == Self::received(old(self)@, slot, words@),
            Self::kept(*old(self), *final(self)),
    ;

    fn get_push_constants(&self) -> (block: Option<TPushConstants>)
        ensures
            block_words(block) == self@.push_constants,
    ;

    fn get_group_vec(&self) -> (groups: (u32, u32, u32))
        ensures
            groups == self@.group_vec,
    ;

    /// The descriptors whose buffers take the kernel's input, ordered by slot, if the
    /// descriptors line up with the payloads.
    fn get_write_buffers(&self) -> (list: Result<Vec<LayoutDescription>, KernelError>)
        ensures
            list is Ok <==> layout_valid(
                self@.layout,
                self@.writables.len(),
                self@.readables.len(),
            ),
            list matches Ok(subset) ==> subset@ == write_subset(
                self@.layout,
                self@.writables.len(),
            ),
            list matches Err(error) ==> error == KernelError::BindingMismatch,
    {
        let descriptors = self.get_layout_descriptors();
        let writables = self.get_writables().len();
        let readables = self.get_readables().len();
        match validate_layout(&descriptors, writables, readables) {
            Ok(order) => Ok(order.write),
            Err(error) => Err(error),
        }
    }

    /// The descriptors whose buffers hold the kernel's output, ordered by slot, if the
    /// descriptors line up with the payloads.
    fn get_read_buffers(&self) -> (list: Result<Vec<LayoutDescription>, KernelError>)
        ensures
            list is Ok <==> layout_valid(
                self@.layout,
                self@.writables.len(),
                self@.readables.len(),
            ),
            list matches Ok(subset) ==> subset@ == read_subset(
                self@.layout,
                self@.readables.len(),
            ),
            list matches Err(error) ==> error == KernelError::BindingMismatch,
    {
        let descriptors = self.get_layout_descriptors();
        let writables = self.get_writables().len();
        let readables = self.get_readables().len();
        match validate_layout(&descriptors, writables, readables) {
            Ok(order) => Ok(order.read),
            Err(error) => Err(error),
        }
    }

    /// The write phase: the copies that put every writable payload into the linked memory
    /// of its slot. The driver performs them before it dispatches.
    fn write_inputs(&self, write_buffers: &Vec<LinkedMemory>) -> (planned: Result<
        Vec<HostWrite>,
        KernelError,
    >)
        ensures
            match write_plan(self@.layout, self@.writables, write_buffers@) {
                Ok(plan) => planned matches Ok(writes) && write_views(writes@) == plan,
                Err(error) => planned matches Err(found) && found == error,
            },
    {
        let descriptors = self.get_layout_descriptors();
        let payloads = self.get_writables();
        plan_writes(&descriptors, &payloads, write_buffers)
    }

    /// The first half of the read phase: the copies that fetch the linked memory of every
    /// read slot. The driver performs them once the dispatch has finished and hands the
    /// images, in this order, to `read_result`.
    fn read_requests(&self, read_buffers: &Vec<LinkedMemory>) -> (planned: Result<
        Vec<MappedMemoryPointer>,
        KernelError,
    >)
        ensures
            match read_plan(self@.layout, self@.readables, read_buffers@) {
                Ok(plan) => planned matches Ok(reads) && reads@ == plan,
                Err(error) => planned matches Err(found) && found == error,
            },
    {
        let descriptors = self.get_layout_descriptors();
        let payloads = self.get_readables();
        plan_reads(&descriptors, &payloads, read_buffers)
    }

    /// Opens one dispatch of the built kernel with its current parameter block and
    /// work-group counts. The driver carries the commands out and hands each answer to
    /// the dispatch's `advance`.
    fn run_shader(&self, ctx: &VkCtx, module: &ShaderExecutionContext) -> (opened: Result<
        (Dispatch, DeviceCommand),
        KernelError,
    >)
        ensures
            match dispatch_outcome(ctx, module@, self@.push_constants, self@.group_vec) {
                Ok(first) => opened matches Ok((dispatch, command)) && dispatch@ == first
                    && command@ == DeviceCommandView::Create(CreateInfoView::Fence),
                Err(error) => opened matches Err(found) && found == error,
            },
    {
        let push_constants = match self.get_push_constants() {
            Some(block) => Some(block.to_words()),
            None => None,
        };
        Dispatch::open(ctx, module, push_constants, self.get_group_vec())
    }

    /// Opens the build of the execution context from the kernel's bytecode. Descriptors
    /// that do not line up with the payloads fail here, before anything is asked of the
    /// device. The driver carries the commands out and hands each answer to the builder's
    /// `advance`.
    fn build_shader_context(&self, ctx: &VkCtx, spirv: Vec<u32>) -> (opened: Result<
        (ContextBuilder, DeviceCommand),
        KernelError,
    >)
        ensures
            match open_outcome(
                self@.layout,
                self@.writables.len() as usize,
                self@.readables.len() as usize,
                block_length(self@.push_constants),
                ctx.descriptor_pool,
            ) {
                Ok(first) => opened matches Ok((builder, command)) && builder@ == first
                    && builder@.wf() && command@ == DeviceCommandView::Create(
                    CreateInfoView::ShaderModule { code: spirv@ },
                ),
                Err(error) => opened matches Err(found) && found == error,
            },
    {
        let descriptors = self.get_layout_descriptors();
        let writables = self.get_writables().len();
        let readables = self.get_readables().len();
        let words = match self.get_push_constants() {
            Some(block) => Some(block.to_words().len()),
            None => None,
        };
        ContextBuilder::open(descriptors, writables, readables, words, ctx, spirv)
    }
}

/// The read phase of any kernel.
pub trait ReadBack<TPushConstants: PushConstants>: ComputeShader<TPushConstants> {
    /// The second half of the read phase: every image goes to the readable payload of its
    /// slot, once. Whatever the outcome, the kernel keeps what its reads keep.
    fn read_result(&mut self, images: &Vec<Vec<u32>>) -> (status: Result<(), KernelError>)
        ensures
            (status, final(self)@) == read_outcome::<TPushConstants, Self>(
                old(self)@,
                payload_views(images@),
            ),
            Self::kept(*old(self), *final(self)),
    {
        proof {
            Self::lemma_kept_same(*self);
        }
        let descriptors = self.get_layout_descriptors();
        let slots = match plan_deliveries(&descriptors, images) {
            Ok(slots) => slots,
            Err(error) => {
                return Err(error);
            },
        };
        let mut k: usize = 0;
        while k < slots.len()
            invariant
                k <= slots.len(),
                slots.len() == images.len(),
                Self::kept(*old(self), *self),
                delivery_slots(old(self)@.layout, payload_views(images@)) == Ok::<
                    Seq<usize>,
                    KernelError,
                >(slots@),
                received_all::<TPushConstants, Self>(
                    old(self)@,
                    slots@,
                    payload_views(images@),
                    0,
                ) == received_all::<TPushConstants, Self>(
                    self@,
                    slots@,
                    payload_views(images@),
                    k as nat,
                ),
            decreases slots.len() - k,
        {
            assert(payload_views(images@)[k as int] == images[k as int]@);
            let ghost before = *self;
            let status = self.read_slot(slots[k], &images[k]);
            proof {
                Self::lemma_kept_chain(*old(self), before, *self);
            }
            if status.is_err() {
                return status;
            }
            k = k + 1;
        }
        Ok(())
    }
}

impl<TPushConstants: PushConstants, K: ComputeShader<TPushConstants>> ReadBack<
    TPushConstants,
> for K {

}

} // verus!
