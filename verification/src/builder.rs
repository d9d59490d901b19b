use crate::command::{
    BufferWrite, CreateInfo, CreateInfoView, DeviceCommand, DeviceCommandView, DeviceObject,
    DeviceReply, LayoutBinding, ObjectKind, PushConstantRange,
};
use crate::context::VkCtx;
use crate::data::{
    refusal, refuse, LinkedMemory, LinkedMemoryBuilder, LinkedProgress, LinkedProgressView,
    LinkedStage,
};
use crate::error::{CopyTarget, KernelError, Phase};
use crate::layout::{layout_valid, read_subset, slots_in_range, validate_layout, write_subset};
use crate::shader::{
    linked_objects, push_linked, LayoutDescription, LayoutDescriptorIndex,
    ShaderExecutionContext, ShaderExecutionContextView,
};
use crate::vulkan::{compute_stage, storage_buffer_descriptor};
use vstd::prelude::*;

verus! {

/// How far the build of an execution context has come: which answer it waits for.
#[derive(Clone, Copy, Debug, PartialEq, Eq, Structural)]
pub enum BuildStage {
    AwaitModule,
    AwaitSetLayout,
    AwaitDescriptorSet,
    AwaitPipelineLayout,
    AwaitPipeline,
    /// One linked memory of the plan is being created.
    Linking,
    AwaitUpdate,
}

/// The build of an execution context, between two answers of the device. It holds the
/// handles of everything created so far, so that a failure at any step can give all of it
/// back.
pub struct ContextBuilder {
    state: BuildState,
}

/// The fields of a build, with nothing said of how they fit together.
struct BuildState {
    stage: BuildStage,
    descriptors: Vec<LayoutDescription>,
    write_count: usize,
    plan: Vec<LayoutDescription>,
    push_constants: PushConstantRange,
    descriptor_pool: u64,
    shader_module: u64,
    set_layout: u64,
    descriptor_set: u64,
    pipeline_layout: u64,
    pipeline: u64,
    linked: Vec<LinkedMemory>,
    linking: LinkedMemoryBuilder,
}

/// The mathematical content of a `ContextBuilder`.
pub struct ContextBuilderView {
    pub stage: BuildStage,
    /// The kernel's descriptors, as it declared them.
    pub descriptors: Seq<LayoutDescription>,
    /// The number of write slots.
    pub write_count: usize,
    /// The order in which linked memories are created: the write descriptors by slot, then
    /// the read descriptors by slot.
    pub plan: Seq<LayoutDescription>,
    pub push_constants: PushConstantRange,
    pub descriptor_pool: u64,
    pub shader_module: u64,
    pub set_layout: u64,
    pub descriptor_set: u64,
    pub pipeline_layout: u64,
    pub pipeline: u64,
    /// The linked memories that are complete, in plan order.
    pub linked: Seq<LinkedMemory>,
    /// The linked memory under creation, while the stage is `Linking`.
    pub linking: LinkedMemoryBuilder,
}

/// Where one answer of the device takes a build.
pub enum BuildProgress {
    /// The driver performs the command and comes back with the device's answer.
    Pending(ContextBuilder, DeviceCommand),
    /// The context is complete and owns everything that was created.
    Built(ShaderExecutionContext),
    /// The build failed; the driver releases `release` in order, and nothing is left.
    Failed { error: KernelError, release: Vec<DeviceObject> },
}

/// The mathematical content of a `BuildProgress`.
pub enum BuildProgressView {
    Pending(ContextBuilderView, DeviceCommandView),
    Built(ShaderExecutionContextView),
    Failed { error: KernelError, release: Seq<DeviceObject> },
}

impl View for BuildProgress {
    type V = BuildProgressView;

    open spec fn view(&self) -> BuildProgressView {
        match *self {
            BuildProgress::Pending(builder, command) => BuildProgressView::Pending(
                builder@,
                command@,
            ),
            BuildProgress::Built(context) => BuildProgressView::Built(context@),
            BuildProgress::Failed { error, release } => BuildProgressView::Failed {
                error,
                release: release@,
            },
        }
    }
}

/// The layout entry of each descriptor: a single storage buffer, visible to the compute
/// stage, at the descriptor's binding.
pub open spec fn layout_bindings(descriptors: Seq<LayoutDescription>) -> Seq<LayoutBinding> {
    Seq::new(
        descriptors.len(),
        |i: int|
            LayoutBinding {
                binding: descriptors[i].binding,
                descriptor_type: 7,
                descriptor_count: 1,
                stage_flags: 0x20,
            },
    )
}

/// The place in the plan of the linked memory that `descriptor` is served by.
pub open spec fn plan_position(descriptor: LayoutDescription, write_count: usize) -> int {
    match descriptor.index {
        LayoutDescriptorIndex::WriteIndex(slot) => slot as int,
        LayoutDescriptorIndex::ReadIndex(slot) => write_count + slot,
    }
}

/// What populates the descriptor set: for every descriptor, the buffer of its linked
/// memory at its binding, from offset 0 over exactly its declared size.
pub open spec fn buffer_writes(
    descriptors: Seq<LayoutDescription>,
    write_count: usize,
    linked: Seq<LinkedMemory>,
) -> Seq<BufferWrite> {
    Seq::new(
        descriptors.len(),
        |i: int|
            BufferWrite {
                binding: descriptors[i].binding,
                descriptor_type: 7,
                buffer: linked[plan_position(descriptors[i], write_count)].buffer,
                offset: 0,
                range: descriptors[i].buffer_size,
            },
    )
}

/// The push-constant range for a block of `words` 32-bit words: visible to the compute
/// stage where the kernel has a block, and empty where it has none.
pub open spec fn push_constant_range(words: Option<usize>) -> PushConstantRange {
    match words {
        Some(count) => PushConstantRange { stage_flags: 0x20, offset: 0, size: (4 * count) as u32 },
        None => PushConstantRange { stage_flags: 0, offset: 0, size: 0 },
    }
}

impl ContextBuilderView {
    /// The number of read slots.
    pub open spec fn read_count(self) -> nat {
        (self.plan.len() - self.write_count) as nat
    }

    /// The plan is the write list followed by the read list of descriptors that line up
    /// with the payloads.
    pub open spec fn plan_wf(self) -> bool {
        &&& self.write_count <= self.plan.len()
        &&& layout_valid(self.descriptors, self.write_count as nat, self.read_count())
        &&& self.plan == write_subset(self.descriptors, self.write_count as nat) + read_subset(
            self.descriptors,
            self.read_count(),
        )
    }

    /// What holds of every build in progress.
    pub open spec fn wf(self) -> bool {
        &&& self.plan_wf()
        &&& self.linked.len() <= self.plan.len()
        &&& forall|k: int|
            0 <= k < self.linked.len() ==> (#[trigger] self.linked[k]).binding
                == self.plan[k].binding
        &&& match self.stage {
            BuildStage::Linking => self.linked.len() < self.plan.len() && self.linking.descriptor
                == self.plan[self.linked.len() as int],
            BuildStage::AwaitUpdate => self.linked.len() == self.plan.len(),
            _ => self.linked.len() == 0,
        }
    }

    /// The objects created before any linked memory, as far as they exist, in release
    /// order.
    pub open spec fn fixed_objects(self) -> Seq<DeviceObject> {
        let module = DeviceObject { kind: ObjectKind::ShaderModule, handle: self.shader_module };
        let layout = DeviceObject {
            kind: ObjectKind::DescriptorSetLayout,
            handle: self.set_layout,
        };
        let set = DeviceObject {
            kind: ObjectKind::DescriptorSet { pool: self.descriptor_pool },
            handle: self.descriptor_set,
        };
        let pipeline_layout = DeviceObject {
            kind: ObjectKind::PipelineLayout,
            handle: self.pipeline_layout,
        };
        let pipeline = DeviceObject { kind: ObjectKind::Pipeline, handle: self.pipeline };
        match self.stage {
            BuildStage::AwaitModule => seq![],
            BuildStage::AwaitSetLayout => seq![module],
            BuildStage::AwaitDescriptorSet => seq![layout, module],
            BuildStage::AwaitPipelineLayout => seq![set, layout, module],
            BuildStage::AwaitPipeline => seq![pipeline_layout, set, layout, module],
            BuildStage::Linking | BuildStage::AwaitUpdate => seq![
                pipeline,
                pipeline_layout,
                set,
                layout,
                module,
            ],
        }
    }

    /// What is being created besides the complete linked memories.
    pub open spec fn partial_objects(self) -> Seq<DeviceObject> {
        if self.stage == BuildStage::Linking {
            self.linking.owned()
        } else {
            seq![]
        }
    }

    /// Everything the build has on the device, in release order: the complete linked
    /// memories, the one under creation, then pipeline, pipeline layout, descriptor set,
    /// descriptor set layout and shader module.
    pub open spec fn owned(self) -> Seq<DeviceObject> {
        linked_objects(self.linked) + self.partial_objects() + self.fixed_objects()
    }

    /// The phase that the pending command belongs to.
    pub open spec fn phase(self) -> Phase {
        match self.stage {
            BuildStage::AwaitModule => Phase::ShaderModule,
            BuildStage::AwaitSetLayout => Phase::DescriptorSetLayout,
            BuildStage::AwaitDescriptorSet => Phase::DescriptorSet,
            BuildStage::AwaitPipelineLayout => Phase::PipelineLayout,
            BuildStage::AwaitPipeline => Phase::Pipeline,
            BuildStage::Linking => self.linking.phase(),
            BuildStage::AwaitUpdate => Phase::DescriptorUpdate,
        }
    }

    /// The context that a complete build hands over.
    pub open spec fn context(self) -> ShaderExecutionContextView {
        ShaderExecutionContextView {
            shader_module: self.shader_module,
            descriptor_set_layouts: seq![self.set_layout],
            descriptor_set: self.descriptor_set,
            descriptor_pool: self.descriptor_pool,
            pipeline_layout: self.pipeline_layout,
            pipeline: self.pipeline,
            push_constant_size: self.push_constants.size,
            write_buffers: self.linked.subrange(0, self.write_count as int),
            read_buffers: self.linked.subrange(self.write_count as int, self.linked.len() as int),
        }
    }

    /// Goes on after the pipeline or a linked memory is complete: with the next linked
    /// memory of the plan, or with the population of the descriptor set.
    pub open spec fn link_next(self) -> BuildProgressView {
        if self.linked.len() < self.plan.len() {
            let descriptor = self.plan[self.linked.len() as int];
            BuildProgressView::Pending(
                ContextBuilderView {
                    stage: BuildStage::Linking,
                    linking: LinkedMemoryBuilder::start(descriptor),
                    ..self
                },
                LinkedMemoryBuilder::first_command(descriptor),
            )
        } else {
            BuildProgressView::Pending(
                ContextBuilderView { stage: BuildStage::AwaitUpdate, ..self },
                DeviceCommandView::UpdateDescriptorSet {
                    set: self.descriptor_set,
                    writes: buffer_writes(self.descriptors, self.write_count, self.linked),
                },
            )
        }
    }

    /// The state and the command after the device answered `reply` to the pending
    /// command, on a device whose memory types have the property flags `memory_types`.
    /// Any refusal ends the build and names everything created so far for release.
    pub open spec fn step(self, memory_types: Seq<u32>, reply: DeviceReply) -> BuildProgressView {
        match (self.stage, reply) {
            (BuildStage::AwaitModule, DeviceReply::Handle(handle)) => BuildProgressView::Pending(
                ContextBuilderView {
                    stage: BuildStage::AwaitSetLayout,
                    shader_module: handle,
                    ..self
                },
                DeviceCommandView::Create(
                    CreateInfoView::DescriptorSetLayout {
                        bindings: layout_bindings(self.descriptors),
                    },
                ),
            ),
            (BuildStage::AwaitSetLayout, DeviceReply::Handle(handle)) => BuildProgressView::Pending(
                ContextBuilderView {
                    stage: BuildStage::AwaitDescriptorSet,
                    set_layout: handle,
                    ..self
                },
                DeviceCommandView::Create(
                    CreateInfoView::DescriptorSet { pool: self.descriptor_pool, layout: handle },
                ),
            ),
            (BuildStage::AwaitDescriptorSet, DeviceReply::Handle(handle)) => {
                BuildProgressView::Pending(
                    ContextBuilderView {
                        stage: BuildStage::AwaitPipelineLayout,
                        descriptor_set: handle,
                        ..self
                    },
                    DeviceCommandView::Create(
                        CreateInfoView::PipelineLayout {
                            set_layouts: seq![self.set_layout],
                            push_constants: self.push_constants,
                        },
                    ),
                )
            },
            (BuildStage::AwaitPipelineLayout, DeviceReply::Handle(handle)) => {
                BuildProgressView::Pending(
                    ContextBuilderView {
                        stage: BuildStage::AwaitPipeline,
                        pipeline_layout: handle,
                        ..self
                    },
                    DeviceCommandView::Create(
                        CreateInfoView::ComputePipeline {
                            module: self.shader_module,
                            layout: handle,
                            stage: 0x20,
                            entry_point: PIPELINE_ENTRY_POINT@,
                        },
                    ),
                )
            },
            (BuildStage::AwaitPipeline, DeviceReply::Handle(handle)) => ContextBuilderView {
                pipeline: handle,
                ..self
            }.link_next(),
            (BuildStage::Linking, _) => match self.linking.step(memory_types, reply) {
                LinkedProgressView::Pending(linking, command) => BuildProgressView::Pending(
                    ContextBuilderView { linking, ..self },
                    command,
                ),
                LinkedProgressView::Built(linked) => ContextBuilderView {
                    linked: self.linked.push(linked),
                    ..self
                }.link_next(),
                LinkedProgressView::Failed { error, release } => BuildProgressView::Failed {
                    error,
                    release: self.owned(),
                },
            },
            (BuildStage::AwaitUpdate, DeviceReply::Done) => BuildProgressView::Built(
                self.context(),
            ),
            _ => BuildProgressView::Failed {
                error: refusal(self.phase(), reply),
                release: self.owned(),
            },
        }
    }
}

impl View for BuildState {
    type V = ContextBuilderView;

    closed spec fn view(&self) -> ContextBuilderView {
        ContextBuilderView {
            stage: self.stage,
            descriptors: self.descriptors@,
            write_count: self.write_count,
            plan: self.plan@,
            push_constants: self.push_constants,
            descriptor_pool: self.descriptor_pool,
            shader_module: self.shader_module,
            set_layout: self.set_layout,
            descriptor_set: self.descriptor_set,
            pipeline_layout: self.pipeline_layout,
            pipeline: self.pipeline,
            linked: self.linked@,
            linking: self.linking,
        }
    }
}

impl View for ContextBuilder {
    type V = ContextBuilderView;

    closed spec fn view(&self) -> ContextBuilderView {
        self.state@
    }
}

/// The linked memory builder that stands in while no linked memory is under creation.
pub open spec fn idle_linking() -> LinkedMemoryBuilder {
    LinkedMemoryBuilder::start(
        LayoutDescription {
            binding: 0,
            buffer_size: 0,
            index: LayoutDescriptorIndex::WriteIndex(0),
        },
    )
}

/// The build of a kernel before the device was asked for anything.
pub open spec fn initial_build(
    descriptors: Seq<LayoutDescription>,
    writables: usize,
    readables: usize,
    push_constants: PushConstantRange,
    descriptor_pool: u64,
) -> ContextBuilderView {
    ContextBuilderView {
        stage: BuildStage::AwaitModule,
        descriptors,
        write_count: writables,
        plan: write_subset(descriptors, writables as nat) + read_subset(
            descriptors,
            readables as nat,
        ),
        push_constants,
        descriptor_pool,
        shader_module: 0,
        set_layout: 0,
        descriptor_set: 0,
        pipeline_layout: 0,
        pipeline: 0,
        linked: seq![],
        linking: idle_linking(),
    }
}

/// What opening a build comes to: the first state, or the reason why no build starts.
/// Descriptors that do not line up with the payload lists are a `BindingMismatch`; a
/// push-constant block whose byte size does not fit 32 bits is a `SizeMismatch`.
pub open spec fn open_outcome(
    descriptors: Seq<LayoutDescription>,
    writables: usize,
    readables: usize,
    push_constant_words: Option<usize>,
    descriptor_pool: u64,
) -> Result<ContextBuilderView, KernelError> {
    if !layout_valid(descriptors, writables as nat, readables as nat) {
        Err(KernelError::BindingMismatch)
    } else if push_constant_words matches Some(count) && 4 * count > u32::MAX {
        Err(
            KernelError::SizeMismatch {
                target: CopyTarget::PushConstants,
                declared: u32::MAX as u64,
            },
        )
    } else {
        Ok(
            initial_build(
                descriptors,
                writables,
                readables,
                push_constant_range(push_constant_words),
                descriptor_pool,
            ),
        )
    }
}

/// The entry point that every pipeline runs.
pub const PIPELINE_ENTRY_POINT: &'static str = "main";

/// The command that creates the compute pipeline of `shader_module` with
/// `pipeline_layout`: one compute stage that runs the entry point `main`.
pub fn create_compute_pipeline(pipeline_layout: u64, shader_module: u64) -> (command:
    DeviceCommand)
    ensures
        command@ == DeviceCommandView::Create(
            CreateInfoView::ComputePipeline {
                module: shader_module,
                layout: pipeline_layout,
                stage: 0x20,
                entry_point: PIPELINE_ENTRY_POINT@,
            },
        ),
{
    DeviceCommand::Create(
        CreateInfo::ComputePipeline {
            module: shader_module,
            layout: pipeline_layout,
            stage: compute_stage(),
            entry_point: PIPELINE_ENTRY_POINT.to_owned(),
        },
    )
}

/// Computes `layout_bindings`.
fn make_layout_bindings(descriptors: &Vec<LayoutDescription>) -> (bindings: Vec<LayoutBinding>)
    ensures
        bindings@ == layout_bindings(descriptors@),
{
    let descriptor_type = storage_buffer_descriptor();
    let stage_flags = compute_stage();
    let mut bindings: Vec<LayoutBinding> = Vec::new();
    let mut i: usize = 0;
    while i < descriptors.len()
        invariant
            i <= descriptors.len(),
            descriptor_type == 7,
            stage_flags == 0x20,
            bindings@ == layout_bindings(descriptors@.take(i as int)),
        decreases descriptors.len() - i,
    {
        bindings.push(
            LayoutBinding {
                binding: descriptors[i].binding,
                descriptor_type,
                descriptor_count: 1,
                stage_flags,
            },
        );
        assert(bindings@ =~= layout_bindings(descriptors@.take(i + 1)));
        i = i + 1;
    }
    assert(descriptors@.take(descriptors.len() as int) =~= descriptors@);
    bindings
}

/// Computes `buffer_writes`.
fn make_buffer_writes(
    descriptors: &Vec<LayoutDescription>,
    write_count: usize,
    linked: &Vec<LinkedMemory>,
) -> (writes: Vec<BufferWrite>)
    requires
        write_count <= linked.len(),
        slots_in_range(descriptors@, write_count as nat, (linked.len() - write_count) as nat),
    ensures
        writes@ == buffer_writes(descriptors@, write_count, linked@),
{
    let descriptor_type = storage_buffer_descriptor();
    let mut writes: Vec<BufferWrite> = Vec::new();
    let mut i: usize = 0;
    while i < descriptors.len()
        invariant
            i <= descriptors.len(),
            descriptor_type == 7,
            write_count <= linked.len(),
            slots_in_range(descriptors@, write_count as nat, (linked.len() - write_count) as nat),
            writes@ == buffer_writes(descriptors@.take(i as int), write_count, linked@),
        decreases descriptors.len() - i,
    {
        let descriptor = descriptors[i];
        assert(descriptor == descriptors@[i as int]);
        let position = match descriptor.index {
            LayoutDescriptorIndex::WriteIndex(slot) => slot,
            LayoutDescriptorIndex::ReadIndex(slot) => write_count + slot,
        };
        writes.push(
            BufferWrite {
                binding: descriptor.binding,
                descriptor_type,
                buffer: linked[position].buffer,
                offset: 0,
                range: descriptor.buffer_size,
            },
        );
        assert(writes@ =~= buffer_writes(descriptors@.take(i + 1), write_count, linked@));
        i = i + 1;
    }
    assert(descriptors@.take(descriptors.len() as int) =~= descriptors@);
    writes
}

impl BuildState {
    /// Computes `fixed_objects` and appends them to `release`.
    fn push_fixed(&self, release: &mut Vec<DeviceObject>)
        ensures
            final(release)@ == old(release)@ + self@.fixed_objects(),
    {
        let ghost before = release@;
        let module = DeviceObject { kind: ObjectKind::ShaderModule, handle: self.shader_module };
        let layout = DeviceObject {
            kind: ObjectKind::DescriptorSetLayout,
            handle: self.set_layout,
        };
        let set = DeviceObject {
            kind: ObjectKind::DescriptorSet { pool: self.descriptor_pool },
            handle: self.descriptor_set,
        };
        let pipeline_layout = DeviceObject {
            kind: ObjectKind::PipelineLayout,
            handle: self.pipeline_layout,
        };
        let pipeline = DeviceObject { kind: ObjectKind::Pipeline, handle: self.pipeline };
        match self.stage {
            BuildStage::AwaitModule => {},
            BuildStage::AwaitSetLayout => {
                release.push(module);
            },
            BuildStage::AwaitDescriptorSet => {
                release.push(layout);
                release.push(module);
            },
            BuildStage::AwaitPipelineLayout => {
                release.push(set);
                release.push(layout);
                release.push(module);
            },
            BuildStage::AwaitPipeline => {
                release.push(pipeline_layout);
                release.push(set);
                release.push(layout);
                release.push(module);
            },
            BuildStage::Linking | BuildStage::AwaitUpdate => {
                release.push(pipeline);
                release.push(pipeline_layout);
                release.push(set);
                release.push(layout);
                release.push(module);
            },
        }
        assert(release@ =~= before + self@.fixed_objects());
    }

    /// Everything the build has on the device, given what the linked memory under
    /// creation has.
    fn release_all(&self, partial: Vec<DeviceObject>) -> (release: Vec<DeviceObject>)
        requires
            partial@ == self@.partial_objects(),
        ensures
            release@ == self@.owned(),
    {
        let mut release: Vec<DeviceObject> = Vec::new();
        push_linked(&mut release, &self.linked);
        assert(release@ =~= linked_objects(self.linked@));
        let mut partial = partial;
        release.append(&mut partial);
        self.push_fixed(&mut release);
        release
    }

    /// Computes `link_next`.
    fn link_next(self) -> (progress: BuildProgress)
        requires
            self.stage == BuildStage::AwaitPipeline || self.stage == BuildStage::Linking,
            self@.plan_wf(),
            self.linked.len() <= self.plan.len(),
            forall|k: int|
                0 <= k < self.linked.len() ==> (#[trigger] self.linked[k]).binding
                    == self.plan[k].binding,
        ensures
            progress@ == self@.link_next(),
            (progress matches BuildProgress::Pending(next, _) && next@.wf()),
    {
        if self.linked.len() < self.plan.len() {
            let descriptor = self.plan[self.linked.len()];
            let (linking, command) = descriptor.create_linked_memory();
            let next = ContextBuilder {
                state: BuildState { stage: BuildStage::Linking, linking, ..self },
            };
            BuildProgress::Pending(next, command)
        } else {
            let writes = make_buffer_writes(&self.descriptors, self.write_count, &self.linked);
            let command = DeviceCommand::UpdateDescriptorSet { set: self.descriptor_set, writes };
            let next = ContextBuilder {
                state: BuildState { stage: BuildStage::AwaitUpdate, ..self },
            };
            BuildProgress::Pending(next, command)
        }
    }
}

impl ContextBuilder {
    #[verifier::type_invariant]
    spec fn well_formed(self) -> bool {
        self.state@.wf()
    }

    /// Opens the build of a kernel with these descriptors, `writables` writable and
    /// `readables` readable payloads, and a push-constant block of `push_constant_words`
    /// words if it has one. Nothing is asked of the device before the descriptors are
    /// found to line up. The first command creates the shader module from `code`.
    pub fn open(
        descriptors: Vec<LayoutDescription>,
        writables: usize,
        readables: usize,
        push_constant_words: Option<usize>,
        ctx: &VkCtx,
        code: Vec<u32>,
    ) -> (opened: Result<(ContextBuilder, DeviceCommand), KernelError>)
        ensures
            match open_outcome(
                descriptors@,
                writables,
                readables,
                push_constant_words,
                ctx.descriptor_pool,
            ) {
                Ok(first) => opened matches Ok((builder, command)) && builder@ == first
                    && builder@.wf() && command@ == DeviceCommandView::Create(
                    CreateInfoView::ShaderModule { code: code@ },
                ),
                Err(error) => opened matches Err(found) && found == error,
            },
    {
        let order = match validate_layout(&descriptors, writables, readables) {
            Ok(order) => order,
            Err(error) => {
                return Err(error);
            },
        };
        let push_constants = match push_constant_words {
            Some(count) => {
                if count > 0x3fff_ffff {
                    return Err(
                        KernelError::SizeMismatch {
                            target: CopyTarget::PushConstants,
                            declared: u32::MAX as u64,
                        },
                    );
                }
                PushConstantRange {
                    stage_flags: compute_stage(),
                    offset: 0,
                    size: (4 * count) as u32,
                }
            },
            None => PushConstantRange { stage_flags: 0, offset: 0, size: 0 },
        };
        let mut plan = order.write;
        let mut read = order.read;
        plan.append(&mut read);
        let state = BuildState {
            stage: BuildStage::AwaitModule,
            descriptors,
            write_count: writables,
            plan,
            push_constants,
            descriptor_pool: ctx.descriptor_pool,
            shader_module: 0,
            set_layout: 0,
            descriptor_set: 0,
            pipeline_layout: 0,
            pipeline: 0,
            linked: Vec::new(),
            linking: LinkedMemoryBuilder {
                descriptor: LayoutDescription {
                    binding: 0,
                    buffer_size: 0,
                    index: LayoutDescriptorIndex::WriteIndex(0),
                },
                stage: LinkedStage::AwaitBuffer,
                buffer: 0,
                memory: 0,
            },
        };
        Ok((ContextBuilder { state }, ctx.create_shader_module(code)))
    }

    /// Takes the device's answer to the pending command and says how to go on: with the
    /// next command, with the finished context, or with the error and everything to
    /// release.
    pub fn advance(self, ctx: &VkCtx, reply: DeviceReply) -> (progress: BuildProgress)
        ensures
            progress@ == self@.step(ctx.memory_types@, reply),
            progress matches BuildProgress::Pending(next, _) ==> next@.wf(),
    {
        proof {
            use_type_invariant(&self);
        }
        let state = self.state;
        match (state.stage, reply) {
            (BuildStage::AwaitModule, DeviceReply::Handle(handle)) => {
                let bindings = make_layout_bindings(&state.descriptors);
                BuildProgress::Pending(
                    ContextBuilder {
                        state: BuildState {
                            stage: BuildStage::AwaitSetLayout,
                            shader_module: handle,
                            ..state
                        },
                    },
                    DeviceCommand::Create(CreateInfo::DescriptorSetLayout { bindings }),
                )
            },
            (BuildStage::AwaitSetLayout, DeviceReply::Handle(handle)) => {
                let pool = state.descriptor_pool;
                BuildProgress::Pending(
                    ContextBuilder {
                        state: BuildState {
                            stage: BuildStage::AwaitDescriptorSet,
                            set_layout: handle,
                            ..state
                        },
                    },
                    DeviceCommand::Create(CreateInfo::DescriptorSet { pool, layout: handle }),
                )
            },
            (BuildStage::AwaitDescriptorSet, DeviceReply::Handle(handle)) => {
                let mut set_layouts: Vec<u64> = Vec::new();
                set_layouts.push(state.set_layout);
                assert(set_layouts@ =~= seq![state.set_layout]);
                let push_constants = state.push_constants;
                BuildProgress::Pending(
                    ContextBuilder {
                        state: BuildState {
                            stage: BuildStage::AwaitPipelineLayout,
                            descriptor_set: handle,
                            ..state
                        },
                    },
                    DeviceCommand::Create(
                        CreateInfo::PipelineLayout { set_layouts, push_constants },
                    ),
                )
            },
            (BuildStage::AwaitPipelineLayout, DeviceReply::Handle(handle)) => {
                let module = state.shader_module;
                BuildProgress::Pending(
                    ContextBuilder {
                        state: BuildState {
                            stage: BuildStage::AwaitPipeline,
                            pipeline_layout: handle,
                            ..state
                        },
                    },
                    create_compute_pipeline(handle, module),
                )
            },
            (BuildStage::AwaitPipeline, DeviceReply::Handle(handle)) => {
                BuildState { pipeline: handle, ..state }.link_next()
            },
            (BuildStage::Linking, _) => match state.linking.advance(ctx, reply) {
                LinkedProgress::Pending(linking, command) => BuildProgress::Pending(
                    ContextBuilder { state: BuildState { linking, ..state } },
                    command,
                ),
                LinkedProgress::Built(linked) => {
                    let mut state = state;
                    state.linked.push(linked);
                    state.link_next()
                },
                LinkedProgress::Failed { error, release } => BuildProgress::Failed {
                    error,
                    release: state.release_all(release),
                },
            },
            (BuildStage::AwaitUpdate, DeviceReply::Done) => {
                let mut write_buffers = state.linked;
                let read_buffers = write_buffers.split_off(state.write_count);
                let mut descriptor_set_layouts: Vec<u64> = Vec::new();
                descriptor_set_layouts.push(state.set_layout);
                assert(descriptor_set_layouts@ =~= seq![state.set_layout]);
                BuildProgress::Built(
                    ShaderExecutionContext {
                        shader_module: state.shader_module,
                        descriptor_set_layouts,
                        descriptor_set: state.descriptor_set,
                        descriptor_pool: state.descriptor_pool,
                        pipeline_layout: state.pipeline_layout,
                        pipeline: state.pipeline,
                        push_constant_size: state.push_constants.size,
                        write_buffers,
                        read_buffers,
                    },
                )
            },
            _ => {
                let error = refuse(state.current_phase(), reply);
                BuildProgress::Failed { error, release: state.release_all(Vec::new()) }
            },
        }
    }
}

impl BuildState {
    /// Computes `phase`.
    fn current_phase(&self) -> (phase: Phase)
        ensures
            phase == self@.phase(),
    {
        match self.stage {
            BuildStage::AwaitModule => Phase::ShaderModule,
            BuildStage::AwaitSetLayout => Phase::DescriptorSetLayout,
            BuildStage::AwaitDescriptorSet => Phase::DescriptorSet,
            BuildStage::AwaitPipelineLayout => Phase::PipelineLayout,
            BuildStage::AwaitPipeline => Phase::Pipeline,
            BuildStage::Linking => {
                let binding = self.linking.descriptor.binding;
                match self.linking.stage {
                    LinkedStage::AwaitBuffer => Phase::Buffer { binding },
                    LinkedStage::AwaitRequirements => Phase::MemoryRequirements { binding },
                    LinkedStage::AwaitMemory => Phase::Memory { binding },
                    LinkedStage::AwaitBinding => Phase::BindMemory { binding },
                }
            },
            BuildStage::AwaitUpdate => Phase::DescriptorUpdate,
        }
    }
}

/// Every binding gets its own buffer: in a build whose linked memories are complete, the
/// buffer that the descriptor set receives for a descriptor is the buffer of the linked
/// memory that was created for that descriptor's binding, bound from offset 0 over exactly
/// the descriptor's declared size.
pub proof fn lemma_binding_gets_own_buffer(builder: ContextBuilderView, at: int)
    requires
        builder.wf(),
        builder.stage == BuildStage::AwaitUpdate,
        0 <= at < builder.descriptors.len(),
    ensures
        ({
            let descriptor = builder.descriptors[at];
            let position = plan_position(descriptor, builder.write_count);
            let write = buffer_writes(builder.descriptors, builder.write_count, builder.linked)[at];
            &&& 0 <= position < builder.linked.len()
            &&& builder.plan[position] == descriptor
            &&& builder.linked[position].binding == descriptor.binding
            &&& write.binding == descriptor.binding
            &&& write.buffer == builder.linked[position].buffer
            &&& write.offset == 0
            &&& write.range == descriptor.buffer_size
        }),
{
    let descriptor = builder.descriptors[at];
    let writes = write_subset(builder.descriptors, builder.write_count as nat);
    let reads = read_subset(builder.descriptors, builder.read_count());
    crate::layout::lemma_slot_position(builder.descriptors, descriptor.index, at);
    match descriptor.index {
        LayoutDescriptorIndex::WriteIndex(slot) => {
            assert(builder.plan[slot as int] == writes[slot as int]);
        },
        LayoutDescriptorIndex::ReadIndex(slot) => {
            assert(builder.plan[builder.write_count + slot] == reads[slot as int]);
        },
    }
}

} // verus!
