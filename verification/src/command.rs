use vstd::multiset::Multiset;
use vstd::prelude::*;

verus! {

/// The kinds of device object the harness creates and releases. An object that is taken
/// from a pool carries the pool's handle, since it is given back to that pool.
#[derive(Clone, Copy, Debug, PartialEq, Eq, Structural)]
pub enum ObjectKind {
    ShaderModule,
    DescriptorSetLayout,
    DescriptorSet { pool: u64 },
    PipelineLayout,
    Pipeline,
    Buffer,
    Memory,
    Fence,
    DescriptorPool,
    CommandBuffer { pool: u64 },
    CommandPool,
    Device,
    Instance,
}

/// One object on the device, by kind and raw handle.
#[derive(Clone, Copy, Debug, PartialEq, Eq, Structural)]
pub struct DeviceObject {
    pub kind: ObjectKind,
    pub handle: u64,
}

/// One entry of a descriptor set layout.
#[derive(Clone, Copy, Debug, PartialEq, Eq, Structural)]
pub struct LayoutBinding {
    pub binding: u32,
    pub descriptor_type: i32,
    pub descriptor_count: u32,
    pub stage_flags: u32,
}

/// The push-constant range of a pipeline layout.
#[derive(Clone, Copy, Debug, PartialEq, Eq, Structural)]
pub struct PushConstantRange {
    pub stage_flags: u32,
    pub offset: u32,
    pub size: u32,
}

/// One buffer made visible at one binding of a descriptor set.
#[derive(Clone, Copy, Debug, PartialEq, Eq, Structural)]
pub struct BufferWrite {
    pub binding: u32,
    pub descriptor_type: i32,
    pub buffer: u64,
    pub offset: u64,
    pub range: u64,
}

/// What to create. The device answers each with `DeviceReply::Handle` or `DeviceReply::Failed`.
#[derive(Debug, PartialEq, Eq)]
pub enum CreateInfo {
    ShaderModule { code: Vec<u32> },
    DescriptorSetLayout { bindings: Vec<LayoutBinding> },
    DescriptorSet { pool: u64, layout: u64 },
    PipelineLayout { set_layouts: Vec<u64>, push_constants: PushConstantRange },
    /// A compute pipeline whose one stage, of kind `stage`, runs `entry_point` of `module`.
    ComputePipeline { module: u64, layout: u64, stage: u32, entry_point: String },
    Buffer { size: u64, usage: u32 },
    Memory { size: u64, memory_type_index: u32 },
    Fence,
}

/// The mathematical content of a `CreateInfo`.
pub enum CreateInfoView {
    ShaderModule { code: Seq<u32> },
    DescriptorSetLayout { bindings: Seq<LayoutBinding> },
    DescriptorSet { pool: u64, layout: u64 },
    PipelineLayout { set_layouts: Seq<u64>, push_constants: PushConstantRange },
    ComputePipeline { module: u64, layout: u64, stage: u32, entry_point: Seq<char> },
    Buffer { size: u64, usage: u32 },
    Memory { size: u64, memory_type_index: u32 },
    Fence,
}

impl View for CreateInfo {
    type V = CreateInfoView;

    open spec fn view(&self) -> CreateInfoView {
        match *self {
            CreateInfo::ShaderModule { code } => CreateInfoView::ShaderModule { code: code@ },
            CreateInfo::DescriptorSetLayout { bindings } => CreateInfoView::DescriptorSetLayout {
                bindings: bindings@,
            },
            CreateInfo::DescriptorSet { pool, layout } => CreateInfoView::DescriptorSet {
                pool,
                layout,
            },
            CreateInfo::PipelineLayout { set_layouts, push_constants } => {
                CreateInfoView::PipelineLayout { set_layouts: set_layouts@, push_constants }
            },
            CreateInfo::ComputePipeline { module, layout, stage, entry_point } => {
                CreateInfoView::ComputePipeline { module, layout, stage, entry_point: entry_point@ }
            },
            CreateInfo::Buffer { size, usage } => CreateInfoView::Buffer { size, usage },
            CreateInfo::Memory { size, memory_type_index } => CreateInfoView::Memory {
                size,
                memory_type_index,
            },
            CreateInfo::Fence => CreateInfoView::Fence,
        }
    }
}

impl CreateInfoView {
    /// The kind of object that a successful creation hands out.
    pub open spec fn kind(self) -> ObjectKind {
        match self {
            CreateInfoView::ShaderModule { .. } => ObjectKind::ShaderModule,
            CreateInfoView::DescriptorSetLayout { .. } => ObjectKind::DescriptorSetLayout,
            CreateInfoView::DescriptorSet { pool, .. } => ObjectKind::DescriptorSet { pool },
            CreateInfoView::PipelineLayout { .. } => ObjectKind::PipelineLayout,
            CreateInfoView::ComputePipeline { .. } => ObjectKind::Pipeline,
            CreateInfoView::Buffer { .. } => ObjectKind::Buffer,
            CreateInfoView::Memory { .. } => ObjectKind::Memory,
            CreateInfoView::Fence => ObjectKind::Fence,
        }
    }
}

/// One request to the device. The driver performs it and hands back one `DeviceReply`:
/// `Handle` or `Failed` for `Create`, `MemoryRequirements` for
/// `GetBufferMemoryRequirements`, and `Done` or `Failed` for the others.
#[allow(inconsistent_fields)]
#[derive(Debug, PartialEq, Eq)]
pub enum DeviceCommand {
    Create(CreateInfo),
    GetBufferMemoryRequirements { buffer: u64 },
    BindBufferMemory { buffer: u64, memory: u64, offset: u64 },
    UpdateDescriptorSet { set: u64, writes: Vec<BufferWrite> },
    BeginCommandBuffer { command_buffer: u64 },
    BindPipeline { command_buffer: u64, bind_point: i32, pipeline: u64 },
    BindDescriptorSet { command_buffer: u64, bind_point: i32, layout: u64, first_set: u32, set: u64 },
    PushConstants { command_buffer: u64, layout: u64, stage_flags: u32, offset: u32, words: Vec<u32> },
    Dispatch { command_buffer: u64, x: u32, y: u32, z: u32 },
    EndCommandBuffer { command_buffer: u64 },
    QueueSubmit { queue: u64, command_buffer: u64, fence: u64 },
    WaitForFence { fence: u64, timeout: u64 },
}

/// The mathematical content of a `DeviceCommand`.
#[allow(inconsistent_fields)]
pub enum DeviceCommandView {
    Create(CreateInfoView),
    GetBufferMemoryRequirements { buffer: u64 },
    BindBufferMemory { buffer: u64, memory: u64, offset: u64 },
    UpdateDescriptorSet { set: u64, writes: Seq<BufferWrite> },
    BeginCommandBuffer { command_buffer: u64 },
    BindPipeline { command_buffer: u64, bind_point: i32, pipeline: u64 },
    BindDescriptorSet { command_buffer: u64, bind_point: i32, layout: u64, first_set: u32, set: u64 },
    PushConstants { command_buffer: u64, layout: u64, stage_flags: u32, offset: u32, words: Seq<u32> },
    Dispatch { command_buffer: u64, x: u32, y: u32, z: u32 },
    EndCommandBuffer { command_buffer: u64 },
    QueueSubmit { queue: u64, command_buffer: u64, fence: u64 },
    WaitForFence { fence: u64, timeout: u64 },
}

impl View for DeviceCommand {
    type V = DeviceCommandView;

    open spec fn view(&self) -> DeviceCommandView {
        match *self {
            DeviceCommand::Create(info) => DeviceCommandView::Create(info@),
            DeviceCommand::GetBufferMemoryRequirements { buffer } => {
                DeviceCommandView::GetBufferMemoryRequirements { buffer }
            },
            DeviceCommand::BindBufferMemory { buffer, memory, offset } => {
                DeviceCommandView::BindBufferMemory { buffer, memory, offset }
            },
            DeviceCommand::UpdateDescriptorSet { set, writes } => {
                DeviceCommandView::UpdateDescriptorSet { set, writes: writes@ }
            },
            DeviceCommand::BeginCommandBuffer { command_buffer } => {
                DeviceCommandView::BeginCommandBuffer { command_buffer }
            },
            DeviceCommand::BindPipeline { command_buffer, bind_point, pipeline } => {
                DeviceCommandView::BindPipeline { command_buffer, bind_point, pipeline }
            },
            DeviceCommand::BindDescriptorSet { command_buffer, bind_point, layout, first_set, set } => {
                DeviceCommandView::BindDescriptorSet {
                    command_buffer,
                    bind_point,
                    layout,
                    first_set,
                    set,
                }
            },
            DeviceCommand::PushConstants { command_buffer, layout, stage_flags, offset, words } => {
                DeviceCommandView::PushConstants {
                    command_buffer,
                    layout,
                    stage_flags,
                    offset,
                    words: words@,
                }
            },
            DeviceCommand::Dispatch { command_buffer, x, y, z } => DeviceCommandView::Dispatch {
                command_buffer,
                x,
                y,
                z,
            },
            DeviceCommand::EndCommandBuffer { command_buffer } => {
                DeviceCommandView::EndCommandBuffer { command_buffer }
            },
            DeviceCommand::QueueSubmit { queue, command_buffer, fence } => {
                DeviceCommandView::QueueSubmit { queue, command_buffer, fence }
            },
            DeviceCommand::WaitForFence { fence, timeout } => DeviceCommandView::WaitForFence {
                fence,
                timeout,
            },
        }
    }
}

/// What the device answered to one command.
#[derive(Clone, Copy, Debug, PartialEq, Eq, Structural)]
pub enum DeviceReply {
    /// The command was carried out and has nothing to report.
    Done,
    /// The object was created; this is its raw handle.
    Handle(u64),
    /// What a buffer needs of the memory behind it.
    MemoryRequirements { size: u64, memory_type_bits: u32 },
    /// The device refused; this is the raw result code.
    Failed(i32),
}

/// The device's books after it answered `command` with `reply`: a creation that handed
/// out a handle adds that object, and nothing else changes them.
pub open spec fn ledger_after(
    ledger: Multiset<DeviceObject>,
    command: DeviceCommandView,
    reply: DeviceReply,
) -> Multiset<DeviceObject> {
    match (command, reply) {
        (DeviceCommandView::Create(info), DeviceReply::Handle(handle)) => ledger.insert(
            DeviceObject { kind: info.kind(), handle },
        ),
        _ => ledger,
    }
}

/// The device's books after the driver released `objects`, one by one.
pub open spec fn ledger_released(
    ledger: Multiset<DeviceObject>,
    objects: Seq<DeviceObject>,
) -> Multiset<DeviceObject>
    decreases objects.len(),
{
    if objects.len() == 0 {
        ledger
    } else {
        ledger_released(ledger.remove(objects[0]), objects.drop_first())
    }
}

} // verus!
