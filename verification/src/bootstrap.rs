use crate::command::{DeviceObject, ObjectKind};
use crate::context::{VkCtx, VkCtxView};
use crate::error::{KernelError, Phase};
use crate::vulkan::{
    api_version_1_1, free_descriptor_set, primary_level, storage_buffer_descriptor,
};
use vstd::prelude::*;

verus! {

/// The validation layer that every context is created with.
pub const VALIDATION_LAYER: &'static str = "VK_LAYER_KHRONOS_validation";

/// The name the application gives itself to the instance.
pub const APPLICATION_NAME: &'static str = "matrix-multiplication";

/// The name of the engine the application gives to the instance.
pub const ENGINE_NAME: &'static str = "No Engine";

/// One request of the bootstrap. The driver performs it and hands back one `BootReply`:
/// `Names` for the layers, `Handles` for the physical devices, `MemoryTypes` for the
/// memory types, `Handle` for the others; `Failed` for any that the device refuses.
#[derive(Debug, PartialEq, Eq)]
pub enum BootCommand {
    EnumerateInstanceLayers,
    CreateInstance {
        application_name: String,
        engine_name: String,
        api_version: u32,
        layers: Vec<String>,
    },
    EnumeratePhysicalDevices { instance: u64 },
    /// A logical device with `queue_count` queues of one family, at full priority.
    CreateDevice { physical_device: u64, queue_family_index: u32, queue_count: u32 },
    GetDeviceQueue { device: u64, queue_family_index: u32, queue_index: u32 },
    CreateCommandPool { device: u64, queue_family_index: u32 },
    AllocateCommandBuffer { device: u64, pool: u64, level: i32 },
    /// A descriptor pool for `max_sets` sets with `descriptor_count` descriptors of
    /// `descriptor_type`.
    CreateDescriptorPool {
        device: u64,
        max_sets: u32,
        descriptor_type: i32,
        descriptor_count: u32,
        flags: u32,
    },
    GetMemoryTypes { physical_device: u64 },
}

/// The mathematical content of a `BootCommand`.
pub enum BootCommandView {
    EnumerateInstanceLayers,
    CreateInstance {
        application_name: Seq<char>,
        engine_name: Seq<char>,
        api_version: u32,
        layers: Seq<Seq<char>>,
    },
    EnumeratePhysicalDevices { instance: u64 },
    CreateDevice { physical_device: u64, queue_family_index: u32, queue_count: u32 },
    GetDeviceQueue { device: u64, queue_family_index: u32, queue_index: u32 },
    CreateCommandPool { device: u64, queue_family_index: u32 },
    AllocateCommandBuffer { device: u64, pool: u64, level: i32 },
    CreateDescriptorPool {
        device: u64,
        max_sets: u32,
        descriptor_type: i32,
        descriptor_count: u32,
        flags: u32,
    },
    GetMemoryTypes { physical_device: u64 },
}

/// The character sequences behind a list of names.
pub open spec fn names_view(names: Seq<String>) -> Seq<Seq<char>> {
    Seq::new(names.len(), |i: int| names[i]@)
}

impl View for BootCommand {
    type V = BootCommandView;

    open spec fn view(&self) -> BootCommandView {
        match *self {
            BootCommand::EnumerateInstanceLayers => BootCommandView::EnumerateInstanceLayers,
            BootCommand::CreateInstance { application_name, engine_name, api_version, layers } => {
                BootCommandView::CreateInstance {
                    application_name: application_name@,
                    engine_name: engine_name@,
                    api_version,
                    layers: names_view(layers@),
                }
            },
            BootCommand::EnumeratePhysicalDevices { instance } => {
                BootCommandView::EnumeratePhysicalDevices { instance }
            },
            BootCommand::CreateDevice { physical_device, queue_family_index, queue_count } => {
                BootCommandView::CreateDevice { physical_device, queue_family_index, queue_count }
            },
            BootCommand::GetDeviceQueue { device, queue_family_index, queue_index } => {
                BootCommandView::GetDeviceQueue { device, queue_family_index, queue_index }
            },
            BootCommand::CreateCommandPool { device, queue_family_index } => {
                BootCommandView::CreateCommandPool { device, queue_family_index }
            },
            BootCommand::AllocateCommandBuffer { device, pool, level } => {
                BootCommandView::AllocateCommandBuffer { device, pool, level }
            },
            BootCommand::CreateDescriptorPool {
                device,
                max_sets,
                descriptor_type,
                descriptor_count,
                flags,
            } => BootCommandView::CreateDescriptorPool {
                device,
                max_sets,
                descriptor_type,
                descriptor_count,
                flags,
            },
            BootCommand::GetMemoryTypes { physical_device } => BootCommandView::GetMemoryTypes {
                physical_device,
            },
        }
    }
}

/// What the device answered to one command of the bootstrap.
#[derive(Debug, PartialEq, Eq)]
pub enum BootReply {
    /// The names of the instance layers that are installed.
    Names(Vec<String>),
    /// The physical devices the instance knows of.
    Handles(Vec<u64>),
    /// The object that was created or fetched.
    Handle(u64),
    /// The property flags of each memory type of the physical device, by type index.
    MemoryTypes(Vec<u32>),
    /// The device refused; this is the raw result code.
    Failed(i32),
}

/// The mathematical content of a `BootReply`.
pub enum BootReplyView {
    Names(Seq<Seq<char>>),
    Handles(Seq<u64>),
    Handle(u64),
    MemoryTypes(Seq<u32>),
    Failed(i32),
}

impl View for BootReply {
    type V = BootReplyView;

    open spec fn view(&self) -> BootReplyView {
        match *self {
            BootReply::Names(names) => BootReplyView::Names(names_view(names@)),
            BootReply::Handles(handles) => BootReplyView::Handles(handles@),
            BootReply::Handle(handle) => BootReplyView::Handle(handle),
            BootReply::MemoryTypes(types) => BootReplyView::MemoryTypes(types@),
            BootReply::Failed(code) => BootReplyView::Failed(code),
        }
    }
}

/// How far the bootstrap has come: which answer it waits for.
#[derive(Clone, Copy, Debug, PartialEq, Eq, Structural)]
pub enum BootStage {
    AwaitLayers,
    AwaitInstance,
    AwaitPhysicalDevices,
    AwaitDevice,
    AwaitQueue,
    AwaitCommandPool,
    AwaitCommandBuffer,
    AwaitDescriptorPool,
    AwaitMemoryTypes,
}

/// The creation of a device context, between two answers of the device. Each handle
/// counts from the stage on at which it was given.
#[derive(Clone, Copy, Debug, PartialEq, Eq, Structural)]
pub struct Bootstrap {
    pub stage: BootStage,
    pub instance: u64,
    pub physical_device: u64,
    pub device: u64,
    pub queue: u64,
    pub command_pool: u64,
    pub command_buffer: u64,
    pub descriptor_pool: u64,
    pub fence_timeout: u64,
}

/// Where one answer of the device takes the bootstrap.
#[derive(Debug)]
pub enum BootProgress {
    /// The driver performs the command and comes back with the device's answer.
    Pending(Bootstrap, BootCommand),
    /// The context is complete.
    Ready(VkCtx),
    /// The bootstrap failed; the driver releases `release` in order, and nothing is left.
    Failed { error: KernelError, release: Vec<DeviceObject> },
}

/// The mathematical content of a `BootProgress`.
pub enum BootProgressView {
    Pending(Bootstrap, BootCommandView),
    Ready(VkCtxView),
    Failed { error: KernelError, release: Seq<DeviceObject> },
}

impl View for BootProgress {
    type V = BootProgressView;

    open spec fn view(&self) -> BootProgressView {
        match *self {
            BootProgress::Pending(bootstrap, command) => BootProgressView::Pending(
                bootstrap,
                command@,
            ),
            BootProgress::Ready(ctx) => BootProgressView::Ready(ctx@),
            BootProgress::Failed { error, release } => BootProgressView::Failed {
                error,
                release: release@,
            },
        }
    }
}

/// What a refusal, or an answer of the wrong kind, amounts to in `phase`.
pub open spec fn boot_refusal(phase: Phase, reply: BootReplyView) -> KernelError {
    match reply {
        BootReplyView::Failed(code) => KernelError::ResourceCreationFailure { phase, code },
        _ => KernelError::UnexpectedReply { phase },
    }
}

impl Bootstrap {
    /// The bootstrap before the device was asked for anything.
    pub open spec fn start(fence_timeout: u64) -> Bootstrap {
        Bootstrap {
            stage: BootStage::AwaitLayers,
            instance: 0,
            physical_device: 0,
            device: 0,
            queue: 0,
            command_pool: 0,
            command_buffer: 0,
            descriptor_pool: 0,
            fence_timeout,
        }
    }

    /// The objects created so far, in release order: descriptor pool, command buffer,
    /// command pool, device, instance, as far as they exist.
    pub open spec fn owned(&self) -> Seq<DeviceObject> {
        let instance = DeviceObject { kind: ObjectKind::Instance, handle: self.instance };
        let device = DeviceObject { kind: ObjectKind::Device, handle: self.device };
        let pool = DeviceObject { kind: ObjectKind::CommandPool, handle: self.command_pool };
        let buffer = DeviceObject {
            kind: ObjectKind::CommandBuffer { pool: self.command_pool },
            handle: self.command_buffer,
        };
        let descriptors = DeviceObject {
            kind: ObjectKind::DescriptorPool,
            handle: self.descriptor_pool,
        };
        match self.stage {
            BootStage::AwaitLayers | BootStage::AwaitInstance => seq![],
            BootStage::AwaitPhysicalDevices | BootStage::AwaitDevice => seq![instance],
            BootStage::AwaitQueue | BootStage::AwaitCommandPool => seq![device, instance],
            BootStage::AwaitCommandBuffer => seq![pool, device, instance],
            BootStage::AwaitDescriptorPool => seq![buffer, pool, device, instance],
            BootStage::AwaitMemoryTypes => seq![descriptors, buffer, pool, device, instance],
        }
    }

    /// The phase that the pending command belongs to.
    pub open spec fn phase(&self) -> Phase {
        match self.stage {
            BootStage::AwaitLayers => Phase::InstanceLayers,
            BootStage::AwaitInstance => Phase::Instance,
            BootStage::AwaitPhysicalDevices => Phase::PhysicalDevice,
            BootStage::AwaitDevice => Phase::Device,
            BootStage::AwaitQueue => Phase::Queue,
            BootStage::AwaitCommandPool => Phase::CommandPool,
            BootStage::AwaitCommandBuffer => Phase::CommandBuffer,
            BootStage::AwaitDescriptorPool => Phase::DescriptorPool,
            BootStage::AwaitMemoryTypes => Phase::MemoryTypes,
        }
    }

    /// The context that a complete bootstrap hands over.
    pub open spec fn context(&self, memory_types: Seq<u32>) -> VkCtxView {
        VkCtxView {
            command_buffer: self.command_buffer,
            command_pool: self.command_pool,
            device: self.device,
            physical_device: self.physical_device,
            instance: self.instance,
            queue: self.queue,
            descriptor_pool: self.descriptor_pool,
            memory_types,
            fence_timeout: self.fence_timeout,
        }
    }

    /// The state and the command after the device answered `reply` to the pending
    /// command. The order is fixed: the validation layer must be installed; then the
    /// instance, the first physical device, a logical device with one queue of family 0,
    /// that queue, a command pool, one primary command buffer, a descriptor pool for one
    /// set of three storage buffers whose sets can be freed, and the memory types.
    pub open spec fn step(&self, reply: BootReplyView) -> BootProgressView {
        let failed = BootProgressView::Failed {
            error: boot_refusal(self.phase(), reply),
            release: self.owned(),
        };
        match (self.stage, reply) {
            (BootStage::AwaitLayers, BootReplyView::Names(available)) => {
                if available.contains(VALIDATION_LAYER@) {
                    BootProgressView::Pending(
                        Bootstrap { stage: BootStage::AwaitInstance, ..*self },
                        BootCommandView::CreateInstance {
                            application_name: APPLICATION_NAME@,
                            engine_name: ENGINE_NAME@,
                            api_version: 0x40_1000,
                            layers: seq![VALIDATION_LAYER@],
                        },
                    )
                } else {
                    BootProgressView::Failed {
                        error: KernelError::LayerNotAvailable,
                        release: self.owned(),
                    }
                }
            },
            (BootStage::AwaitInstance, BootReplyView::Handle(instance)) => {
                BootProgressView::Pending(
                    Bootstrap { stage: BootStage::AwaitPhysicalDevices, instance, ..*self },
                    BootCommandView::EnumeratePhysicalDevices { instance },
                )
            },
            (BootStage::AwaitPhysicalDevices, BootReplyView::Handles(devices)) => {
                if devices.len() > 0 {
                    BootProgressView::Pending(
                        Bootstrap {
                            stage: BootStage::AwaitDevice,
                            physical_device: devices[0],
                            ..*self
                        },
                        BootCommandView::CreateDevice {
                            physical_device: devices[0],
                            queue_family_index: 0,
                            queue_count: 1,
                        },
                    )
                } else {
                    BootProgressView::Failed {
                        error: KernelError::NoPhysicalDevice,
                        release: self.owned(),
                    }
                }
            },
            (BootStage::AwaitDevice, BootReplyView::Handle(device)) => BootProgressView::Pending(
                Bootstrap { stage: BootStage::AwaitQueue, device, ..*self },
                BootCommandView::GetDeviceQueue { device, queue_family_index: 0, queue_index: 0 },
            ),
            (BootStage::AwaitQueue, BootReplyView::Handle(queue)) => BootProgressView::Pending(
                Bootstrap { stage: BootStage::AwaitCommandPool, queue, ..*self },
                BootCommandView::CreateCommandPool { device: self.device, queue_family_index: 0 },
            ),
            (BootStage::AwaitCommandPool, BootReplyView::Handle(command_pool)) => {
                BootProgressView::Pending(
                    Bootstrap { stage: BootStage::AwaitCommandBuffer, command_pool, ..*self },
                    BootCommandView::AllocateCommandBuffer {
                        device: self.device,
                        pool: command_pool,
                        level: 0,
                    },
                )
            },
            (BootStage::AwaitCommandBuffer, BootReplyView::Handle(command_buffer)) => {
                BootProgressView::Pending(
                    Bootstrap { stage: BootStage::AwaitDescriptorPool, command_buffer, ..*self },
                    BootCommandView::CreateDescriptorPool {
                        device: self.device,
                        max_sets: 1,
                        descriptor_type: 7,
                        descriptor_count: 3,
                        flags: 0x1,
                    },
                )
            },
            (BootStage::AwaitDescriptorPool, BootReplyView::Handle(descriptor_pool)) => {
                BootProgressView::Pending(
                    Bootstrap { stage: BootStage::AwaitMemoryTypes, descriptor_pool, ..*self },
                    BootCommandView::GetMemoryTypes { physical_device: self.physical_device },
                )
            },
            (BootStage::AwaitMemoryTypes, BootReplyView::MemoryTypes(memory_types)) => {
                BootProgressView::Ready(self.context(memory_types))
            },
            _ => failed,
        }
    }

    /// Computes `owned`.
    fn release_list(&self) -> (release: Vec<DeviceObject>)
        ensures
            release@ == self.owned(),
    {
        let instance = DeviceObject { kind: ObjectKind::Instance, handle: self.instance };
        let device = DeviceObject { kind: ObjectKind::Device, handle: self.device };
        let pool = DeviceObject { kind: ObjectKind::CommandPool, handle: self.command_pool };
        let buffer = DeviceObject {
            kind: ObjectKind::CommandBuffer { pool: self.command_pool },
            handle: self.command_buffer,
        };
        let descriptors = DeviceObject {
            kind: ObjectKind::DescriptorPool,
            handle: self.descriptor_pool,
        };
        let mut release: Vec<DeviceObject> = Vec::new();
        match self.stage {
            BootStage::AwaitLayers | BootStage::AwaitInstance => {},
            BootStage::AwaitPhysicalDevices | BootStage::AwaitDevice => {
                release.push(instance);
            },
            BootStage::AwaitQueue | BootStage::AwaitCommandPool => {
                release.push(device);
                release.push(instance);
            },
            BootStage::AwaitCommandBuffer => {
                release.push(pool);
                release.push(device);
                release.push(instance);
            },
            BootStage::AwaitDescriptorPool => {
                release.push(buffer);
                release.push(pool);
                release.push(device);
                release.push(instance);
            },
            BootStage::AwaitMemoryTypes => {
                release.push(descriptors);
                release.push(buffer);
                release.push(pool);
                release.push(device);
                release.push(instance);
            },
        }
        assert(release@ =~= self.owned());
        release
    }

    /// Computes `phase`.
    fn current_phase(&self) -> (phase: Phase)
        ensures
            phase == self.phase(),
    {
        match self.stage {
            BootStage::AwaitLayers => Phase::InstanceLayers,
            BootStage::AwaitInstance => Phase::Instance,
            BootStage::AwaitPhysicalDevices => Phase::PhysicalDevice,
            BootStage::AwaitDevice => Phase::Device,
            BootStage::AwaitQueue => Phase::Queue,
            BootStage::AwaitCommandPool => Phase::CommandPool,
            BootStage::AwaitCommandBuffer => Phase::CommandBuffer,
            BootStage::AwaitDescriptorPool => Phase::DescriptorPool,
            BootStage::AwaitMemoryTypes => Phase::MemoryTypes,
        }
    }

    /// The failure that `reply` amounts to at this stage.
    fn refused(&self, reply: &BootReply) -> (progress: BootProgress)
        ensures
            progress@ == (BootProgressView::Failed {
                error: boot_refusal(self.phase(), reply@),
                release: self.owned(),
            }),
    {
        let phase = self.current_phase();
        let error = match reply {
            BootReply::Failed(code) => KernelError::ResourceCreationFailure { phase, code: *code },
            _ => KernelError::UnexpectedReply { phase },
        };
        BootProgress::Failed { error, release: self.release_list() }
    }

    /// Takes the device's answer to the pending command and says how to go on: with the
    /// next command, with the finished context, or with the error and what to release.
    pub fn advance(self, reply: BootReply) -> (progress: BootProgress)
        ensures
            progress@ == self.step(reply@),
    {
        match (self.stage, reply) {
            (BootStage::AwaitLayers, BootReply::Names(available)) => {
                if layer_installed(&available) {
                    let mut layers: Vec<String> = Vec::new();
                    layers.push(VALIDATION_LAYER.to_owned());
                    assert(names_view(layers@) =~= seq![VALIDATION_LAYER@]);
                    BootProgress::Pending(
                        Bootstrap { stage: BootStage::AwaitInstance, ..self },
                        BootCommand::CreateInstance {
                            application_name: APPLICATION_NAME.to_owned(),
                            engine_name: ENGINE_NAME.to_owned(),
                            api_version: api_version_1_1(),
                            layers,
                        },
                    )
                } else {
                    BootProgress::Failed {
                        error: KernelError::LayerNotAvailable,
                        release: self.release_list(),
                    }
                }
            },
            (BootStage::AwaitInstance, BootReply::Handle(instance)) => BootProgress::Pending(
                Bootstrap { stage: BootStage::AwaitPhysicalDevices, instance, ..self },
                BootCommand::EnumeratePhysicalDevices { instance },
            ),
            (BootStage::AwaitPhysicalDevices, BootReply::Handles(devices)) => {
                if devices.len() > 0 {
                    let physical_device = devices[0];
                    BootProgress::Pending(
                        Bootstrap { stage: BootStage::AwaitDevice, physical_device, ..self },
                        BootCommand::CreateDevice {
                            physical_device,
                            queue_family_index: 0,
                            queue_count: 1,
                        },
                    )
                } else {
                    BootProgress::Failed {
                        error: KernelError::NoPhysicalDevice,
                        release: self.release_list(),
                    }
                }
            },
            (BootStage::AwaitDevice, BootReply::Handle(device)) => BootProgress::Pending(
                Bootstrap { stage: BootStage::AwaitQueue, device, ..self },
                BootCommand::GetDeviceQueue { device, queue_family_index: 0, queue_index: 0 },
            ),
            (BootStage::AwaitQueue, BootReply::Handle(queue)) => BootProgress::Pending(
                Bootstrap { stage: BootStage::AwaitCommandPool, queue, ..self },
                BootCommand::CreateCommandPool { device: self.device, queue_family_index: 0 },
            ),
            (BootStage::AwaitCommandPool, BootReply::Handle(command_pool)) => {
                BootProgress::Pending(
                    Bootstrap { stage: BootStage::AwaitCommandBuffer, command_pool, ..self },
                    BootCommand::AllocateCommandBuffer {
                        device: self.device,
                        pool: command_pool,
                        level: primary_level(),
                    },
                )
            },
            (BootStage::AwaitCommandBuffer, BootReply::Handle(command_buffer)) => {
                BootProgress::Pending(
                    Bootstrap { stage: BootStage::AwaitDescriptorPool, command_buffer, ..self },
                    BootCommand::CreateDescriptorPool {
                        device: self.device,
                        max_sets: 1,
                        descriptor_type: storage_buffer_descriptor(),
                        descriptor_count: 3,
                        flags: free_descriptor_set(),
                    },
                )
            },
            (BootStage::AwaitDescriptorPool, BootReply::Handle(descriptor_pool)) => {
                BootProgress::Pending(
                    Bootstrap { stage: BootStage::AwaitMemoryTypes, descriptor_pool, ..self },
                    BootCommand::GetMemoryTypes { physical_device: self.physical_device },
                )
            },
            (BootStage::AwaitMemoryTypes, BootReply::MemoryTypes(memory_types)) => {
                BootProgress::Ready(
                    VkCtx {
                        command_buffer: self.command_buffer,
                        command_pool: self.command_pool,
                        device: self.device,
                        physical_device: self.physical_device,
                        instance: self.instance,
                        queue: self.queue,
                        descriptor_pool: self.descriptor_pool,
                        memory_types,
                        fence_timeout: self.fence_timeout,
                    },
                )
            },
            (_, reply) => self.refused(&reply),
        }
    }
}

/// Whether the validation layer is among the layers that are installed.
pub fn layer_installed(available: &Vec<String>) -> (installed: bool)
    ensures
        installed == names_view(available@).contains(VALIDATION_LAYER@),
{
    let wanted = VALIDATION_LAYER.to_owned();
    let mut i: usize = 0;
    while i < available.len()
        invariant
            i <= available.len(),
            wanted@ == VALIDATION_LAYER@,
            forall|j: int| 0 <= j < i ==> names_view(available@)[j] != VALIDATION_LAYER@,
        decreases available.len() - i,
    {
        if available[i] == wanted {
            assert(names_view(available@)[i as int] == VALIDATION_LAYER@);
            return true;
        }
        i = i + 1;
    }
    false
}

impl VkCtx {
    /// Opens the creation of a device context whose dispatches wait `fence_timeout`
    /// nanoseconds at most. The driver performs the command and hands each answer to the
    /// bootstrap's `advance`.
    pub fn create_compute_ctx(fence_timeout: u64) -> (opened: (Bootstrap, BootCommand))
        ensures
            opened.0 == Bootstrap::start(fence_timeout),
            opened.1@ == BootCommandView::EnumerateInstanceLayers,
    {
        (
            Bootstrap {
                stage: BootStage::AwaitLayers,
                instance: 0,
                physical_device: 0,
                device: 0,
                queue: 0,
                command_pool: 0,
                command_buffer: 0,
                descriptor_pool: 0,
                fence_timeout,
            },
            BootCommand::EnumerateInstanceLayers,
        )
    }
}

} // verus!
