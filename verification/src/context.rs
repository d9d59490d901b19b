use crate::command::{CreateInfo, CreateInfoView, DeviceCommand, DeviceCommandView, DeviceObject, ObjectKind};
use vstd::prelude::*;

verus! {

/// The device context that every kernel shares: the raw handles of the objects the driver
/// set up, what the physical device says of its memory types, and how long a dispatch may
/// take.
#[derive(Debug)]
pub struct VkCtx {
    pub command_buffer: u64,
    pub command_pool: u64,
    pub device: u64,
    pub physical_device: u64,
    pub instance: u64,
    pub queue: u64,
    pub descriptor_pool: u64,
    /// The property flags of each memory type of the physical device, by type index.
    pub memory_types: Vec<u32>,
    /// Nanoseconds to wait for a dispatch to finish; `u64::MAX` waits without bound.
    pub fence_timeout: u64,
}

/// The mathematical content of a `VkCtx`.
pub struct VkCtxView {
    pub command_buffer: u64,
    pub command_pool: u64,
    pub device: u64,
    pub physical_device: u64,
    pub instance: u64,
    pub queue: u64,
    pub descriptor_pool: u64,
    pub memory_types: Seq<u32>,
    pub fence_timeout: u64,
}

impl View for VkCtx {
    type V = VkCtxView;

    open spec fn view(&self) -> VkCtxView {
        VkCtxView {
            command_buffer: self.command_buffer,
            command_pool: self.command_pool,
            device: self.device,
            physical_device: self.physical_device,
            instance: self.instance,
            queue: self.queue,
            descriptor_pool: self.descriptor_pool,
            memory_types: self.memory_types@,
            fence_timeout: self.fence_timeout,
        }
    }
}

impl VkCtxView {
    /// The objects of the context, in the order in which the driver releases them.
    pub open spec fn objects(self) -> Seq<DeviceObject> {
        seq![
            DeviceObject { kind: ObjectKind::DescriptorPool, handle: self.descriptor_pool },
            DeviceObject {
                kind: ObjectKind::CommandBuffer { pool: self.command_pool },
                handle: self.command_buffer,
            },
            DeviceObject { kind: ObjectKind::CommandPool, handle: self.command_pool },
            DeviceObject { kind: ObjectKind::Device, handle: self.device },
            DeviceObject { kind: ObjectKind::Instance, handle: self.instance },
        ]
    }
}

/// Memory type `index` is allowed by `type_bits` and has every property in `flags`.
pub open spec fn memory_type_fits(types: Seq<u32>, index: int, type_bits: u32, flags: u32) -> bool {
    &&& 0 <= index < types.len()
    &&& index < 32
    &&& type_bits & (1u32 << (index as u32)) != 0
    &&& types[index] & flags == flags
}

/// The lowest memory type from `from` on that fits, if one does.
pub open spec fn first_fit(types: Seq<u32>, type_bits: u32, flags: u32, from: nat) -> Option<u32>
    decreases 32 - from,
{
    if from >= 32 || from >= types.len() {
        None
    } else if memory_type_fits(types, from as int, type_bits, flags) {
        Some(from as u32)
    } else {
        first_fit(types, type_bits, flags, from + 1)
    }
}

/// `first_fit` is the least fitting index, and `None` only where nothing fits.
pub proof fn lemma_first_fit(types: Seq<u32>, type_bits: u32, flags: u32, from: nat)
    ensures
        first_fit(types, type_bits, flags, from) matches Some(index) ==> from <= index
            && memory_type_fits(types, index as int, type_bits, flags) && forall|j: int|
            from <= j < index ==> !memory_type_fits(types, j, type_bits, flags),
        first_fit(types, type_bits, flags, from) is None ==> forall|j: int|
            from <= j ==> !memory_type_fits(types, j, type_bits, flags),
    decreases 32 - from,
{
    if from >= 32 || from >= types.len() {
    } else if memory_type_fits(types, from as int, type_bits, flags) {
    } else {
        lemma_first_fit(types, type_bits, flags, from + 1);
    }
}

impl VkCtx {
    /// What to release to take the context down: the descriptor pool, the command buffer,
    /// its pool, the device and the instance, in that order.
    pub fn destroy(&self) -> (release: Vec<DeviceObject>)
        ensures
            release@ == self@.objects(),
    {
        let mut release: Vec<DeviceObject> = Vec::new();
        release.push(DeviceObject { kind: ObjectKind::DescriptorPool, handle: self.descriptor_pool });
        release.push(
            DeviceObject {
                kind: ObjectKind::CommandBuffer { pool: self.command_pool },
                handle: self.command_buffer,
            },
        );
        release.push(DeviceObject { kind: ObjectKind::CommandPool, handle: self.command_pool });
        release.push(DeviceObject { kind: ObjectKind::Device, handle: self.device });
        release.push(DeviceObject { kind: ObjectKind::Instance, handle: self.instance });
        assert(release@ =~= self@.objects());
        release
    }

    /// The command that turns kernel bytecode into a shader module.
    pub fn create_shader_module(&self, source: Vec<u32>) -> (command: DeviceCommand)
        ensures
            command@ == DeviceCommandView::Create(CreateInfoView::ShaderModule { code: source@ }),
    {
        DeviceCommand::Create(CreateInfo::ShaderModule { code: source })
    }

    /// The lowest memory type that `memory_type_bits` allows and that has every property
    /// in `flags`.
    pub fn find_memory_type(&self, memory_type_bits: u32, flags: u32) -> (found: Option<u32>)
        ensures
            found == first_fit(self.memory_types@, memory_type_bits, flags, 0),
            found matches Some(index) ==> memory_type_fits(
                self.memory_types@,
                index as int,
                memory_type_bits,
                flags,
            ) && forall|j: int|
                0 <= j < index ==> !memory_type_fits(self.memory_types@, j, memory_type_bits, flags),
            found is None ==> forall|j: int|
                !memory_type_fits(self.memory_types@, j, memory_type_bits, flags),
    {
        let mut i: u32 = 0;
        while i < 32 && (i as usize) < self.memory_types.len()
            invariant
                i <= 32,
                first_fit(self.memory_types@, memory_type_bits, flags, i as nat) == first_fit(
                    self.memory_types@,
                    memory_type_bits,
                    flags,
                    0,
                ),
            decreases 32 - i,
        {
            if memory_type_bits & (1u32 << i) != 0 && self.memory_types[i as usize] & flags
                == flags {
                proof {
                    lemma_first_fit(self.memory_types@, memory_type_bits, flags, 0);
                }
                return Some(i);
            }
            i = i + 1;
        }
        proof {
            lemma_first_fit(self.memory_types@, memory_type_bits, flags, 0);
        }
        None
    }
}

} // verus!
