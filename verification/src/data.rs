use crate::command::{
    CreateInfo, CreateInfoView, DeviceCommand, DeviceCommandView, DeviceObject, DeviceReply,
    ObjectKind,
};
use crate::context::{first_fit, VkCtx};
use crate::error::{KernelError, Phase};
use crate::shader::LayoutDescription;
use crate::vulkan::{host_coherent, host_visible};
use vstd::prelude::*;

verus! {

/// A device buffer with the memory bound behind it, tagged with the binding it serves.
#[derive(Clone, Copy, Debug, PartialEq, Eq, Structural)]
pub struct LinkedMemory {
    pub binding: u32,
    pub buffer: u64,
    pub memory: u64,
}

impl LinkedMemory {
    /// The two device objects of the pair, buffer first.
    pub open spec fn objects(&self) -> Seq<DeviceObject> {
        seq![
            DeviceObject { kind: ObjectKind::Buffer, handle: self.buffer },
            DeviceObject { kind: ObjectKind::Memory, handle: self.memory },
        ]
    }

    /// What to release to give the pair back: the buffer, then its memory.
    pub fn destroy(&self) -> (release: Vec<DeviceObject>)
        ensures
            release@ == self.objects(),
    {
        let mut release: Vec<DeviceObject> = Vec::new();
        release.push(DeviceObject { kind: ObjectKind::Buffer, handle: self.buffer });
        release.push(DeviceObject { kind: ObjectKind::Memory, handle: self.memory });
        assert(release@ =~= self.objects());
        release
    }
}

/// A window of the host onto a linked memory, good for one copy of `length` 32-bit words
/// and no more: the driver maps `size` bytes of `memory` from offset 0, hands the device's
/// answer to `mapped`, and where the map succeeded makes the copy and unmaps at once.
#[derive(Debug, PartialEq, Eq)]
pub struct MappedMemoryPointer {
    /// The binding that the linked memory serves.
    pub binding: u32,
    pub memory: u64,
    pub size: u64,
    pub length: usize,
}

/// The window onto `linked` for `length` words, if that many bytes can be named.
pub open spec fn mapped_pointer(linked: LinkedMemory, length: usize) -> Option<
    MappedMemoryPointer,
> {
    if 4 * length <= u64::MAX {
        Some(
            MappedMemoryPointer {
                binding: linked.binding,
                memory: linked.memory,
                size: (4 * length) as u64,
                length,
            },
        )
    } else {
        None
    }
}

impl LinkedMemory {
    /// The window onto this memory through which `length` words are copied.
    pub fn get_mapped_pointer(&self, length: usize) -> (pointer: Option<MappedMemoryPointer>)
        ensures
            pointer == mapped_pointer(*self, length),
    {
        if length as u64 <= 0x3fff_ffff_ffff_ffff {
            Some(
                MappedMemoryPointer {
                    binding: self.binding,
                    memory: self.memory,
                    size: 4 * (length as u64),
                    length,
                },
            )
        } else {
            None
        }
    }
}

impl MappedMemoryPointer {
    /// Closes the window: it is used up, and what comes back is the memory that the
    /// driver unmaps.
    pub fn unmap(self) -> (memory: u64)
        ensures
            memory == self.memory,
    {
        self.memory
    }
}

/// The memory properties every linked memory needs: host-visible and host-coherent, so that
/// the host maps it directly and never flushes.
pub open spec fn host_memory_flags() -> u32 {
    0x6
}

/// How far the creation of one linked memory has come.
#[derive(Clone, Copy, Debug, PartialEq, Eq, Structural)]
pub enum LinkedStage {
    /// The buffer was asked for.
    AwaitBuffer,
    /// The buffer exists; its memory requirements were asked for.
    AwaitRequirements,
    /// The memory was asked for.
    AwaitMemory,
    /// Buffer and memory exist; their binding was asked for.
    AwaitBinding,
}

/// The creation of one linked memory, between two answers of the device.
#[derive(Clone, Copy, Debug, PartialEq, Eq, Structural)]
pub struct LinkedMemoryBuilder {
    pub descriptor: LayoutDescription,
    pub stage: LinkedStage,
    /// The buffer, once it exists.
    pub buffer: u64,
    /// The memory, once it exists.
    pub memory: u64,
}

/// Where one answer of the device takes the creation of a linked memory.
#[derive(Debug, PartialEq, Eq)]
pub enum LinkedProgress {
    /// The driver performs the command and comes back with the device's answer.
    Pending(LinkedMemoryBuilder, DeviceCommand),
    /// The pair is complete.
    Built(LinkedMemory),
    /// The creation failed; the driver releases `release` in order, and nothing is left.
    Failed { error: KernelError, release: Vec<DeviceObject> },
}

/// The mathematical content of a `LinkedProgress`.
pub enum LinkedProgressView {
    Pending(LinkedMemoryBuilder, DeviceCommandView),
    Built(LinkedMemory),
    Failed { error: KernelError, release: Seq<DeviceObject> },
}

impl View for LinkedProgress {
    type V = LinkedProgressView;

    open spec fn view(&self) -> LinkedProgressView {
        match *self {
            LinkedProgress::Pending(builder, command) => LinkedProgressView::Pending(
                builder,
                command@,
            ),
            LinkedProgress::Built(linked) => LinkedProgressView::Built(linked),
            LinkedProgress::Failed { error, release } => LinkedProgressView::Failed {
                error,
                release: release@,
            },
        }
    }
}

/// What a refusal, or an answer of the wrong kind, amounts to in `phase`.
pub open spec fn refusal(phase: Phase, reply: DeviceReply) -> KernelError {
    match reply {
        DeviceReply::Failed(code) => KernelError::ResourceCreationFailure { phase, code },
        _ => KernelError::UnexpectedReply { phase },
    }
}

/// Computes `refusal`.
pub fn refuse(phase: Phase, reply: DeviceReply) -> (error: KernelError)
    ensures
        error == refusal(phase, reply),
{
    match reply {
        DeviceReply::Failed(code) => KernelError::ResourceCreationFailure { phase, code },
        _ => KernelError::UnexpectedReply { phase },
    }
}

impl LinkedMemoryBuilder {
    /// The first state: the buffer of `descriptor` was asked for.
    pub open spec fn start(descriptor: LayoutDescription) -> LinkedMemoryBuilder {
        LinkedMemoryBuilder { descriptor, stage: LinkedStage::AwaitBuffer, buffer: 0, memory: 0 }
    }

    /// The command that opens the creation: a storage buffer of the descriptor's size.
    pub open spec fn first_command(descriptor: LayoutDescription) -> DeviceCommandView {
        DeviceCommandView::Create(
            CreateInfoView::Buffer { size: descriptor.buffer_size, usage: 0x20 },
        )
    }

    /// The objects that exist on the device for this creation, in release order.
    pub open spec fn owned(&self) -> Seq<DeviceObject> {
        match self.stage {
            LinkedStage::AwaitBuffer => seq![],
            LinkedStage::AwaitRequirements | LinkedStage::AwaitMemory => seq![
                DeviceObject { kind: ObjectKind::Buffer, handle: self.buffer },
            ],
            LinkedStage::AwaitBinding => seq![
                DeviceObject { kind: ObjectKind::Buffer, handle: self.buffer },
                DeviceObject { kind: ObjectKind::Memory, handle: self.memory },
            ],
        }
    }

    /// The phase that the pending command belongs to.
    pub open spec fn phase(&self) -> Phase {
        match self.stage {
            LinkedStage::AwaitBuffer => Phase::Buffer { binding: self.descriptor.binding },
            LinkedStage::AwaitRequirements => Phase::MemoryRequirements {
                binding: self.descriptor.binding,
            },
            LinkedStage::AwaitMemory => Phase::Memory { binding: self.descriptor.binding },
            LinkedStage::AwaitBinding => Phase::BindMemory { binding: self.descriptor.binding },
        }
    }

    /// The state and the command after the device answered `reply`, on a device whose
    /// memory types have the property flags `memory_types`.
    pub open spec fn step(&self, memory_types: Seq<u32>, reply: DeviceReply) -> LinkedProgressView {
        let failed = LinkedProgressView::Failed {
            error: refusal(self.phase(), reply),
            release: self.owned(),
        };
        match (self.stage, reply) {
            (LinkedStage::AwaitBuffer, DeviceReply::Handle(buffer)) => LinkedProgressView::Pending(
                LinkedMemoryBuilder { stage: LinkedStage::AwaitRequirements, buffer, ..*self },
                DeviceCommandView::GetBufferMemoryRequirements { buffer },
            ),
            (
                LinkedStage::AwaitRequirements,
                DeviceReply::MemoryRequirements { size, memory_type_bits },
            ) => match first_fit(memory_types, memory_type_bits, host_memory_flags(), 0) {
                Some(memory_type_index) => LinkedProgressView::Pending(
                    LinkedMemoryBuilder { stage: LinkedStage::AwaitMemory, ..*self },
                    DeviceCommandView::Create(CreateInfoView::Memory { size, memory_type_index }),
                ),
                None => LinkedProgressView::Failed {
                    error: KernelError::NoSuitableMemoryType { binding: self.descriptor.binding },
                    release: self.owned(),
                },
            },
            (LinkedStage::AwaitMemory, DeviceReply::Handle(memory)) => LinkedProgressView::Pending(
                LinkedMemoryBuilder { stage: LinkedStage::AwaitBinding, memory, ..*self },
                DeviceCommandView::BindBufferMemory { buffer: self.buffer, memory, offset: 0 },
            ),
            (LinkedStage::AwaitBinding, DeviceReply::Done) => LinkedProgressView::Built(
                LinkedMemory {
                    binding: self.descriptor.binding,
                    buffer: self.buffer,
                    memory: self.memory,
                },
            ),
            _ => failed,
        }
    }

    /// Computes `owned`.
    fn release_list(&self) -> (release: Vec<DeviceObject>)
        ensures
            release@ == self.owned(),
    {
        let mut release: Vec<DeviceObject> = Vec::new();
        match self.stage {
            LinkedStage::AwaitBuffer => {},
            LinkedStage::AwaitRequirements | LinkedStage::AwaitMemory => {
                release.push(DeviceObject { kind: ObjectKind::Buffer, handle: self.buffer });
            },
            LinkedStage::AwaitBinding => {
                release.push(DeviceObject { kind: ObjectKind::Buffer, handle: self.buffer });
                release.push(DeviceObject { kind: ObjectKind::Memory, handle: self.memory });
            },
        }
        assert(release@ =~= self.owned());
        release
    }

    /// Computes `phase`.
    fn current_phase(&self) -> (phase: Phase)
        ensures
            phase == self.phase(),
    {
        let binding = self.descriptor.binding;
        match self.stage {
            LinkedStage::AwaitBuffer => Phase::Buffer { binding },
            LinkedStage::AwaitRequirements => Phase::MemoryRequirements { binding },
            LinkedStage::AwaitMemory => Phase::Memory { binding },
            LinkedStage::AwaitBinding => Phase::BindMemory { binding },
        }
    }

    /// Takes the device's answer to the pending command and says how to go on: with the
    /// next command, with the finished pair, or with the error and what to release.
    pub fn advance(self, ctx: &VkCtx, reply: DeviceReply) -> (progress: LinkedProgress)
        ensures
            progress@ == self.step(ctx.memory_types@, reply),
    {
        match (self.stage, reply) {
            (LinkedStage::AwaitBuffer, DeviceReply::Handle(buffer)) => LinkedProgress::Pending(
                LinkedMemoryBuilder {
                    descriptor: self.descriptor,
                    stage: LinkedStage::AwaitRequirements,
                    buffer,
                    memory: self.memory,
                },
                DeviceCommand::GetBufferMemoryRequirements { buffer },
            ),
            (
                LinkedStage::AwaitRequirements,
                DeviceReply::MemoryRequirements { size, memory_type_bits },
            ) => {
                let flags = host_visible() | host_coherent();
                assert(0x2u32 | 0x4u32 == 0x6u32) by (bit_vector);
                match ctx.find_memory_type(memory_type_bits, flags) {
                    Some(memory_type_index) => LinkedProgress::Pending(
                        LinkedMemoryBuilder {
                            descriptor: self.descriptor,
                            stage: LinkedStage::AwaitMemory,
                            buffer: self.buffer,
                            memory: self.memory,
                        },
                        DeviceCommand::Create(CreateInfo::Memory { size, memory_type_index }),
                    ),
                    None => LinkedProgress::Failed {
                        error: KernelError::NoSuitableMemoryType {
                            binding: self.descriptor.binding,
                        },
                        release: self.release_list(),
                    },
                }
            },
            (LinkedStage::AwaitMemory, DeviceReply::Handle(memory)) => LinkedProgress::Pending(
                LinkedMemoryBuilder {
                    descriptor: self.descriptor,
                    stage: LinkedStage::AwaitBinding,
                    buffer: self.buffer,
                    memory,
                },
                DeviceCommand::BindBufferMemory { buffer: self.buffer, memory, offset: 0 },
            ),
            (LinkedStage::AwaitBinding, DeviceReply::Done) => LinkedProgress::Built(
                LinkedMemory {
                    binding: self.descriptor.binding,
                    buffer: self.buffer,
                    memory: self.memory,
                },
            ),
            _ => LinkedProgress::Failed {
                error: refuse(self.current_phase(), reply),
                release: self.release_list(),
            },
        }
    }
}

/// The capability of a host payload: it gives its words to the device, takes words back
/// from it, and says how many bytes it fills.
///
/// Each spec function names what the method beside it returns.
pub trait GpuMappedMemory {
    /// The words the payload holds, in the order in which they lie in its buffer.
    spec fn words(&self) -> Seq<u32>;

    /// The number of bytes the payload fills in its buffer.
    spec fn byte_size(&self) -> u64;

    /// What `read` answers to `words`, and the words the payload holds after it.
    spec fn taken(&self, words: Seq<u32>) -> (Result<(), KernelError>, Seq<u32>);

    /// The words that go to the device.
    fn write(&self) -> (words: Vec<u32>)
        ensures
            words@ == self.words(),
    ;

    /// Takes in the words that came back from the device.
    fn read(&mut self, words: &Vec<u32>) -> (status: Result<(), KernelError>)
        ensures
            (status, final(self).words()) == old(self).taken(words@),
    ;

    fn buffer_size(&self) -> (bytes: u64)
        ensures
            bytes == self.byte_size(),
    ;
}

} // verus!
