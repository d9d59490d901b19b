use vstd::prelude::*;

verus! {

/// The point of a build, a transfer or a dispatch at which the device was asked for something.
#[derive(Clone, Copy, Debug, PartialEq, Eq, Structural)]
pub enum Phase {
    InstanceLayers,
    Instance,
    PhysicalDevice,
    Device,
    Queue,
    CommandPool,
    CommandBuffer,
    DescriptorPool,
    MemoryTypes,
    ShaderModule,
    DescriptorSetLayout,
    DescriptorSet,
    PipelineLayout,
    Pipeline,
    /// Creating the buffer of the descriptor with this binding.
    Buffer { binding: u32 },
    /// Asking what memory the buffer of this binding needs.
    MemoryRequirements { binding: u32 },
    /// Allocating the memory behind the buffer of this binding.
    Memory { binding: u32 },
    /// Binding the buffer of this binding to its memory.
    BindMemory { binding: u32 },
    DescriptorUpdate,
    /// Mapping the memory behind the buffer of this binding for a copy.
    MapMemory { binding: u32 },
    Fence,
    BeginRecording,
    Recording,
    EndRecording,
    Submit,
    Wait,
}

/// What a copy was headed for when its size turned out wrong.
#[derive(Clone, Copy, Debug, PartialEq, Eq, Structural)]
pub enum CopyTarget {
    /// The buffer behind the descriptor with this binding.
    Binding(u32),
    /// The push-constant range of the pipeline layout.
    PushConstants,
    /// A host payload, taken by itself.
    Payload,
}

/// Everything that can go wrong between a kernel and the device.
#[derive(Clone, Copy, Debug, PartialEq, Eq, Structural)]
pub enum KernelError {
    /// The device refused to create or bind an object; `code` is the raw result it gave.
    ResourceCreationFailure { phase: Phase, code: i32 },
    /// No memory type is both host-visible and host-coherent for the buffer of this binding.
    NoSuitableMemoryType { binding: u32 },
    /// The descriptors and the payload lists of a kernel do not line up.
    BindingMismatch,
    /// A copy would move another number of bytes than the `declared` ones that its target
    /// was made for.
    SizeMismatch { target: CopyTarget, declared: u64 },
    /// The kernel source was rejected by the compiler.
    CompilationFailure,
    /// Recording or submitting the dispatch was refused; `code` is the raw result.
    SubmissionFailure { phase: Phase, code: i32 },
    /// The fence did not signal within the bound the context sets.
    DeviceTimeout,
    /// The operands of a matrix product do not fit each other.
    ShapeMismatch { left_columns: usize, right_rows: usize },
    /// The validation layer that the context asks for is not installed.
    LayerNotAvailable,
    /// The instance knows of no physical device.
    NoPhysicalDevice,
    /// The driver answered a command with a reply of the wrong kind.
    UnexpectedReply { phase: Phase },
}

} // verus!
