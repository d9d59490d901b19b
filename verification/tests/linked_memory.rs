use vk_compute::command::{CreateInfo, DeviceCommand, DeviceObject, DeviceReply, ObjectKind};
use vk_compute::context::VkCtx;
use vk_compute::data::{LinkedMemory, LinkedMemoryBuilder, LinkedProgress, LinkedStage, MappedMemoryPointer};
use vk_compute::error::{KernelError, Phase};
use vk_compute::shader::{LayoutDescription, LayoutDescriptorIndex};

fn linked_ctx(memory_types: Vec<u32>) -> VkCtx {
    VkCtx {
        command_buffer: 1,
        command_pool: 2,
        device: 3,
        physical_device: 4,
        instance: 5,
        queue: 6,
        descriptor_pool: 7,
        memory_types,
        fence_timeout: u64::MAX,
    }
}

fn descriptor() -> LayoutDescription {
    LayoutDescription { binding: 4, buffer_size: 100, index: LayoutDescriptorIndex::WriteIndex(0) }
}

fn pending(progress: LinkedProgress) -> (LinkedMemoryBuilder, DeviceCommand) {
    match progress {
        LinkedProgress::Pending(builder, command) => (builder, command),
        other => panic!("the creation should go on, but came to {:?}", other),
    }
}

#[test]
fn linked_memory_opens_with_a_storage_buffer_of_the_declared_size() {
    let (builder, command) = descriptor().create_linked_memory();
    assert_eq!(builder.stage, LinkedStage::AwaitBuffer);
    assert_eq!(builder.descriptor, descriptor());
    assert_eq!(command, DeviceCommand::Create(CreateInfo::Buffer { size: 100, usage: 0x20 }));
    assert_eq!(
        command,
        DeviceCommand::Create(CreateInfo::Buffer {
            size: 100,
            usage: ash::vk::BufferUsageFlags::STORAGE_BUFFER.as_raw(),
        })
    );
}

#[test]
fn linked_memory_is_built_in_four_steps() {
    let ctx = linked_ctx(vec![0x1, 0x7]);
    let (builder, _) = descriptor().create_linked_memory();
    let (builder, command) = pending(builder.advance(&ctx, DeviceReply::Handle(50)));
    assert_eq!(command, DeviceCommand::GetBufferMemoryRequirements { buffer: 50 });
    let (builder, command) = pending(
        builder.advance(&ctx, DeviceReply::MemoryRequirements { size: 128, memory_type_bits: 0b11 }),
    );
    assert_eq!(
        command,
        DeviceCommand::Create(CreateInfo::Memory { size: 128, memory_type_index: 1 })
    );
    let (builder, command) = pending(builder.advance(&ctx, DeviceReply::Handle(60)));
    assert_eq!(command, DeviceCommand::BindBufferMemory { buffer: 50, memory: 60, offset: 0 });
    assert_eq!(
        builder.advance(&ctx, DeviceReply::Done),
        LinkedProgress::Built(LinkedMemory { binding: 4, buffer: 50, memory: 60 })
    );
}

#[test]
fn linked_memory_needs_host_visible_and_host_coherent_memory() {
    let required = (ash::vk::MemoryPropertyFlags::HOST_VISIBLE
        | ash::vk::MemoryPropertyFlags::HOST_COHERENT)
        .as_raw();
    // type 0 lacks coherence, type 1 lacks visibility, type 2 has exactly what is needed
    let ctx = linked_ctx(vec![0x2, 0x4, required]);
    let (builder, _) = descriptor().create_linked_memory();
    let (builder, _) = pending(builder.advance(&ctx, DeviceReply::Handle(50)));
    let (_, command) = pending(
        builder.advance(&ctx, DeviceReply::MemoryRequirements { size: 100, memory_type_bits: 0b111 }),
    );
    assert_eq!(
        command,
        DeviceCommand::Create(CreateInfo::Memory { size: 100, memory_type_index: 2 })
    );
}

#[test]
fn linked_memory_without_suitable_memory_type_gives_the_buffer_back() {
    let ctx = linked_ctx(vec![0x1, 0x2]);
    let (builder, _) = descriptor().create_linked_memory();
    let (builder, _) = pending(builder.advance(&ctx, DeviceReply::Handle(50)));
    assert_eq!(
        builder.advance(&ctx, DeviceReply::MemoryRequirements { size: 100, memory_type_bits: 0b11 }),
        LinkedProgress::Failed {
            error: KernelError::NoSuitableMemoryType { binding: 4 },
            release: vec![DeviceObject { kind: ObjectKind::Buffer, handle: 50 }],
        }
    );
}

#[test]
fn refused_buffer_leaves_nothing_to_release() {
    let ctx = linked_ctx(vec![0x6]);
    let (builder, _) = descriptor().create_linked_memory();
    assert_eq!(
        builder.advance(&ctx, DeviceReply::Failed(-2)),
        LinkedProgress::Failed {
            error: KernelError::ResourceCreationFailure { phase: Phase::Buffer { binding: 4 }, code: -2 },
            release: Vec::new(),
        }
    );
}

#[test]
fn refused_memory_gives_the_buffer_back() {
    let ctx = linked_ctx(vec![0x6]);
    let (builder, _) = descriptor().create_linked_memory();
    let (builder, _) = pending(builder.advance(&ctx, DeviceReply::Handle(50)));
    let (builder, _) = pending(
        builder.advance(&ctx, DeviceReply::MemoryRequirements { size: 100, memory_type_bits: 1 }),
    );
    assert_eq!(
        builder.advance(&ctx, DeviceReply::Failed(-1)),
        LinkedProgress::Failed {
            error: KernelError::ResourceCreationFailure { phase: Phase::Memory { binding: 4 }, code: -1 },
            release: vec![DeviceObject { kind: ObjectKind::Buffer, handle: 50 }],
        }
    );
}

#[test]
fn refused_binding_gives_buffer_and_memory_back() {
    let ctx = linked_ctx(vec![0x6]);
    let (builder, _) = descriptor().create_linked_memory();
    let (builder, _) = pending(builder.advance(&ctx, DeviceReply::Handle(50)));
    let (builder, _) = pending(
        builder.advance(&ctx, DeviceReply::MemoryRequirements { size: 100, memory_type_bits: 1 }),
    );
    let (builder, _) = pending(builder.advance(&ctx, DeviceReply::Handle(60)));
    assert_eq!(
        builder.advance(&ctx, DeviceReply::Failed(-3)),
        LinkedProgress::Failed {
            error: KernelError::ResourceCreationFailure {
                phase: Phase::BindMemory { binding: 4 },
                code: -3,
            },
            release: vec![
                DeviceObject { kind: ObjectKind::Buffer, handle: 50 },
                DeviceObject { kind: ObjectKind::Memory, handle: 60 },
            ],
        }
    );
}

#[test]
fn reply_of_the_wrong_kind_ends_the_creation() {
    let ctx = linked_ctx(vec![0x6]);
    let (builder, _) = descriptor().create_linked_memory();
    assert_eq!(
        builder.advance(&ctx, DeviceReply::Done),
        LinkedProgress::Failed {
            error: KernelError::UnexpectedReply { phase: Phase::Buffer { binding: 4 } },
            release: Vec::new(),
        }
    );
    let (builder, _) = descriptor().create_linked_memory();
    let (builder, _) = pending(builder.advance(&ctx, DeviceReply::Handle(50)));
    assert_eq!(
        builder.advance(&ctx, DeviceReply::Handle(51)),
        LinkedProgress::Failed {
            error: KernelError::UnexpectedReply { phase: Phase::MemoryRequirements { binding: 4 } },
            release: vec![DeviceObject { kind: ObjectKind::Buffer, handle: 50 }],
        }
    );
}

#[test]
fn linked_memory_teardown_releases_buffer_then_memory() {
    let linked = LinkedMemory { binding: 0, buffer: 8, memory: 9 };
    assert_eq!(
        linked.destroy(),
        vec![
            DeviceObject { kind: ObjectKind::Buffer, handle: 8 },
            DeviceObject { kind: ObjectKind::Memory, handle: 9 },
        ]
    );
}

#[test]
fn mapped_pointer_spans_four_bytes_per_word() {
    let linked = LinkedMemory { binding: 0, buffer: 8, memory: 9 };
    assert_eq!(
        linked.get_mapped_pointer(25),
        Some(MappedMemoryPointer { binding: 0, memory: 9, size: 100, length: 25 })
    );
    assert_eq!(
        linked.get_mapped_pointer(0),
        Some(MappedMemoryPointer { binding: 0, memory: 9, size: 0, length: 0 })
    );
}

#[test]
fn mapped_pointer_refuses_lengths_whose_bytes_cannot_be_named() {
    let linked = LinkedMemory { binding: 0, buffer: 8, memory: 9 };
    if usize::BITS == 64 {
        assert_eq!(linked.get_mapped_pointer(usize::MAX), None);
        assert_eq!(linked.get_mapped_pointer(0x4000_0000_0000_0000), None);
        assert_eq!(
            linked.get_mapped_pointer(0x3fff_ffff_ffff_ffff),
            Some(MappedMemoryPointer {
                binding: 0,
                memory: 9,
                size: 0xffff_ffff_ffff_fffc,
                length: 0x3fff_ffff_ffff_ffff,
            })
        );
    }
}

#[test]
fn mapped_pointer_carries_the_binding_of_its_memory() {
    let linked = LinkedMemory { binding: 6, buffer: 8, memory: 9 };
    assert_eq!(
        linked.get_mapped_pointer(2),
        Some(MappedMemoryPointer { binding: 6, memory: 9, size: 8, length: 2 })
    );
}

#[test]
fn unmap_names_the_memory_of_the_window() {
    let linked = LinkedMemory { binding: 0, buffer: 8, memory: 9 };
    let pointer = linked.get_mapped_pointer(3).expect("twelve bytes can be named");
    assert_eq!(pointer.unmap(), 9);
}
