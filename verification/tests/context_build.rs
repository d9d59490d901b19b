use vk_compute::builder::{create_compute_pipeline, BuildProgress, ContextBuilder};
use vk_compute::command::{
    BufferWrite, CreateInfo, DeviceCommand, DeviceObject, DeviceReply, LayoutBinding, ObjectKind,
    PushConstantRange,
};
use vk_compute::context::VkCtx;
use vk_compute::data::LinkedMemory;
use vk_compute::demo::matrix_nx_m::MatrixNxM;
use vk_compute::demo::multiply_nx_m_shader::MatrixNxMShader;
use vk_compute::error::{CopyTarget, KernelError, Phase};
use vk_compute::shader::{
    ComputeShader, LayoutDescription, LayoutDescriptorIndex, ShaderExecutionContext,
};

/// A device that only keeps books: it hands out handles and remembers what is outstanding.
struct AccountingDevice {
    next_handle: u64,
    outstanding: Vec<DeviceObject>,
    answered: usize,
    refuse_at: Option<usize>,
    log: Vec<DeviceCommand>,
}

fn accounting_device(refuse_at: Option<usize>) -> AccountingDevice {
    AccountingDevice { next_handle: 100, outstanding: Vec::new(), answered: 0, refuse_at, log: Vec::new() }
}

fn created_kind(info: &CreateInfo) -> ObjectKind {
    match info {
        CreateInfo::ShaderModule { .. } => ObjectKind::ShaderModule,
        CreateInfo::DescriptorSetLayout { .. } => ObjectKind::DescriptorSetLayout,
        CreateInfo::DescriptorSet { pool, .. } => ObjectKind::DescriptorSet { pool: *pool },
        CreateInfo::PipelineLayout { .. } => ObjectKind::PipelineLayout,
        CreateInfo::ComputePipeline { .. } => ObjectKind::Pipeline,
        CreateInfo::Buffer { .. } => ObjectKind::Buffer,
        CreateInfo::Memory { .. } => ObjectKind::Memory,
        CreateInfo::Fence => ObjectKind::Fence,
    }
}

fn answer(device: &mut AccountingDevice, command: DeviceCommand) -> DeviceReply {
    let position = device.answered;
    device.answered += 1;
    let reply = if device.refuse_at == Some(position) {
        DeviceReply::Failed(-13)
    } else {
        match &command {
            DeviceCommand::Create(info) => {
                let handle = device.next_handle;
                device.next_handle += 1;
                device.outstanding.push(DeviceObject { kind: created_kind(info), handle });
                DeviceReply::Handle(handle)
            }
            DeviceCommand::GetBufferMemoryRequirements { .. } => {
                DeviceReply::MemoryRequirements { size: 256, memory_type_bits: 0b10 }
            }
            _ => DeviceReply::Done,
        }
    };
    device.log.push(command);
    reply
}

fn release(device: &mut AccountingDevice, objects: &[DeviceObject]) {
    for object in objects {
        let at = device
            .outstanding
            .iter()
            .position(|held| held == object)
            .unwrap_or_else(|| panic!("{:?} is released but not outstanding", object));
        device.outstanding.remove(at);
    }
}

fn build_ctx() -> VkCtx {
    VkCtx {
        command_buffer: 1,
        command_pool: 2,
        device: 3,
        physical_device: 4,
        instance: 5,
        queue: 6,
        descriptor_pool: 7,
        memory_types: vec![0x1, 0x6],
        fence_timeout: u64::MAX,
    }
}

fn drive(
    device: &mut AccountingDevice,
    ctx: &VkCtx,
    opened: (ContextBuilder, DeviceCommand),
) -> Result<ShaderExecutionContext, KernelError> {
    let (mut builder, mut command) = opened;
    loop {
        let reply = answer(device, command);
        match builder.advance(ctx, reply) {
            BuildProgress::Pending(next, following) => {
                builder = next;
                command = following;
            }
            BuildProgress::Built(context) => return Ok(context),
            BuildProgress::Failed { error, release: objects } => {
                release(device, &objects);
                return Err(error);
            }
        }
    }
}

fn product_kernel() -> MatrixNxMShader {
    let a = MatrixNxM::new(3, vec![1, 1, 2, 2, 3, 3]);
    let b = MatrixNxM::new(2, vec![1, 1, 1, 2, 2, 2]);
    MatrixNxMShader::new(a, b).expect("3x2 times 2x3 fits")
}

#[test]
fn build_issues_the_commands_in_the_fixed_order() {
    let ctx = build_ctx();
    let kernel = product_kernel();
    let mut device = accounting_device(None);
    let opened = kernel.build_shader_context(&ctx, vec![7, 8, 9]).expect("the layout lines up");
    let context = drive(&mut device, &ctx, opened).expect("the device refuses nothing");
    let storage = LayoutBinding { binding: 0, descriptor_type: 7, descriptor_count: 1, stage_flags: 0x20 };
    let mut expected = vec![
        DeviceCommand::Create(CreateInfo::ShaderModule { code: vec![7, 8, 9] }),
        DeviceCommand::Create(CreateInfo::DescriptorSetLayout {
            bindings: vec![
                storage,
                LayoutBinding { binding: 1, ..storage },
                LayoutBinding { binding: 2, ..storage },
            ],
        }),
        DeviceCommand::Create(CreateInfo::DescriptorSet { pool: 7, layout: 101 }),
        DeviceCommand::Create(CreateInfo::PipelineLayout {
            set_layouts: vec![101],
            push_constants: PushConstantRange { stage_flags: 0x20, offset: 0, size: 12 },
        }),
        DeviceCommand::Create(CreateInfo::ComputePipeline {
            module: 100,
            layout: 103,
            stage: 0x20,
            entry_point: "main".to_string(),
        }),
    ];
    // linked memories: write slot 0, write slot 1, read slot 0
    for (buffer, memory, size) in [(105u64, 106u64, 24u64), (107, 108, 24), (109, 110, 36)] {
        expected.push(DeviceCommand::Create(CreateInfo::Buffer { size, usage: 0x20 }));
        expected.push(DeviceCommand::GetBufferMemoryRequirements { buffer });
        expected.push(DeviceCommand::Create(CreateInfo::Memory { size: 256, memory_type_index: 1 }));
        expected.push(DeviceCommand::BindBufferMemory { buffer, memory, offset: 0 });
    }
    expected.push(DeviceCommand::UpdateDescriptorSet {
        set: 102,
        writes: vec![
            BufferWrite { binding: 0, descriptor_type: 7, buffer: 105, offset: 0, range: 24 },
            BufferWrite { binding: 1, descriptor_type: 7, buffer: 107, offset: 0, range: 24 },
            BufferWrite { binding: 2, descriptor_type: 7, buffer: 109, offset: 0, range: 36 },
        ],
    });
    assert_eq!(device.log, expected);
    assert_eq!(
        context,
        ShaderExecutionContext {
            shader_module: 100,
            descriptor_set_layouts: vec![101],
            descriptor_set: 102,
            descriptor_pool: 7,
            pipeline_layout: 103,
            pipeline: 104,
            push_constant_size: 12,
            write_buffers: vec![
                LinkedMemory { binding: 0, buffer: 105, memory: 106 },
                LinkedMemory { binding: 1, buffer: 107, memory: 108 },
            ],
            read_buffers: vec![LinkedMemory { binding: 2, buffer: 109, memory: 110 }],
        }
    );
}

#[test]
fn build_commands_carry_the_constants_of_the_device_interface() {
    let ctx = build_ctx();
    let kernel = product_kernel();
    let mut device = accounting_device(None);
    let opened = kernel.build_shader_context(&ctx, vec![1]).expect("the layout lines up");
    drive(&mut device, &ctx, opened).expect("the device refuses nothing");
    let storage_buffer = ash::vk::DescriptorType::STORAGE_BUFFER.as_raw();
    let compute = ash::vk::ShaderStageFlags::COMPUTE.as_raw();
    match &device.log[1] {
        DeviceCommand::Create(CreateInfo::DescriptorSetLayout { bindings }) => {
            assert_eq!(bindings.len(), 3);
            for binding in bindings {
                assert_eq!(binding.descriptor_type, storage_buffer);
                assert_eq!(binding.stage_flags, compute);
                assert_eq!(binding.descriptor_count, 1);
            }
        }
        other => panic!("the second command should create the set layout, not {:?}", other),
    }
    match &device.log[3] {
        DeviceCommand::Create(CreateInfo::PipelineLayout { push_constants, .. }) => {
            assert_eq!(push_constants.stage_flags, compute);
        }
        other => panic!("the fourth command should create the pipeline layout, not {:?}", other),
    }
    match device.log.last() {
        Some(DeviceCommand::UpdateDescriptorSet { writes, .. }) => {
            assert!(writes.iter().all(|write| write.descriptor_type == storage_buffer));
        }
        other => panic!("the last command should populate the set, not {:?}", other),
    }
}

#[test]
fn build_followed_by_destroy_leaves_nothing_outstanding() {
    let ctx = build_ctx();
    let kernel = product_kernel();
    let mut device = accounting_device(None);
    let opened = kernel.build_shader_context(&ctx, vec![1, 2]).expect("the layout lines up");
    let context = drive(&mut device, &ctx, opened).expect("the device refuses nothing");
    assert_eq!(device.outstanding.len(), 11);
    let objects = context.destroy();
    release(&mut device, &objects);
    assert!(device.outstanding.is_empty());
}

#[test]
fn destroy_releases_in_the_fixed_order() {
    let context = ShaderExecutionContext {
        shader_module: 1,
        descriptor_set_layouts: vec![2, 3],
        descriptor_set: 4,
        descriptor_pool: 5,
        pipeline_layout: 6,
        pipeline: 7,
        push_constant_size: 0,
        write_buffers: vec![
            LinkedMemory { binding: 0, buffer: 10, memory: 11 },
            LinkedMemory { binding: 1, buffer: 12, memory: 13 },
        ],
        read_buffers: vec![LinkedMemory { binding: 2, buffer: 14, memory: 15 }],
    };
    let object = |kind, handle| DeviceObject { kind, handle };
    assert_eq!(
        context.destroy(),
        vec![
            object(ObjectKind::Buffer, 10),
            object(ObjectKind::Memory, 11),
            object(ObjectKind::Buffer, 12),
            object(ObjectKind::Memory, 13),
            object(ObjectKind::Buffer, 14),
            object(ObjectKind::Memory, 15),
            object(ObjectKind::Pipeline, 7),
            object(ObjectKind::PipelineLayout, 6),
            object(ObjectKind::DescriptorSet { pool: 5 }, 4),
            object(ObjectKind::DescriptorSetLayout, 2),
            object(ObjectKind::DescriptorSetLayout, 3),
            object(ObjectKind::ShaderModule, 1),
        ]
    );
}

#[test]
fn build_refused_at_any_step_leaves_nothing_outstanding() {
    let ctx = build_ctx();
    // a full build of the product kernel takes 18 commands
    for refuse_at in 0..18 {
        let kernel = product_kernel();
        let mut device = accounting_device(Some(refuse_at));
        let opened = kernel.build_shader_context(&ctx, vec![1, 2]).expect("the layout lines up");
        let outcome = drive(&mut device, &ctx, opened);
        assert!(outcome.is_err(), "a refusal at command {} must fail the build", refuse_at);
        assert_eq!(device.answered, refuse_at + 1);
        assert!(
            device.outstanding.is_empty(),
            "a refusal at command {} leaks {:?}",
            refuse_at,
            device.outstanding
        );
    }
}

#[test]
fn build_failure_names_the_phase_and_the_code() {
    let ctx = build_ctx();
    let phases = [
        (0, Phase::ShaderModule),
        (1, Phase::DescriptorSetLayout),
        (2, Phase::DescriptorSet),
        (3, Phase::PipelineLayout),
        (4, Phase::Pipeline),
        (5, Phase::Buffer { binding: 0 }),
        (6, Phase::MemoryRequirements { binding: 0 }),
        (7, Phase::Memory { binding: 0 }),
        (8, Phase::BindMemory { binding: 0 }),
        (9, Phase::Buffer { binding: 1 }),
        (13, Phase::Buffer { binding: 2 }),
        (16, Phase::BindMemory { binding: 2 }),
        (17, Phase::DescriptorUpdate),
    ];
    for (refuse_at, phase) in phases {
        let kernel = product_kernel();
        let mut device = accounting_device(Some(refuse_at));
        let opened = kernel.build_shader_context(&ctx, vec![1]).expect("the layout lines up");
        assert_eq!(
            drive(&mut device, &ctx, opened).err(),
            Some(KernelError::ResourceCreationFailure { phase, code: -13 })
        );
    }
}

#[test]
fn build_failure_releases_linked_memories_before_the_pipeline() {
    let ctx = build_ctx();
    let kernel = product_kernel();
    let (mut builder, mut command) =
        kernel.build_shader_context(&ctx, vec![1]).expect("the layout lines up");
    let mut device = accounting_device(Some(11));
    let objects = loop {
        let reply = answer(&mut device, command);
        match builder.advance(&ctx, reply) {
            BuildProgress::Pending(next, following) => {
                builder = next;
                command = following;
            }
            BuildProgress::Built(_) => panic!("the build should fail at the twelfth command"),
            BuildProgress::Failed { error, release } => {
                assert_eq!(
                    error,
                    KernelError::ResourceCreationFailure { phase: Phase::Memory { binding: 1 }, code: -13 }
                );
                break release;
            }
        }
    };
    let object = |kind, handle| DeviceObject { kind, handle };
    assert_eq!(
        objects,
        vec![
            object(ObjectKind::Buffer, 105),
            object(ObjectKind::Memory, 106),
            object(ObjectKind::Buffer, 107),
            object(ObjectKind::Pipeline, 104),
            object(ObjectKind::PipelineLayout, 103),
            object(ObjectKind::DescriptorSet { pool: 7 }, 102),
            object(ObjectKind::DescriptorSetLayout, 101),
            object(ObjectKind::ShaderModule, 100),
        ]
    );
}

#[test]
fn build_without_suitable_memory_type_fails_and_releases() {
    let mut ctx = build_ctx();
    ctx.memory_types = vec![0x1, 0x2];
    let kernel = product_kernel();
    let mut device = accounting_device(None);
    let opened = kernel.build_shader_context(&ctx, vec![1]).expect("the layout lines up");
    assert_eq!(
        drive(&mut device, &ctx, opened).err(),
        Some(KernelError::NoSuitableMemoryType { binding: 0 })
    );
    assert!(device.outstanding.is_empty());
}

fn layout_of(indices: &[(u32, LayoutDescriptorIndex)]) -> Vec<LayoutDescription> {
    indices
        .iter()
        .map(|(binding, index)| LayoutDescription { binding: *binding, buffer_size: 16, index: *index })
        .collect()
}

#[test]
fn mismatched_layout_fails_before_the_device_is_asked() {
    let ctx = build_ctx();
    let repeated_binding = layout_of(&[
        (0, LayoutDescriptorIndex::WriteIndex(0)),
        (0, LayoutDescriptorIndex::ReadIndex(0)),
    ]);
    assert_eq!(
        ContextBuilder::open(repeated_binding, 1, 1, None, &ctx, vec![1]).err(),
        Some(KernelError::BindingMismatch)
    );
    let repeated_slot = layout_of(&[
        (0, LayoutDescriptorIndex::WriteIndex(0)),
        (1, LayoutDescriptorIndex::WriteIndex(0)),
    ]);
    assert_eq!(
        ContextBuilder::open(repeated_slot, 2, 0, None, &ctx, vec![1]).err(),
        Some(KernelError::BindingMismatch)
    );
    let slot_out_of_range = layout_of(&[(0, LayoutDescriptorIndex::ReadIndex(1))]);
    assert_eq!(
        ContextBuilder::open(slot_out_of_range, 0, 1, None, &ctx, vec![1]).err(),
        Some(KernelError::BindingMismatch)
    );
    let payload_without_descriptor = layout_of(&[(0, LayoutDescriptorIndex::WriteIndex(0))]);
    assert_eq!(
        ContextBuilder::open(payload_without_descriptor, 1, 1, None, &ctx, vec![1]).err(),
        Some(KernelError::BindingMismatch)
    );
}

#[test]
fn kernel_without_push_constants_gets_an_empty_range() {
    let ctx = build_ctx();
    let layout = layout_of(&[(3, LayoutDescriptorIndex::ReadIndex(0))]);
    let opened = ContextBuilder::open(layout, 0, 1, None, &ctx, vec![1]).expect("lines up");
    let mut device = accounting_device(None);
    let context = drive(&mut device, &ctx, opened).expect("the device refuses nothing");
    assert_eq!(context.push_constant_size, 0);
    assert_eq!(
        device.log[3],
        DeviceCommand::Create(CreateInfo::PipelineLayout {
            set_layouts: vec![101],
            push_constants: PushConstantRange { stage_flags: 0, offset: 0, size: 0 },
        })
    );
    assert_eq!(context.write_buffers, Vec::new());
    assert_eq!(context.read_buffers, vec![LinkedMemory { binding: 3, buffer: 105, memory: 106 }]);
}

#[test]
fn push_constant_range_is_four_bytes_per_word() {
    let ctx = build_ctx();
    let opened = ContextBuilder::open(Vec::new(), 0, 0, Some(5), &ctx, vec![1]).expect("lines up");
    let mut device = accounting_device(None);
    let context = drive(&mut device, &ctx, opened).expect("the device refuses nothing");
    assert_eq!(context.push_constant_size, 20);
    assert_eq!(
        device.log[3],
        DeviceCommand::Create(CreateInfo::PipelineLayout {
            set_layouts: vec![101],
            push_constants: PushConstantRange { stage_flags: 0x20, offset: 0, size: 20 },
        })
    );
}

#[test]
fn push_constant_block_beyond_thirty_two_bits_is_a_size_mismatch() {
    let ctx = build_ctx();
    assert!(ContextBuilder::open(Vec::new(), 0, 0, Some(0x3fff_ffff), &ctx, vec![1]).is_ok());
    assert_eq!(
        ContextBuilder::open(Vec::new(), 0, 0, Some(0x4000_0000), &ctx, vec![1]).err(),
        Some(KernelError::SizeMismatch {
            target: CopyTarget::PushConstants,
            declared: u32::MAX as u64,
        })
    );
}

#[test]
fn kernel_without_bindings_builds_with_an_empty_update() {
    let ctx = build_ctx();
    let opened = ContextBuilder::open(Vec::new(), 0, 0, None, &ctx, vec![1]).expect("lines up");
    let mut device = accounting_device(None);
    let context = drive(&mut device, &ctx, opened).expect("the device refuses nothing");
    assert_eq!(device.log.len(), 6);
    assert_eq!(
        device.log[5],
        DeviceCommand::UpdateDescriptorSet { set: 102, writes: Vec::new() }
    );
    let objects = context.destroy();
    release(&mut device, &objects);
    assert!(device.outstanding.is_empty());
}

#[test]
fn descriptors_in_any_order_get_their_own_buffers() {
    let ctx = build_ctx();
    // the read descriptor comes first and the write slots are listed backwards
    let layout = vec![
        LayoutDescription { binding: 9, buffer_size: 8, index: LayoutDescriptorIndex::ReadIndex(0) },
        LayoutDescription { binding: 5, buffer_size: 12, index: LayoutDescriptorIndex::WriteIndex(1) },
        LayoutDescription { binding: 2, buffer_size: 4, index: LayoutDescriptorIndex::WriteIndex(0) },
    ];
    let opened = ContextBuilder::open(layout, 2, 1, None, &ctx, vec![1]).expect("lines up");
    let mut device = accounting_device(None);
    let context = drive(&mut device, &ctx, opened).expect("the device refuses nothing");
    assert_eq!(
        context.write_buffers,
        vec![
            LinkedMemory { binding: 2, buffer: 105, memory: 106 },
            LinkedMemory { binding: 5, buffer: 107, memory: 108 },
        ]
    );
    assert_eq!(context.read_buffers, vec![LinkedMemory { binding: 9, buffer: 109, memory: 110 }]);
    assert_eq!(device.log[5], DeviceCommand::Create(CreateInfo::Buffer { size: 4, usage: 0x20 }));
    assert_eq!(device.log[9], DeviceCommand::Create(CreateInfo::Buffer { size: 12, usage: 0x20 }));
    assert_eq!(device.log[13], DeviceCommand::Create(CreateInfo::Buffer { size: 8, usage: 0x20 }));
    assert_eq!(
        device.log[17],
        DeviceCommand::UpdateDescriptorSet {
            set: 102,
            writes: vec![
                BufferWrite { binding: 9, descriptor_type: 7, buffer: 109, offset: 0, range: 8 },
                BufferWrite { binding: 5, descriptor_type: 7, buffer: 107, offset: 0, range: 12 },
                BufferWrite { binding: 2, descriptor_type: 7, buffer: 105, offset: 0, range: 4 },
            ],
        }
    );
}

#[test]
fn reply_of_the_wrong_kind_fails_the_build() {
    let ctx = build_ctx();
    let (builder, _) = ContextBuilder::open(Vec::new(), 0, 0, None, &ctx, vec![1]).expect("lines up");
    match builder.advance(&ctx, DeviceReply::Done) {
        BuildProgress::Failed { error, release } => {
            assert_eq!(error, KernelError::UnexpectedReply { phase: Phase::ShaderModule });
            assert!(release.is_empty());
        }
        _ => panic!("an answer without a handle cannot create the shader module"),
    }
}

#[test]
fn compute_pipeline_command_names_module_and_layout() {
    assert_eq!(
        create_compute_pipeline(31, 32),
        DeviceCommand::Create(CreateInfo::ComputePipeline {
            module: 32,
            layout: 31,
            stage: ash::vk::ShaderStageFlags::COMPUTE.as_raw(),
            entry_point: "main".to_string(),
        })
    );
}
