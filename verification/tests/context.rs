use vk_compute::command::{CreateInfo, DeviceCommand, DeviceObject, ObjectKind};
use vk_compute::context::VkCtx;

fn sample_ctx(memory_types: Vec<u32>) -> VkCtx {
    VkCtx {
        command_buffer: 11,
        command_pool: 12,
        device: 13,
        physical_device: 14,
        instance: 15,
        queue: 16,
        descriptor_pool: 17,
        memory_types,
        fence_timeout: u64::MAX,
    }
}

#[test]
fn find_memory_type_takes_the_lowest_type_that_fits() {
    // types 1 and 3 are host-visible and host-coherent; all four are allowed
    let ctx = sample_ctx(vec![0x1, 0x6, 0x2, 0xe]);
    assert_eq!(ctx.find_memory_type(0b1111, 0x6), Some(1));
}

#[test]
fn find_memory_type_skips_types_the_buffer_does_not_allow() {
    let ctx = sample_ctx(vec![0x1, 0x6, 0x2, 0xe]);
    assert_eq!(ctx.find_memory_type(0b1101, 0x6), Some(3));
    assert_eq!(ctx.find_memory_type(0b1000, 0x6), Some(3));
}

#[test]
fn find_memory_type_wants_every_flag() {
    let ctx = sample_ctx(vec![0x2, 0x4, 0x1]);
    assert_eq!(ctx.find_memory_type(0b111, 0x6), None);
    assert_eq!(ctx.find_memory_type(0b111, 0x2), Some(0));
    assert_eq!(ctx.find_memory_type(0b111, 0x4), Some(1));
}

#[test]
fn find_memory_type_finds_nothing_without_allowed_bits_or_types() {
    let ctx = sample_ctx(vec![0x6, 0x6]);
    assert_eq!(ctx.find_memory_type(0, 0x6), None);
    assert_eq!(ctx.find_memory_type(0b100, 0x6), None);
    let empty = sample_ctx(Vec::new());
    assert_eq!(empty.find_memory_type(u32::MAX, 0x6), None);
}

#[test]
fn find_memory_type_with_no_flags_takes_the_first_allowed_type() {
    let ctx = sample_ctx(vec![0x0, 0x0, 0x0]);
    assert_eq!(ctx.find_memory_type(0b110, 0), Some(1));
}

#[test]
fn find_memory_type_looks_at_thirty_two_types_at_most() {
    let mut types = vec![0u32; 40];
    types[31] = 0x6;
    types[35] = 0x6;
    let ctx = sample_ctx(types);
    assert_eq!(ctx.find_memory_type(u32::MAX, 0x6), Some(31));
    assert_eq!(ctx.find_memory_type(0x7fff_ffff, 0x6), None);
}

#[test]
fn context_teardown_releases_in_the_fixed_order() {
    let ctx = sample_ctx(vec![0x6]);
    assert_eq!(
        ctx.destroy(),
        vec![
            DeviceObject { kind: ObjectKind::DescriptorPool, handle: 17 },
            DeviceObject { kind: ObjectKind::CommandBuffer { pool: 12 }, handle: 11 },
            DeviceObject { kind: ObjectKind::CommandPool, handle: 12 },
            DeviceObject { kind: ObjectKind::Device, handle: 13 },
            DeviceObject { kind: ObjectKind::Instance, handle: 15 },
        ]
    );
}

#[test]
fn shader_module_command_carries_the_bytecode() {
    let ctx = sample_ctx(vec![0x6]);
    let command = ctx.create_shader_module(vec![0x0723_0203, 1, 2, 3]);
    assert_eq!(
        command,
        DeviceCommand::Create(CreateInfo::ShaderModule { code: vec![0x0723_0203, 1, 2, 3] })
    );
}
