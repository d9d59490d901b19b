use vk_compute::bootstrap::{
    layer_installed, BootCommand, BootProgress, BootReply, BootStage, Bootstrap,
    APPLICATION_NAME, ENGINE_NAME, VALIDATION_LAYER,
};
use vk_compute::command::{DeviceObject, ObjectKind};
use vk_compute::context::VkCtx;
use vk_compute::error::{KernelError, Phase};

fn layers() -> Vec<String> {
    vec!["VK_LAYER_MESA_overlay".to_string(), VALIDATION_LAYER.to_string()]
}

/// The answers of a device to a bootstrap that goes well, in order.
fn good_replies() -> Vec<BootReply> {
    vec![
        BootReply::Names(layers()),
        BootReply::Handle(1),
        BootReply::Handles(vec![2, 99]),
        BootReply::Handle(3),
        BootReply::Handle(4),
        BootReply::Handle(5),
        BootReply::Handle(6),
        BootReply::Handle(7),
        BootReply::MemoryTypes(vec![0x1, 0x6]),
    ]
}

fn boot(replies: Vec<BootReply>, fence_timeout: u64) -> (Vec<BootCommand>, BootProgress) {
    let (mut bootstrap, mut command) = VkCtx::create_compute_ctx(fence_timeout);
    let mut log = Vec::new();
    let mut replies = replies.into_iter();
    loop {
        log.push(command);
        let reply = replies.next().expect("the bootstrap asks for more than was prepared");
        match bootstrap.advance(reply) {
            BootProgress::Pending(next, following) => {
                bootstrap = next;
                command = following;
            }
            end => return (log, end),
        }
    }
}

#[test]
fn bootstrap_opens_by_asking_for_the_layers() {
    let (bootstrap, command) = VkCtx::create_compute_ctx(77);
    assert_eq!(command, BootCommand::EnumerateInstanceLayers);
    assert_eq!(bootstrap.stage, BootStage::AwaitLayers);
    assert_eq!(bootstrap.fence_timeout, 77);
}

#[test]
fn bootstrap_creates_the_context_in_the_fixed_order() {
    let (log, end) = boot(good_replies(), u64::MAX);
    assert_eq!(
        log,
        vec![
            BootCommand::EnumerateInstanceLayers,
            BootCommand::CreateInstance {
                application_name: "matrix-multiplication".to_string(),
                engine_name: "No Engine".to_string(),
                api_version: (1 << 22) | (1 << 12),
                layers: vec!["VK_LAYER_KHRONOS_validation".to_string()],
            },
            BootCommand::EnumeratePhysicalDevices { instance: 1 },
            BootCommand::CreateDevice { physical_device: 2, queue_family_index: 0, queue_count: 1 },
            BootCommand::GetDeviceQueue { device: 3, queue_family_index: 0, queue_index: 0 },
            BootCommand::CreateCommandPool { device: 3, queue_family_index: 0 },
            BootCommand::AllocateCommandBuffer { device: 3, pool: 5, level: 0 },
            BootCommand::CreateDescriptorPool {
                device: 3,
                max_sets: 1,
                descriptor_type: 7,
                descriptor_count: 3,
                flags: 1,
            },
            BootCommand::GetMemoryTypes { physical_device: 2 },
        ]
    );
    match end {
        BootProgress::Ready(ctx) => {
            assert_eq!(ctx.instance, 1);
            assert_eq!(ctx.physical_device, 2);
            assert_eq!(ctx.device, 3);
            assert_eq!(ctx.queue, 4);
            assert_eq!(ctx.command_pool, 5);
            assert_eq!(ctx.command_buffer, 6);
            assert_eq!(ctx.descriptor_pool, 7);
            assert_eq!(ctx.memory_types, vec![0x1, 0x6]);
            assert_eq!(ctx.fence_timeout, u64::MAX);
        }
        other => panic!("the bootstrap should be ready, but came to {:?}", other),
    }
}

#[test]
fn bootstrap_commands_carry_the_constants_of_the_device_interface() {
    let (log, _) = boot(good_replies(), 0);
    match &log[1] {
        BootCommand::CreateInstance { api_version, application_name, engine_name, .. } => {
            assert_eq!(*api_version, ash::vk::API_VERSION_1_1);
            assert_eq!(application_name, APPLICATION_NAME);
            assert_eq!(engine_name, ENGINE_NAME);
        }
        other => panic!("expected the instance to be created, not {:?}", other),
    }
    match &log[6] {
        BootCommand::AllocateCommandBuffer { level, .. } => {
            assert_eq!(*level, ash::vk::CommandBufferLevel::PRIMARY.as_raw());
        }
        other => panic!("expected the command buffer to be allocated, not {:?}", other),
    }
    match &log[7] {
        BootCommand::CreateDescriptorPool { descriptor_type, flags, .. } => {
            assert_eq!(*descriptor_type, ash::vk::DescriptorType::STORAGE_BUFFER.as_raw());
            assert_eq!(*flags, ash::vk::DescriptorPoolCreateFlags::FREE_DESCRIPTOR_SET.as_raw());
        }
        other => panic!("expected the descriptor pool to be created, not {:?}", other),
    }
}

#[test]
fn bootstrap_followed_by_teardown_releases_what_was_created() {
    let (_, end) = boot(good_replies(), 0);
    let ctx = match end {
        BootProgress::Ready(ctx) => ctx,
        other => panic!("the bootstrap should be ready, but came to {:?}", other),
    };
    let mut released = ctx.destroy();
    released.sort_by_key(|object| object.handle);
    assert_eq!(
        released,
        vec![
            DeviceObject { kind: ObjectKind::Instance, handle: 1 },
            DeviceObject { kind: ObjectKind::Device, handle: 3 },
            DeviceObject { kind: ObjectKind::CommandPool, handle: 5 },
            DeviceObject { kind: ObjectKind::CommandBuffer { pool: 5 }, handle: 6 },
            DeviceObject { kind: ObjectKind::DescriptorPool, handle: 7 },
        ]
    );
}

#[test]
fn missing_validation_layer_ends_the_bootstrap() {
    let (log, end) = boot(vec![BootReply::Names(vec!["VK_LAYER_MESA_overlay".to_string()])], 0);
    assert_eq!(log.len(), 1);
    match end {
        BootProgress::Failed { error, release } => {
            assert_eq!(error, KernelError::LayerNotAvailable);
            assert!(release.is_empty());
        }
        other => panic!("the bootstrap should fail, but came to {:?}", other),
    }
}

#[test]
fn layer_is_found_among_the_installed_ones_by_its_exact_name() {
    assert!(layer_installed(&layers()));
    assert!(layer_installed(&vec![VALIDATION_LAYER.to_string()]));
    assert!(!layer_installed(&Vec::new()));
    assert!(!layer_installed(&vec!["VK_LAYER_KHRONOS_validatio".to_string()]));
    assert!(!layer_installed(&vec!["vk_layer_khronos_validation".to_string()]));
}

#[test]
fn instance_without_physical_device_is_released() {
    let replies = vec![BootReply::Names(layers()), BootReply::Handle(1), BootReply::Handles(Vec::new())];
    let (_, end) = boot(replies, 0);
    match end {
        BootProgress::Failed { error, release } => {
            assert_eq!(error, KernelError::NoPhysicalDevice);
            assert_eq!(release, vec![DeviceObject { kind: ObjectKind::Instance, handle: 1 }]);
        }
        other => panic!("the bootstrap should fail, but came to {:?}", other),
    }
}

#[test]
fn refusal_at_any_step_releases_what_exists_in_reverse_order() {
    let all = vec![
        DeviceObject { kind: ObjectKind::DescriptorPool, handle: 7 },
        DeviceObject { kind: ObjectKind::CommandBuffer { pool: 5 }, handle: 6 },
        DeviceObject { kind: ObjectKind::CommandPool, handle: 5 },
        DeviceObject { kind: ObjectKind::Device, handle: 3 },
        DeviceObject { kind: ObjectKind::Instance, handle: 1 },
    ];
    // the step that is refused, its phase, and how many objects exist by then
    let cases = [
        (0, Phase::InstanceLayers, 0),
        (1, Phase::Instance, 0),
        (2, Phase::PhysicalDevice, 1),
        (3, Phase::Device, 1),
        (4, Phase::Queue, 2),
        (5, Phase::CommandPool, 2),
        (6, Phase::CommandBuffer, 3),
        (7, Phase::DescriptorPool, 4),
        (8, Phase::MemoryTypes, 5),
    ];
    for (refused, phase, existing) in cases {
        let mut replies = good_replies();
        replies.truncate(refused);
        replies.push(BootReply::Failed(-9));
        let (log, end) = boot(replies, 0);
        assert_eq!(log.len(), refused + 1);
        match end {
            BootProgress::Failed { error, release } => {
                assert_eq!(error, KernelError::ResourceCreationFailure { phase, code: -9 });
                assert_eq!(release, all[all.len() - existing..].to_vec());
            }
            other => panic!("the bootstrap should fail, but came to {:?}", other),
        }
    }
}

#[test]
fn bootstrap_reply_of_the_wrong_kind_is_unexpected() {
    let bootstrap = Bootstrap {
        stage: BootStage::AwaitDevice,
        instance: 1,
        physical_device: 2,
        device: 0,
        queue: 0,
        command_pool: 0,
        command_buffer: 0,
        descriptor_pool: 0,
        fence_timeout: 0,
    };
    match bootstrap.advance(BootReply::MemoryTypes(vec![0x6])) {
        BootProgress::Failed { error, release } => {
            assert_eq!(error, KernelError::UnexpectedReply { phase: Phase::Device });
            assert_eq!(release, vec![DeviceObject { kind: ObjectKind::Instance, handle: 1 }]);
        }
        other => panic!("the bootstrap should fail, but came to {:?}", other),
    }
}
