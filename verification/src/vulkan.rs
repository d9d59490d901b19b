use vstd::prelude::*;

verus! {

/// `vk::BufferUsageFlags::STORAGE_BUFFER` as the device reads it.
///
/// Trusted: `BufferUsageFlags::as_raw` hands back the wrapped bits, and ash defines this
/// flag as bit 5.
#[verifier::external_body]
pub(crate) fn storage_buffer_usage() -> (bits: u32)
    ensures
        bits == 0x20,
{
    ash::vk::BufferUsageFlags::STORAGE_BUFFER.as_raw()
}

/// `vk::MemoryPropertyFlags::HOST_VISIBLE` as the device reads it.
///
/// Trusted: `MemoryPropertyFlags::as_raw` hands back the wrapped bits, and ash defines this
/// flag as bit 1.
#[verifier::external_body]
pub(crate) fn host_visible() -> (bits: u32)
    ensures
        bits == 0x2,
{
    ash::vk::MemoryPropertyFlags::HOST_VISIBLE.as_raw()
}

/// `vk::MemoryPropertyFlags::HOST_COHERENT` as the device reads it.
///
/// Trusted: `MemoryPropertyFlags::as_raw` hands back the wrapped bits, and ash defines this
/// flag as bit 2.
#[verifier::external_body]
pub(crate) fn host_coherent() -> (bits: u32)
    ensures
        bits == 0x4,
{
    ash::vk::MemoryPropertyFlags::HOST_COHERENT.as_raw()
}

/// `vk::DescriptorType::STORAGE_BUFFER` as the device reads it.
///
/// Trusted: `DescriptorType::as_raw` hands back the wrapped number, which ash defines as 7.
#[verifier::external_body]
pub(crate) fn storage_buffer_descriptor() -> (raw: i32)
    ensures
        raw == 7,
{
    ash::vk::DescriptorType::STORAGE_BUFFER.as_raw()
}

/// `vk::ShaderStageFlags::COMPUTE` as the device reads it.
///
/// Trusted: `ShaderStageFlags::as_raw` hands back the wrapped bits, and ash defines this
/// flag as bit 5.
#[verifier::external_body]
pub(crate) fn compute_stage() -> (bits: u32)
    ensures
        bits == 0x20,
{
    ash::vk::ShaderStageFlags::COMPUTE.as_raw()
}

/// `vk::PipelineBindPoint::COMPUTE` as the device reads it.
///
/// Trusted: `PipelineBindPoint::as_raw` hands back the wrapped number, which ash defines as 1.
#[verifier::external_body]
pub(crate) fn compute_bind_point() -> (raw: i32)
    ensures
        raw == 1,
{
    ash::vk::PipelineBindPoint::COMPUTE.as_raw()
}

/// `vk::API_VERSION_1_1`, the version of the interface that the context asks for.
///
/// Trusted: ash defines the constant as `make_api_version(0, 1, 1, 0)`, which puts the
/// major number at bit 22 and the minor number at bit 12.
#[verifier::external_body]
pub(crate) fn api_version_1_1() -> (version: u32)
    ensures
        version == 0x40_1000,
{
    ash::vk::API_VERSION_1_1
}

/// `vk::CommandBufferLevel::PRIMARY` as the device reads it.
///
/// Trusted: `CommandBufferLevel::as_raw` hands back the wrapped number, which ash defines
/// as 0.
#[verifier::external_body]
pub(crate) fn primary_level() -> (raw: i32)
    ensures
        raw == 0,
{
    ash::vk::CommandBufferLevel::PRIMARY.as_raw()
}

/// `vk::DescriptorPoolCreateFlags::FREE_DESCRIPTOR_SET` as the device reads it.
///
/// Trusted: `DescriptorPoolCreateFlags::as_raw` hands back the wrapped bits, and ash
/// defines this flag as bit 0.
#[verifier::external_body]
pub(crate) fn free_descriptor_set() -> (bits: u32)
    ensures
        bits == 0x1,
{
    ash::vk::DescriptorPoolCreateFlags::FREE_DESCRIPTOR_SET.as_raw()
}

/// `vk::Result::TIMEOUT` as the device gives it.
///
/// Trusted: `Result::as_raw` hands back the wrapped number, which ash defines as 2.
#[verifier::external_body]
pub(crate) fn timeout_code() -> (raw: i32)
    ensures
        raw == 2,
{
    ash::vk::Result::TIMEOUT.as_raw()
}

} // verus!
