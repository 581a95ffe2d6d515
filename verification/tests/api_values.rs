use ash::vk;
use ash::extensions::{ext, khr};
use purpl_render::rendersystem::vulkan::api;
use purpl_render::rendersystem::vulkan::device::{
    engine_name, instance_extensions, validation_layer,
};
use purpl_render::rendersystem::vulkan::gpu::QueueFamily;

#[test]
fn formats_and_modes_are_those_of_the_api() {
    assert_eq!(api::FORMAT_UNDEFINED, vk::Format::UNDEFINED.as_raw());
    assert_eq!(api::FORMAT_B8G8R8A8_UNORM, vk::Format::B8G8R8A8_UNORM.as_raw());
    assert_eq!(api::FORMAT_D24_UNORM_S8_UINT, vk::Format::D24_UNORM_S8_UINT.as_raw());
    assert_eq!(api::FORMAT_D32_SFLOAT_S8_UINT, vk::Format::D32_SFLOAT_S8_UINT.as_raw());
    assert_eq!(api::COLOR_SPACE_SRGB_NONLINEAR, vk::ColorSpaceKHR::SRGB_NONLINEAR.as_raw());
    assert_eq!(api::PRESENT_MODE_MAILBOX, vk::PresentModeKHR::MAILBOX.as_raw());
    assert_eq!(api::PRESENT_MODE_FIFO, vk::PresentModeKHR::FIFO.as_raw());
    assert_eq!(api::IMAGE_TILING_OPTIMAL, vk::ImageTiling::OPTIMAL.as_raw());
    assert_eq!(api::IMAGE_TILING_LINEAR, vk::ImageTiling::LINEAR.as_raw());
    assert_eq!(api::IMAGE_TYPE_2D, vk::ImageType::TYPE_2D.as_raw());
    assert_eq!(api::IMAGE_VIEW_TYPE_2D, vk::ImageViewType::TYPE_2D.as_raw());
    assert_eq!(api::SHARING_MODE_EXCLUSIVE, vk::SharingMode::EXCLUSIVE.as_raw());
    assert_eq!(api::SHARING_MODE_CONCURRENT, vk::SharingMode::CONCURRENT.as_raw());
    assert_eq!(api::DESCRIPTOR_TYPE_UNIFORM_BUFFER, vk::DescriptorType::UNIFORM_BUFFER.as_raw());
    assert_eq!(api::ERROR_LAYER_NOT_PRESENT, vk::Result::ERROR_LAYER_NOT_PRESENT.as_raw());
}

#[test]
fn component_swizzles_are_those_of_the_api() {
    assert_eq!(api::COMPONENT_SWIZZLE_R, vk::ComponentSwizzle::R.as_raw());
    assert_eq!(api::COMPONENT_SWIZZLE_G, vk::ComponentSwizzle::G.as_raw());
    assert_eq!(api::COMPONENT_SWIZZLE_B, vk::ComponentSwizzle::B.as_raw());
    assert_eq!(api::COMPONENT_SWIZZLE_A, vk::ComponentSwizzle::A.as_raw());
}

#[test]
fn device_types_are_those_of_the_api() {
    assert_eq!(api::DEVICE_TYPE_OTHER, vk::PhysicalDeviceType::OTHER.as_raw());
    assert_eq!(api::DEVICE_TYPE_INTEGRATED_GPU, vk::PhysicalDeviceType::INTEGRATED_GPU.as_raw());
    assert_eq!(api::DEVICE_TYPE_DISCRETE_GPU, vk::PhysicalDeviceType::DISCRETE_GPU.as_raw());
    assert_eq!(api::DEVICE_TYPE_VIRTUAL_GPU, vk::PhysicalDeviceType::VIRTUAL_GPU.as_raw());
    assert_eq!(api::DEVICE_TYPE_CPU, vk::PhysicalDeviceType::CPU.as_raw());
}

#[test]
fn flag_bits_are_those_of_the_api() {
    assert_eq!(api::QUEUE_GRAPHICS, vk::QueueFlags::GRAPHICS.as_raw());
    assert_eq!(api::QUEUE_COMPUTE, vk::QueueFlags::COMPUTE.as_raw());
    assert_eq!(api::IMAGE_USAGE_TRANSFER_SRC, vk::ImageUsageFlags::TRANSFER_SRC.as_raw());
    assert_eq!(api::IMAGE_USAGE_COLOR_ATTACHMENT, vk::ImageUsageFlags::COLOR_ATTACHMENT.as_raw());
    assert_eq!(
        api::IMAGE_USAGE_DEPTH_STENCIL_ATTACHMENT,
        vk::ImageUsageFlags::DEPTH_STENCIL_ATTACHMENT.as_raw()
    );
    assert_eq!(api::IMAGE_ASPECT_COLOR, vk::ImageAspectFlags::COLOR.as_raw());
    assert_eq!(api::IMAGE_ASPECT_DEPTH, vk::ImageAspectFlags::DEPTH.as_raw());
    assert_eq!(api::SAMPLE_COUNT_1, vk::SampleCountFlags::TYPE_1.as_raw());
    assert_eq!(api::COMMAND_POOL_CREATE_TRANSIENT, vk::CommandPoolCreateFlags::TRANSIENT.as_raw());
    assert_eq!(
        api::COMMAND_POOL_CREATE_RESET_COMMAND_BUFFER,
        vk::CommandPoolCreateFlags::RESET_COMMAND_BUFFER.as_raw()
    );
    assert_eq!(
        api::COMMAND_BUFFER_USAGE_ONE_TIME_SUBMIT,
        vk::CommandBufferUsageFlags::ONE_TIME_SUBMIT.as_raw()
    );
    assert_eq!(api::BUFFER_USAGE_TRANSFER_SRC, vk::BufferUsageFlags::TRANSFER_SRC.as_raw());
    assert_eq!(api::BUFFER_USAGE_TRANSFER_DST, vk::BufferUsageFlags::TRANSFER_DST.as_raw());
    assert_eq!(api::BUFFER_USAGE_UNIFORM_BUFFER, vk::BufferUsageFlags::UNIFORM_BUFFER.as_raw());
    assert_eq!(api::BUFFER_USAGE_INDEX_BUFFER, vk::BufferUsageFlags::INDEX_BUFFER.as_raw());
    assert_eq!(api::BUFFER_USAGE_VERTEX_BUFFER, vk::BufferUsageFlags::VERTEX_BUFFER.as_raw());
    assert_eq!(api::MEMORY_PROPERTY_DEVICE_LOCAL, vk::MemoryPropertyFlags::DEVICE_LOCAL.as_raw());
    assert_eq!(api::MEMORY_PROPERTY_HOST_VISIBLE, vk::MemoryPropertyFlags::HOST_VISIBLE.as_raw());
    assert_eq!(api::MEMORY_PROPERTY_HOST_COHERENT, vk::MemoryPropertyFlags::HOST_COHERENT.as_raw());
    assert_eq!(
        api::FORMAT_FEATURE_DEPTH_STENCIL_ATTACHMENT,
        vk::FormatFeatureFlags::DEPTH_STENCIL_ATTACHMENT.as_raw()
    );
    assert_eq!(api::SHADER_STAGE_VERTEX, vk::ShaderStageFlags::VERTEX.as_raw());
    assert_eq!(api::SHADER_STAGE_FRAGMENT, vk::ShaderStageFlags::FRAGMENT.as_raw());
    assert_eq!(
        api::DESCRIPTOR_POOL_CREATE_FREE_DESCRIPTOR_SET,
        vk::DescriptorPoolCreateFlags::FREE_DESCRIPTOR_SET.as_raw()
    );
    assert_eq!(
        api::PIPELINE_STAGE_COLOR_ATTACHMENT_OUTPUT,
        vk::PipelineStageFlags::COLOR_ATTACHMENT_OUTPUT.as_raw()
    );
    assert_eq!(api::SURFACE_TRANSFORM_IDENTITY, vk::SurfaceTransformFlagsKHR::IDENTITY.as_raw());
    assert_eq!(api::COMPOSITE_ALPHA_OPAQUE, vk::CompositeAlphaFlagsKHR::OPAQUE.as_raw());
}

#[test]
fn debug_bits_are_those_of_the_api() {
    assert_eq!(
        api::DEBUG_SEVERITY_VERBOSE,
        vk::DebugUtilsMessageSeverityFlagsEXT::VERBOSE.as_raw()
    );
    assert_eq!(api::DEBUG_SEVERITY_INFO, vk::DebugUtilsMessageSeverityFlagsEXT::INFO.as_raw());
    assert_eq!(
        api::DEBUG_SEVERITY_WARNING,
        vk::DebugUtilsMessageSeverityFlagsEXT::WARNING.as_raw()
    );
    assert_eq!(api::DEBUG_SEVERITY_ERROR, vk::DebugUtilsMessageSeverityFlagsEXT::ERROR.as_raw());
    assert_eq!(api::DEBUG_TYPE_GENERAL, vk::DebugUtilsMessageTypeFlagsEXT::GENERAL.as_raw());
    assert_eq!(api::DEBUG_TYPE_VALIDATION, vk::DebugUtilsMessageTypeFlagsEXT::VALIDATION.as_raw());
    assert_eq!(
        api::DEBUG_TYPE_PERFORMANCE,
        vk::DebugUtilsMessageTypeFlagsEXT::PERFORMANCE.as_raw()
    );
}

#[test]
fn queue_capability_test_agrees_with_the_api() {
    for flags in 0u32..16 {
        for wanted in 0u32..16 {
            let family = QueueFamily { queue_flags: flags, queue_count: 1 };
            assert_eq!(
                family.has(wanted),
                vk::QueueFlags::from_raw(flags).contains(vk::QueueFlags::from_raw(wanted))
            );
        }
    }
}

#[test]
fn instance_extensions_are_those_of_the_api() {
    let surface = khr::Surface::name().to_str().unwrap();
    let xcb = khr::XcbSurface::name().to_str().unwrap();
    let debug = ext::DebugUtils::name().to_str().unwrap();
    assert_eq!(instance_extensions(false), vec![surface, xcb]);
    assert_eq!(instance_extensions(true), vec![surface, debug, xcb]);
    assert_eq!(validation_layer(), "VK_LAYER_KHRONOS_validation");
    assert_eq!(engine_name(), "Purpl Engine");
}
