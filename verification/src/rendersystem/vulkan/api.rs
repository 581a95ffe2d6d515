//! The values of the Vulkan API that the backend works with, under the names
//! that the API gives them.

use vstd::prelude::*;

verus! {

pub const QUEUE_GRAPHICS: u32 = 0x1;

pub const QUEUE_COMPUTE: u32 = 0x2;

pub const DEVICE_TYPE_OTHER: i32 = 0;

pub const DEVICE_TYPE_INTEGRATED_GPU: i32 = 1;

pub const DEVICE_TYPE_DISCRETE_GPU: i32 = 2;

pub const DEVICE_TYPE_VIRTUAL_GPU: i32 = 3;

pub const DEVICE_TYPE_CPU: i32 = 4;

pub const ERROR_LAYER_NOT_PRESENT: i32 = -6;

pub const FORMAT_UNDEFINED: i32 = 0;

pub const FORMAT_B8G8R8A8_UNORM: i32 = 44;

pub const FORMAT_D24_UNORM_S8_UINT: i32 = 129;

pub const FORMAT_D32_SFLOAT_S8_UINT: i32 = 130;

pub const COLOR_SPACE_SRGB_NONLINEAR: i32 = 0;

pub const PRESENT_MODE_MAILBOX: i32 = 1;

pub const PRESENT_MODE_FIFO: i32 = 2;

pub const IMAGE_TILING_OPTIMAL: i32 = 0;

pub const IMAGE_TILING_LINEAR: i32 = 1;

pub const IMAGE_TYPE_2D: i32 = 1;

pub const IMAGE_VIEW_TYPE_2D: i32 = 1;

pub const COMPONENT_SWIZZLE_R: i32 = 3;

pub const COMPONENT_SWIZZLE_G: i32 = 4;

pub const COMPONENT_SWIZZLE_B: i32 = 5;

pub const COMPONENT_SWIZZLE_A: i32 = 6;

pub const SHARING_MODE_EXCLUSIVE: i32 = 0;

pub const SHARING_MODE_CONCURRENT: i32 = 1;

pub const DESCRIPTOR_TYPE_UNIFORM_BUFFER: i32 = 6;

pub const IMAGE_USAGE_TRANSFER_SRC: u32 = 0x1;

pub const IMAGE_USAGE_COLOR_ATTACHMENT: u32 = 0x10;

pub const IMAGE_USAGE_DEPTH_STENCIL_ATTACHMENT: u32 = 0x20;

pub const IMAGE_ASPECT_COLOR: u32 = 0x1;

pub const IMAGE_ASPECT_DEPTH: u32 = 0x2;

pub const SAMPLE_COUNT_1: u32 = 0x1;

pub const COMMAND_POOL_CREATE_TRANSIENT: u32 = 0x1;

pub const COMMAND_POOL_CREATE_RESET_COMMAND_BUFFER: u32 = 0x2;

pub const COMMAND_BUFFER_USAGE_ONE_TIME_SUBMIT: u32 = 0x1;

pub const BUFFER_USAGE_TRANSFER_SRC: u32 = 0x1;

pub const BUFFER_USAGE_TRANSFER_DST: u32 = 0x2;

pub const BUFFER_USAGE_UNIFORM_BUFFER: u32 = 0x10;

pub const BUFFER_USAGE_INDEX_BUFFER: u32 = 0x40;

pub const BUFFER_USAGE_VERTEX_BUFFER: u32 = 0x80;

pub const MEMORY_PROPERTY_DEVICE_LOCAL: u32 = 0x1;

pub const MEMORY_PROPERTY_HOST_VISIBLE: u32 = 0x2;

pub const MEMORY_PROPERTY_HOST_COHERENT: u32 = 0x4;

pub const FORMAT_FEATURE_DEPTH_STENCIL_ATTACHMENT: u32 = 0x200;

pub const SHADER_STAGE_VERTEX: u32 = 0x1;

pub const SHADER_STAGE_FRAGMENT: u32 = 0x10;

pub const DESCRIPTOR_POOL_CREATE_FREE_DESCRIPTOR_SET: u32 = 0x1;

pub const PIPELINE_STAGE_COLOR_ATTACHMENT_OUTPUT: u32 = 0x400;

pub const SURFACE_TRANSFORM_IDENTITY: u32 = 0x1;

pub const COMPOSITE_ALPHA_OPAQUE: u32 = 0x1;

pub const DEBUG_SEVERITY_VERBOSE: u32 = 0x1;

pub const DEBUG_SEVERITY_INFO: u32 = 0x10;

pub const DEBUG_SEVERITY_WARNING: u32 = 0x100;

pub const DEBUG_SEVERITY_ERROR: u32 = 0x1000;

pub const DEBUG_TYPE_GENERAL: u32 = 0x1;

pub const DEBUG_TYPE_VALIDATION: u32 = 0x2;

pub const DEBUG_TYPE_PERFORMANCE: u32 = 0x4;

} // verus!
