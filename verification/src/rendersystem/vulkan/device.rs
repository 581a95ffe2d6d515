//! The instance, the logical device with its queues, the command pools and
//! the allocator.

use crate::rendersystem::vulkan::command::{
    Command,
    DeviceInfo,
    Driver,
    Handle,
    InstanceInfo,
    Object,
    ObjectKind,
    Queue,
};
use crate::rendersystem::vulkan::gpu::{GpuInfo, REQUIRED_DEVICE_EXTENSION_COUNT};
use crate::rendersystem::vulkan::api;
use crate::rendersystem::vulkan::{State, FRAME_COUNT};
use vstd::prelude::*;

verus! {

/// The version of the engine that the driver is told.
pub const ENGINE_VERSION: u32 = 2;

/// The version of the API that the backend is written for: 1.3.0.
pub const API_VERSION: u32 = 0x0040_3000;

/// The version number that packs a variant, a major, a minor and a patch
/// number.
pub open spec fn packed_version(variant: u32, major: u32, minor: u32, patch: u32) -> u32 {
    (variant << 29) | (major << 22) | (minor << 12) | patch
}

/// `ash::vk::make_api_version` packs the four numbers into one: the variant
/// from bit 29 on, the major number from bit 22, the minor number from bit
/// 12, the patch number below; bits that do not fit are lost.
pub assume_specification[ ash::vk::make_api_version ](
    variant: u32,
    major: u32,
    minor: u32,
    patch: u32,
) -> (version: u32)
    ensures
        version == packed_version(variant, major, minor, patch),
;

/// `count` new objects of one kind.
pub open spec fn fresh(kind: ObjectKind, count: nat) -> Seq<Object> {
    Seq::new(count, |i: int| Object { kind, alive: true })
}

/// The `count` handles from `first` on.
pub open spec fn handles_from(first: int, count: nat) -> Seq<Handle> {
    Seq::new(count, |i: int| (first + i) as Handle)
}

/// The commands that allocate `count` command buffers from `pool`, under
/// the handles from `first` on.
pub open spec fn command_buffer_commands(first: int, pool: Handle, count: nat) -> Seq<Command> {
    Seq::new(
        count,
        |i: int| Command::AllocateCommandBuffer { command_buffer: (first + i) as Handle, pool },
    )
}

/// The commands that create the logical device on `gpu` under the handle
/// `device` and fetch its queues.
pub open spec fn device_commands(device: Handle, instance: Handle, gpu: GpuInfo) -> Seq<Command> {
    seq![
        Command::CreateDevice {
            device,
            instance,
            physical_device: gpu.device,
            device_info: State::device_info(gpu),
        },
        Command::GetDeviceQueue {
            device,
            queue: Queue { family_index: gpu.graphics_family_index, queue_index: 0 },
        },
        Command::GetDeviceQueue {
            device,
            queue: Queue { family_index: gpu.compute_family_index, queue_index: 0 },
        },
    ]
}

/// The commands that create the main command pool under the handle `pool`
/// and the transfer pool under the next.
pub open spec fn command_pool_commands(pool: Handle, queue_family_index: u32) -> Seq<Command> {
    seq![
        Command::CreateCommandPool {
            pool,
            flags: api::COMMAND_POOL_CREATE_RESET_COMMAND_BUFFER,
            queue_family_index,
        },
        Command::CreateCommandPool {
            pool: (pool + 1) as Handle,
            flags: api::COMMAND_POOL_CREATE_RESET_COMMAND_BUFFER
                | api::COMMAND_POOL_CREATE_TRANSIENT,
            queue_family_index,
        },
    ]
}

impl InstanceInfo {
    /// What to create the instance with after the attempt with `self` failed
    /// with `error`: the same without validation, if validation was asked for
    /// and the error says that a layer is missing; nothing otherwise, and the
    /// failure is final.
    pub fn fallback(&self, error: i32) -> (retry: Option<InstanceInfo>)
        ensures
            retry == if self.validation && error == api::ERROR_LAYER_NOT_PRESENT {
                Some(InstanceInfo { validation: false, ..*self })
            } else {
                None
            },
    {
        if self.validation && error == api::ERROR_LAYER_NOT_PRESENT {
            Some(
                InstanceInfo {
                    application_version: self.application_version,
                    engine_version: self.engine_version,
                    api_version: self.api_version,
                    validation: false,
                },
            )
        } else {
            None
        }
    }
}

/// The name under which the engine makes itself known to the driver.
pub fn engine_name() -> (name: &'static str)
    ensures
        name@ == "Purpl Engine"@,
{
    "Purpl Engine"
}

/// The layer that validates the calls, asked for where validation is.
pub fn validation_layer() -> (name: &'static str)
    ensures
        name@ == "VK_LAYER_KHRONOS_validation"@,
{
    "VK_LAYER_KHRONOS_validation"
}

/// The instance extensions that are asked for: surfaces, surfaces of the X
/// server and, with validation, the messages of the validation layers.
pub open spec fn required_instance_extensions(validation: bool) -> Seq<Seq<char>> {
    if validation {
        seq!["VK_KHR_surface"@, "VK_EXT_debug_utils"@, "VK_KHR_xcb_surface"@]
    } else {
        seq!["VK_KHR_surface"@, "VK_KHR_xcb_surface"@]
    }
}

/// The names of the instance extensions that are asked for, in order.
pub fn instance_extensions(validation: bool) -> (names: Vec<&'static str>)
    ensures
        names@.len() == required_instance_extensions(validation).len(),
        forall|i: int|
            0 <= i < names@.len() ==> (#[trigger] names@[i])@ == required_instance_extensions(
                validation,
            )[i],
{
    let mut names: Vec<&'static str> = Vec::new();
    names.push("VK_KHR_surface");
    if validation {
        names.push("VK_EXT_debug_utils");
    }
    names.push("VK_KHR_xcb_surface");
    names
}

impl State {
    /// What the instance is created with, for an application of the given
    /// version.
    pub open spec fn instance_info(major: u8, minor: u8, patch: u8, validation: bool) -> InstanceInfo {
        InstanceInfo {
            application_version: packed_version(0, major as u32, minor as u32, patch as u32),
            engine_version: ENGINE_VERSION,
            api_version: API_VERSION,
            validation,
        }
    }

    /// Creates the instance, for an application of the given version and for
    /// version 1.3.0 of the API, with or without the validation layers.
    pub fn create_instance(
        driver: &mut Driver,
        major: u8,
        minor: u8,
        patch: u8,
        validation: bool,
    ) -> (instance: Handle)
        ensures
            instance == old(driver).objects().len(),
            final(driver).objects() == old(driver).objects().push(
                Object { kind: ObjectKind::Instance, alive: true },
            ),
            final(driver).commands() == old(driver).commands().push(
                Command::CreateInstance {
                    instance,
                    instance_info: Self::instance_info(major, minor, patch, validation),
                },
            ),
    {
        let api_version = ash::vk::make_api_version(0, 1, 3, 0);
        assert(packed_version(0, 1, 3, 0) == 0x0040_3000u32) by (bit_vector);
        let info = InstanceInfo {
            application_version: ash::vk::make_api_version(
                0,
                major as u32,
                minor as u32,
                patch as u32,
            ),
            engine_version: ENGINE_VERSION,
            api_version,
            validation,
        };
        let instance = driver.create(ObjectKind::Instance);
        driver.record(Command::CreateInstance { instance, instance_info: info });
        instance
    }

    /// What the logical device is created with on `gpu`: one queue of its
    /// graphics family and, where the compute family is another one, one of
    /// that; dynamic rendering; the required extensions.
    pub open spec fn device_info(gpu: GpuInfo) -> DeviceInfo {
        DeviceInfo {
            queue_family_count: if gpu.graphics_family_index != gpu.compute_family_index {
                2
            } else {
                1
            },
            queue_families: [gpu.graphics_family_index, gpu.compute_family_index],
            dynamic_rendering: true,
            extension_count: REQUIRED_DEVICE_EXTENSION_COUNT,
        }
    }

    /// Creates the logical device on `gpu` and fetches the first queue of
    /// its graphics family and the first of its compute family.
    pub fn create_device(driver: &mut Driver, instance: Handle, gpu: &GpuInfo) -> (made: (
        Handle,
        Queue,
        Queue,
    ))
        requires
            old(driver).has(instance, ObjectKind::Instance),
        ensures
            made.0 == old(driver).objects().len(),
            made.1 == (Queue { family_index: gpu.graphics_family_index, queue_index: 0 }),
            made.2 == (Queue { family_index: gpu.compute_family_index, queue_index: 0 }),
            final(driver).objects() == old(driver).objects().push(
                Object { kind: ObjectKind::Device, alive: true },
            ),
            final(driver).commands() == old(driver).commands() + device_commands(
                made.0,
                instance,
                *gpu,
            ),
    {
        let info = DeviceInfo {
            queue_family_count: if gpu.graphics_family_index != gpu.compute_family_index {
                2
            } else {
                1
            },
            queue_families: [gpu.graphics_family_index, gpu.compute_family_index],
            dynamic_rendering: true,
            extension_count: REQUIRED_DEVICE_EXTENSION_COUNT,
        };
        let device = driver.create(ObjectKind::Device);
        driver.record(
            Command::CreateDevice {
                device,
                instance,
                physical_device: gpu.device,
                device_info: info,
            },
        );
        let graphics_queue = Queue { family_index: gpu.graphics_family_index, queue_index: 0 };
        let compute_queue = Queue { family_index: gpu.compute_family_index, queue_index: 0 };
        driver.record(Command::GetDeviceQueue { device, queue: graphics_queue });
        driver.record(Command::GetDeviceQueue { device, queue: compute_queue });
        proof {
            assert(driver.commands() =~= old(driver).commands() + device_commands(
                device,
                instance,
                *gpu,
            ));
        }
        (device, graphics_queue, compute_queue)
    }

    /// Creates the two command pools, both on the graphics family of `gpu`:
    /// the main pool, whose command buffers can be reset one by one, and the
    /// transfer pool, which is for short-lived command buffers besides.
    pub fn create_cmd_pools(driver: &mut Driver, gpu: &GpuInfo) -> (pools: (Handle, Handle))
        ensures
            pools.0 == old(driver).objects().len(),
            pools.1 == pools.0 + 1,
            final(driver).objects() == old(driver).objects() + fresh(ObjectKind::CommandPool, 2),
            final(driver).commands() == old(driver).commands() + command_pool_commands(
                pools.0,
                gpu.graphics_family_index,
            ),
    {
        let main_pool = driver.create(ObjectKind::CommandPool);
        driver.record(
            Command::CreateCommandPool {
                pool: main_pool,
                flags: api::COMMAND_POOL_CREATE_RESET_COMMAND_BUFFER,
                queue_family_index: gpu.graphics_family_index,
            },
        );
        let transfer_pool = driver.create(ObjectKind::CommandPool);
        driver.record(
            Command::CreateCommandPool {
                pool: transfer_pool,
                flags: api::COMMAND_POOL_CREATE_RESET_COMMAND_BUFFER
                    | api::COMMAND_POOL_CREATE_TRANSIENT,
                queue_family_index: gpu.graphics_family_index,
            },
        );
        proof {
            assert(driver.objects() =~= old(driver).objects() + fresh(ObjectKind::CommandPool, 2));
            assert(driver.commands() =~= old(driver).commands() + command_pool_commands(
                main_pool,
                gpu.graphics_family_index,
            ));
        }
        (main_pool, transfer_pool)
    }

    /// Allocates one primary command buffer for each frame slot from
    /// `cmd_pool`.
    pub fn allocate_command_buffers(driver: &mut Driver, cmd_pool: Handle) -> (buffers: Vec<
        Handle,
    >)
        requires
            old(driver).has(cmd_pool, ObjectKind::CommandPool),
        ensures
            buffers@ == handles_from(old(driver).objects().len() as int, FRAME_COUNT as nat),
            final(driver).objects() == old(driver).objects() + fresh(
                ObjectKind::CommandBuffer,
                FRAME_COUNT as nat,
            ),
            final(driver).commands() == old(driver).commands() + command_buffer_commands(
                old(driver).objects().len() as int,
                cmd_pool,
                FRAME_COUNT as nat,
            ),
    {
        let ghost first: int = driver.objects().len() as int;
        let ghost before = *driver;
        let mut buffers: Vec<Handle> = Vec::new();
        let mut i: usize = 0;
        proof {
            assert(driver.objects() =~= before.objects() + fresh(ObjectKind::CommandBuffer, 0));
            assert(driver.commands() =~= before.commands() + command_buffer_commands(
                first,
                cmd_pool,
                0,
            ));
        }
        while i < FRAME_COUNT
            invariant
                i <= FRAME_COUNT,
                first == before.objects().len(),
                buffers@ == handles_from(first, i as nat),
                driver.objects() == before.objects() + fresh(ObjectKind::CommandBuffer, i as nat),
                driver.commands() == before.commands() + command_buffer_commands(
                    first,
                    cmd_pool,
                    i as nat,
                ),
            decreases FRAME_COUNT - i,
        {
            let command_buffer = driver.create(ObjectKind::CommandBuffer);
            driver.record(Command::AllocateCommandBuffer { command_buffer, pool: cmd_pool });
            buffers.push(command_buffer);
            i += 1;
            proof {
                assert(buffers@ =~= handles_from(first, i as nat));
                assert(driver.objects() =~= before.objects() + fresh(
                    ObjectKind::CommandBuffer,
                    i as nat,
                ));
                assert(driver.commands() =~= before.commands() + command_buffer_commands(
                    first,
                    cmd_pool,
                    i as nat,
                ));
            }
        }
        buffers
    }

    /// Creates the allocator for the memory of the device.
    pub fn create_allocator(
        driver: &mut Driver,
        instance: Handle,
        device: Handle,
        physical_device: u64,
    ) -> (allocator: Handle)
        requires
            old(driver).has(instance, ObjectKind::Instance),
            old(driver).has(device, ObjectKind::Device),
        ensures
            allocator == old(driver).objects().len(),
            final(driver).objects() == old(driver).objects().push(
                Object { kind: ObjectKind::Allocator, alive: true },
            ),
            final(driver).commands() == old(driver).commands().push(
                Command::CreateAllocator { allocator, instance, device, physical_device },
            ),
    {
        let allocator = driver.create(ObjectKind::Allocator);
        driver.record(Command::CreateAllocator { allocator, instance, device, physical_device });
        allocator
    }
}

} // verus!
