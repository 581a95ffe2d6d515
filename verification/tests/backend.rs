use purpl_render::rendersystem::vulkan::api;
use purpl_render::rendersystem::vulkan::command::{
    AllocationInfo, BufferInfo, Command, DeviceInfo, Extent2D, Extent3D, ImageInfo, ImageSource,
    ImageViewInfo, InstanceInfo, MemoryUsage, ObjectKind, Queue, SwapchainInfo,
};
use purpl_render::rendersystem::vulkan::gpu::{
    get_gpus, DeviceProbe, FormatProperties, GpuInfo, QueueFamily, SurfaceCapabilities,
    SurfaceFormat,
};
use purpl_render::rendersystem::vulkan::State;
use purpl_render::video;

fn single_gpu() -> Vec<GpuInfo> {
    get_gpus(vec![DeviceProbe {
        device: 0xabc,
        queue_families: vec![QueueFamily {
            queue_flags: api::QUEUE_GRAPHICS | api::QUEUE_COMPUTE,
            queue_count: 1,
        }],
        extension_count: Some(1),
        surface_capabilities: Some(SurfaceCapabilities { min_image_count: 2, max_image_count: 8 }),
        surface_formats: Some(vec![SurfaceFormat {
            format: api::FORMAT_B8G8R8A8_UNORM,
            color_space: api::COLOR_SPACE_SRGB_NONLINEAR,
        }]),
        present_modes: Some(vec![api::PRESENT_MODE_FIFO]),
        memory_heap_size: 8_000_000_000,
        max_viewport_dimensions: [16384, 16384],
        device_type: api::DEVICE_TYPE_DISCRETE_GPU,
        format_properties: vec![
            FormatProperties {
                format: api::FORMAT_D32_SFLOAT_S8_UINT,
                linear_tiling_features: 0,
                optimal_tiling_features: 0,
            },
            FormatProperties {
                format: api::FORMAT_D24_UNORM_S8_UINT,
                linear_tiling_features: 0,
                optimal_tiling_features: api::FORMAT_FEATURE_DEPTH_STENCIL_ATTACHMENT,
            },
        ],
    }])
}

fn window(width: u16, height: u16) -> video::State {
    let mut window = video::State::init(1080);
    window.update(Some(video::Event::Configure { width, height }));
    window
}

fn initialized(width: u16, height: u16) -> State {
    let mut state = State::new(1, 2, 3, false);
    state.init(single_gpu(), &window(width, height));
    state
}

fn color_view(view: usize, swapchain: usize, index: u32) -> Command {
    Command::CreateImageView {
        view,
        view_info: ImageViewInfo {
            image: ImageSource::SwapchainImage { swapchain, index },
            view_type: api::IMAGE_VIEW_TYPE_2D,
            format: api::FORMAT_B8G8R8A8_UNORM,
            components: [3, 4, 5, 6],
            aspect_mask: api::IMAGE_ASPECT_COLOR,
            base_mip_level: 0,
            level_count: 1,
            base_array_layer: 0,
            layer_count: 1,
        },
    }
}

fn swapchain(swapchain: usize, width: u32, height: u32) -> Command {
    Command::CreateSwapchain {
        swapchain,
        swapchain_info: SwapchainInfo {
            surface: 1,
            min_image_count: 3,
            image_format: api::FORMAT_B8G8R8A8_UNORM,
            image_color_space: api::COLOR_SPACE_SRGB_NONLINEAR,
            image_extent: Extent2D { width, height },
            image_array_layers: 1,
            image_usage: 0x11,
            image_sharing_mode: api::SHARING_MODE_EXCLUSIVE,
            queue_family_index_count: 0,
            queue_family_indices: [0, 0],
            pre_transform: 1,
            composite_alpha: 1,
            present_mode: api::PRESENT_MODE_FIFO,
            clipped: true,
        },
    }
}

fn depth_image(image: usize, width: u32, height: u32) -> Vec<Command> {
    vec![
        Command::CreateImage {
            image,
            allocation: image + 1,
            image_info: ImageInfo {
                image_type: api::IMAGE_TYPE_2D,
                format: api::FORMAT_D24_UNORM_S8_UINT,
                extent: Extent3D { width, height, depth: 1 },
                mip_levels: 1,
                array_layers: 1,
                samples: 1,
                tiling: api::IMAGE_TILING_OPTIMAL,
                usage: api::IMAGE_USAGE_DEPTH_STENCIL_ATTACHMENT,
            },
            memory: AllocationInfo { usage: MemoryUsage::AutoPreferDevice, required_flags: 0 },
        },
        Command::CreateImageView {
            view: image + 2,
            view_info: ImageViewInfo {
                image: ImageSource::Image(image),
                view_type: api::IMAGE_VIEW_TYPE_2D,
                format: api::FORMAT_D24_UNORM_S8_UINT,
                components: [0, 0, 0, 0],
                aspect_mask: api::IMAGE_ASPECT_DEPTH,
                base_mip_level: 0,
                level_count: 1,
                base_array_layer: 0,
                layer_count: 1,
            },
        },
    ]
}

fn uniform_buffer(buffer: usize) -> Vec<Command> {
    vec![
        Command::CreateBuffer {
            buffer,
            allocation: buffer + 1,
            buffer_info: BufferInfo {
                size: 384,
                usage: api::BUFFER_USAGE_UNIFORM_BUFFER,
                sharing_mode: api::SHARING_MODE_EXCLUSIVE,
            },
            memory: AllocationInfo { usage: MemoryUsage::Unknown, required_flags: 0x6 },
        },
        Command::MapMemory { allocation: buffer + 1 },
    ]
}

fn destroy(kind: ObjectKind, handle: usize) -> Command {
    Command::Destroy { kind, handle }
}

const GRAPHICS: Queue = Queue { family_index: 0, queue_index: 0 };

#[test]
fn new_backend_records_the_instance_and_the_surface() {
    let mut state = State::new(1, 2, 3, true);
    assert!(!state.is_initialized());
    assert!(!state.is_loaded());
    assert!(!state.is_in_frame());
    assert_eq!(state.live_objects(), 2);
    assert_eq!(
        state.take_commands(),
        vec![
            Command::CreateInstance {
                instance: 0,
                instance_info: InstanceInfo {
                    application_version: ash::vk::make_api_version(0, 1, 2, 3),
                    engine_version: 2,
                    api_version: ash::vk::API_VERSION_1_3,
                    validation: true,
                },
            },
            Command::CreateSurface { surface: 1, instance: 0 },
        ]
    );
    assert!(state.take_commands().is_empty());
}

#[test]
fn application_version_is_packed() {
    let mut state = State::new(1, 2, 3, false);
    match state.take_commands()[0] {
        Command::CreateInstance { instance_info, .. } => {
            assert_eq!(instance_info.application_version, (1 << 22) | (2 << 12) | 3);
            assert_eq!(instance_info.api_version, (1 << 22) | (3 << 12));
        }
        _ => panic!("the first command creates the instance"),
    }
}

#[test]
fn instance_is_retried_without_validation_when_a_layer_is_missing() {
    let info = InstanceInfo {
        application_version: 7,
        engine_version: 2,
        api_version: 9,
        validation: true,
    };
    assert_eq!(
        info.fallback(api::ERROR_LAYER_NOT_PRESENT),
        Some(InstanceInfo { validation: false, ..info })
    );
    assert_eq!(info.fallback(-1), None);
    assert_eq!(info.fallback(0), None);
    let plain = InstanceInfo { validation: false, ..info };
    assert_eq!(plain.fallback(api::ERROR_LAYER_NOT_PRESENT), None);
}

#[test]
fn initialization_records_everything_in_order() {
    let mut state = State::new(0, 1, 0, false);
    state.take_commands();
    state.init(single_gpu(), &window(1280, 720));
    assert!(state.is_initialized());
    assert!(!state.is_loaded());
    assert!(!state.is_in_frame());
    assert_eq!(state.gpu(), 0);
    assert_eq!(state.gpus().len(), 1);
    assert_eq!(state.frame_index(), 0);
    assert_eq!(state.swapchain_extent(), Extent2D { width: 1280, height: 720 });
    assert_eq!(state.live_objects(), 36);

    let mut expected = vec![
        Command::CreateDevice {
            device: 2,
            instance: 0,
            physical_device: 0xabc,
            device_info: DeviceInfo {
                queue_family_count: 1,
                queue_families: [0, 0],
                dynamic_rendering: true,
                extension_count: 1,
            },
        },
        Command::GetDeviceQueue { device: 2, queue: GRAPHICS },
        Command::GetDeviceQueue { device: 2, queue: GRAPHICS },
        Command::CreateCommandPool { pool: 3, flags: 0x2, queue_family_index: 0 },
        Command::CreateCommandPool { pool: 4, flags: 0x3, queue_family_index: 0 },
        Command::AllocateCommandBuffer { command_buffer: 5, pool: 3 },
        Command::AllocateCommandBuffer { command_buffer: 6, pool: 3 },
        Command::AllocateCommandBuffer { command_buffer: 7, pool: 3 },
        Command::CreateAllocator { allocator: 8, instance: 0, device: 2, physical_device: 0xabc },
        Command::CreateFence { fence: 9, signaled: true },
        Command::CreateFence { fence: 10, signaled: true },
        Command::CreateFence { fence: 11, signaled: true },
        Command::CreateSemaphore { semaphore: 12 },
        Command::CreateSemaphore { semaphore: 13 },
        Command::CreateSemaphore { semaphore: 14 },
        Command::CreateSemaphore { semaphore: 15 },
        Command::CreateSemaphore { semaphore: 16 },
        Command::CreateSemaphore { semaphore: 17 },
        swapchain(18, 1280, 720),
        color_view(19, 18, 0),
        color_view(20, 18, 1),
        color_view(21, 18, 2),
    ];
    expected.extend(depth_image(22, 1280, 720));
    expected.push(Command::CreateDescriptorSetLayout {
        layout: 25,
        binding: 0,
        descriptor_type: api::DESCRIPTOR_TYPE_UNIFORM_BUFFER,
        descriptor_count: 1,
        stage_flags: api::SHADER_STAGE_VERTEX,
    });
    expected.push(Command::CreateDescriptorPool {
        pool: 26,
        flags: 1,
        max_sets: 11000,
        type_count: 11,
        descriptor_count: 1000,
    });
    expected.extend(uniform_buffer(27));
    expected.extend(uniform_buffer(29));
    expected.extend(uniform_buffer(31));
    for i in 0..3 {
        expected.push(Command::AllocateDescriptorSet { set: 33 + i, pool: 26, layout: 25 });
        expected.push(Command::WriteDescriptorSet {
            set: 33 + i,
            binding: 0,
            buffer: 27 + 2 * i,
            size: 384,
        });
    }
    assert_eq!(state.take_commands(), expected);
}

#[test]
fn device_with_two_families_gets_two_queues_and_shared_images() {
    let mut gpus = single_gpu();
    gpus[0].compute_family_index = 2;
    let mut state = State::new(0, 1, 0, false);
    state.take_commands();
    state.init(gpus, &window(800, 600));
    let commands = state.take_commands();
    assert_eq!(
        commands[0],
        Command::CreateDevice {
            device: 2,
            instance: 0,
            physical_device: 0xabc,
            device_info: DeviceInfo {
                queue_family_count: 2,
                queue_families: [0, 2],
                dynamic_rendering: true,
                extension_count: 1,
            },
        }
    );
    assert_eq!(commands[1], Command::GetDeviceQueue { device: 2, queue: GRAPHICS });
    assert_eq!(
        commands[2],
        Command::GetDeviceQueue { device: 2, queue: Queue { family_index: 2, queue_index: 0 } }
    );
    match commands[18] {
        Command::CreateSwapchain { swapchain_info, .. } => {
            assert_eq!(swapchain_info.image_sharing_mode, api::SHARING_MODE_CONCURRENT);
            assert_eq!(swapchain_info.queue_family_index_count, 2);
            assert_eq!(swapchain_info.queue_family_indices, [0, 2]);
        }
        _ => panic!("the swapchain comes after the semaphores"),
    }
}

#[test]
fn single_gpu_runs_a_frame_and_shuts_down_clean() {
    let gpus = single_gpu();
    assert_eq!(gpus.len(), 1);
    assert_eq!(gpus[0].device, 0xabc);
    let video = window(1280, 720);
    let mut state = State::new(0, 1, 0, false);
    state.init(gpus, &video);
    assert_eq!(state.gpu(), 0);
    let created = state.take_commands();
    assert!(created.contains(&Command::CreateFence { fence: 9, signaled: true }));

    state.begin_cmds(&video);
    assert!(state.is_in_frame());
    assert_eq!(
        state.take_commands(),
        vec![
            Command::WaitForFence { fence: 9 },
            Command::AcquireNextImage { swapchain: 18, semaphore: 12 },
            Command::BeginCommandBuffer { command_buffer: 5, flags: 0 },
        ]
    );

    state.present();
    assert!(!state.is_in_frame());
    assert_eq!(state.frame_index(), 1);
    assert_eq!(
        state.take_commands(),
        vec![
            Command::WriteUniforms { allocation: 28, size: 384 },
            Command::EndCommandBuffer { command_buffer: 5 },
            Command::ResetFence { fence: 9 },
            Command::QueueSubmit {
                queue: GRAPHICS,
                command_buffer: 5,
                wait_semaphore: Some(12),
                wait_stage: api::PIPELINE_STAGE_COLOR_ATTACHMENT_OUTPUT,
                signal_semaphore: Some(13),
                signal_fence: Some(9),
            },
            Command::QueuePresent { queue: GRAPHICS, swapchain: 18, wait: 13 },
        ]
    );

    let mut driver = state.shutdown();
    assert_eq!(driver.live_objects(), 0);
    let commands = driver.take_commands();
    assert_eq!(
        commands,
        vec![
            Command::WaitForFence { fence: 9 },
            Command::UnmapMemory { allocation: 28 },
            Command::DestroyBuffer { buffer: 27, allocation: 28 },
            Command::UnmapMemory { allocation: 30 },
            Command::DestroyBuffer { buffer: 29, allocation: 30 },
            Command::UnmapMemory { allocation: 32 },
            Command::DestroyBuffer { buffer: 31, allocation: 32 },
            destroy(ObjectKind::DescriptorPool, 26),
            destroy(ObjectKind::DescriptorSetLayout, 25),
            destroy(ObjectKind::ImageView, 24),
            Command::DestroyImage { image: 22, allocation: 23 },
            destroy(ObjectKind::ImageView, 19),
            destroy(ObjectKind::ImageView, 20),
            destroy(ObjectKind::ImageView, 21),
            destroy(ObjectKind::Swapchain, 18),
            destroy(ObjectKind::Semaphore, 13),
            destroy(ObjectKind::Semaphore, 15),
            destroy(ObjectKind::Semaphore, 17),
            destroy(ObjectKind::Fence, 9),
            destroy(ObjectKind::Fence, 10),
            destroy(ObjectKind::Fence, 11),
            destroy(ObjectKind::Semaphore, 12),
            destroy(ObjectKind::Semaphore, 14),
            destroy(ObjectKind::Semaphore, 16),
            destroy(ObjectKind::CommandPool, 4),
            destroy(ObjectKind::CommandPool, 3),
            destroy(ObjectKind::Allocator, 8),
            destroy(ObjectKind::Device, 2),
            destroy(ObjectKind::Surface, 1),
            destroy(ObjectKind::Instance, 0),
        ]
    );
}

#[test]
fn shutdown_before_initialization_destroys_surface_and_instance() {
    let mut state = State::new(0, 1, 0, false);
    state.take_commands();
    let mut driver = state.shutdown();
    assert_eq!(driver.live_objects(), 0);
    assert_eq!(
        driver.take_commands(),
        vec![destroy(ObjectKind::Surface, 1), destroy(ObjectKind::Instance, 0)]
    );
}

#[test]
fn frames_are_no_ops_before_initialization() {
    let video = window(640, 480);
    let mut state = State::new(0, 1, 0, false);
    state.take_commands();
    state.begin_cmds(&video);
    assert!(!state.is_in_frame());
    state.present();
    state.swapchain_out_of_date(&video);
    assert!(state.take_commands().is_empty());
    assert_eq!(state.live_objects(), 2);
}

#[test]
fn begin_within_a_frame_and_present_outside_do_nothing() {
    let video = window(1280, 720);
    let mut state = initialized(1280, 720);
    state.take_commands();
    state.present();
    assert!(state.take_commands().is_empty());
    assert_eq!(state.frame_index(), 0);
    state.begin_cmds(&video);
    state.take_commands();
    state.begin_cmds(&video);
    assert!(state.take_commands().is_empty());
    assert!(state.is_in_frame());
}

#[test]
fn frames_go_through_the_slots_in_turn() {
    let video = window(1280, 720);
    let mut state = initialized(1280, 720);
    state.take_commands();
    for frame in 0..7usize {
        let slot = frame % 3;
        assert_eq!(state.frame_index(), slot);
        state.begin_cmds(&video);
        let begun = state.take_commands();
        assert_eq!(begun.len(), 3);
        assert_eq!(begun[0], Command::WaitForFence { fence: 9 + slot });
        assert_eq!(
            begun[1],
            Command::AcquireNextImage { swapchain: 18, semaphore: 12 + 2 * slot }
        );
        assert_eq!(begun[2], Command::BeginCommandBuffer { command_buffer: 5 + slot, flags: 0 });
        state.present();
        let done = state.take_commands();
        assert_eq!(done.len(), 5);
        assert_eq!(done[0], Command::WriteUniforms { allocation: 28 + 2 * slot, size: 384 });
        assert_eq!(done[1], Command::EndCommandBuffer { command_buffer: 5 + slot });
        assert_eq!(done[2], Command::ResetFence { fence: 9 + slot });
        assert_eq!(
            done[3],
            Command::QueueSubmit {
                queue: GRAPHICS,
                command_buffer: 5 + slot,
                wait_semaphore: Some(12 + 2 * slot),
                wait_stage: 0x400,
                signal_semaphore: Some(13 + 2 * slot),
                signal_fence: Some(9 + slot),
            }
        );
        assert_eq!(
            done[4],
            Command::QueuePresent { queue: GRAPHICS, swapchain: 18, wait: 13 + 2 * slot }
        );
    }
}

#[test]
fn resize_rebuilds_the_swapchain_with_the_new_size() {
    let mut state = initialized(1280, 720);
    state.take_commands();
    let small = window(1280, 720);
    state.begin_cmds(&small);
    state.present();
    state.begin_cmds(&small);
    state.present();
    state.take_commands();

    let large = window(1920, 1080);
    state.begin_cmds(&large);
    assert_eq!(state.swapchain_extent(), Extent2D { width: 1920, height: 1080 });
    let mut expected = vec![
        Command::WaitForFence { fence: 9 },
        Command::WaitForFence { fence: 10 },
        destroy(ObjectKind::ImageView, 24),
        Command::DestroyImage { image: 22, allocation: 23 },
        destroy(ObjectKind::ImageView, 19),
        destroy(ObjectKind::ImageView, 20),
        destroy(ObjectKind::ImageView, 21),
        destroy(ObjectKind::Swapchain, 18),
        swapchain(36, 1920, 1080),
        color_view(37, 36, 0),
        color_view(38, 36, 1),
        color_view(39, 36, 2),
    ];
    expected.extend(depth_image(40, 1920, 1080));
    expected.extend(vec![
        Command::WaitForFence { fence: 11 },
        Command::AcquireNextImage { swapchain: 36, semaphore: 16 },
        Command::BeginCommandBuffer { command_buffer: 7, flags: 0 },
    ]);
    assert_eq!(state.take_commands(), expected);
    assert_eq!(state.live_objects(), 36);

    state.present();
    let done = state.take_commands();
    assert_eq!(done[4], Command::QueuePresent { queue: GRAPHICS, swapchain: 36, wait: 17 });
    let mut driver = state.shutdown();
    assert_eq!(driver.live_objects(), 0);
    let commands = driver.take_commands();
    assert!(commands.contains(&destroy(ObjectKind::Swapchain, 36)));
    assert!(!commands.contains(&destroy(ObjectKind::Swapchain, 18)));
}

#[test]
fn recreation_needs_no_resize_to_replace_everything() {
    let mut state = initialized(1280, 720);
    state.take_commands();
    state.recreate_swapchain(Extent2D { width: 1280, height: 720 });
    let commands = state.take_commands();
    assert_eq!(commands.len(), 12);
    assert_eq!(commands[5], destroy(ObjectKind::Swapchain, 18));
    assert_eq!(commands[6], swapchain(36, 1280, 720));
    assert_eq!(state.live_objects(), 36);
}

#[test]
fn out_of_date_swapchain_gives_up_the_frame_and_rebuilds() {
    let video = window(1280, 720);
    let mut state = initialized(1280, 720);
    state.begin_cmds(&video);
    state.present();
    state.begin_cmds(&video);
    state.take_commands();
    assert!(state.is_in_frame());
    state.swapchain_out_of_date(&window(1024, 768));
    assert!(!state.is_in_frame());
    assert_eq!(state.frame_index(), 1);
    assert_eq!(state.swapchain_extent(), Extent2D { width: 1024, height: 768 });
    let commands = state.take_commands();
    assert_eq!(commands[0], Command::WaitForFence { fence: 9 });
    assert_eq!(commands[1], destroy(ObjectKind::ImageView, 24));
    assert_eq!(commands[7], swapchain(36, 1024, 768));
    assert_eq!(commands.len(), 13);
}

#[test]
fn wait_idle_waits_for_the_slots_in_flight() {
    let video = window(1280, 720);
    let mut state = initialized(1280, 720);
    state.take_commands();
    state.wait_idle();
    assert!(state.take_commands().is_empty());
    state.begin_cmds(&video);
    state.present();
    state.begin_cmds(&video);
    state.present();
    state.take_commands();
    state.wait_idle();
    assert_eq!(
        state.take_commands(),
        vec![Command::WaitForFence { fence: 9 }, Command::WaitForFence { fence: 10 }]
    );
    state.wait_idle();
    assert!(state.take_commands().is_empty());
}

#[test]
fn set_gpu_returns_the_previous_index_and_ignores_a_wrong_one() {
    let mut gpus = single_gpu();
    let mut second = single_gpu().remove(0);
    second.device = 0xdef;
    gpus.push(second);
    let mut state = State::new(0, 1, 0, false);
    state.init(gpus, &window(1280, 720));
    state.take_commands();
    assert_eq!(state.set_gpu(1), 0);
    assert_eq!(state.gpu(), 1);
    assert_eq!(state.set_gpu(2), 1);
    assert_eq!(state.gpu(), 1);
    assert_eq!(state.set_gpu(usize::MAX), 1);
    assert_eq!(state.gpu(), 1);
    assert_eq!(state.set_gpu(0), 1);
    assert_eq!(state.gpu(), 0);
    assert!(state.take_commands().is_empty());
}

#[test]
fn loading_and_unloading_set_the_mark() {
    let mut state = initialized(1280, 720);
    assert!(!state.is_loaded());
    state.load_resources();
    assert!(state.is_loaded());
    state.load_resources();
    assert!(state.is_loaded());
    state.unload_resources();
    assert!(!state.is_loaded());
    state.unload_resources();
    assert!(!state.is_loaded());
}

#[test]
fn second_initialization_changes_nothing() {
    let mut state = initialized(1280, 720);
    state.take_commands();
    let mut other = single_gpu();
    other[0].device = 0x999;
    state.init(other, &window(640, 480));
    assert!(state.take_commands().is_empty());
    assert_eq!(state.gpus()[0].device, 0xabc);
    assert_eq!(state.swapchain_extent(), Extent2D { width: 1280, height: 720 });
    assert_eq!(state.live_objects(), 36);
}

#[test]
fn nothing_is_rebuilt_or_waited_for_before_initialization() {
    let mut state = State::new(0, 1, 0, false);
    state.take_commands();
    state.wait_idle();
    state.recreate_swapchain(Extent2D { width: 10, height: 10 });
    state.load_resources();
    assert!(!state.is_loaded());
    assert!(state.take_commands().is_empty());
    assert_eq!(state.swapchain_extent(), Extent2D { width: 0, height: 0 });
    assert_eq!(state.live_objects(), 2);
}
