use purpl_render::rendersystem::vulkan::api;
use purpl_render::rendersystem::vulkan::command::{
    AllocationInfo, BufferInfo, Command, Driver, Extent2D, Extent3D, ImageInfo, ImageSource,
    ImageViewInfo, MemoryUsage, ObjectKind, Queue,
};
use purpl_render::rendersystem::vulkan::gpu::{
    FormatProperties, GpuInfo, SurfaceCapabilities, SurfaceFormat,
};
use purpl_render::rendersystem::vulkan::memory::{supports_format, Buffer, HostBuffer, Image};
use purpl_render::rendersystem::vulkan::State;

fn gpu(formats: Vec<SurfaceFormat>, modes: Vec<i32>, table: Vec<FormatProperties>) -> GpuInfo {
    GpuInfo {
        device: 1,
        memory_heap_size: 0,
        max_viewport_dimensions: [0, 0],
        device_type: 0,
        surface_capabilities: SurfaceCapabilities { min_image_count: 1, max_image_count: 0 },
        surface_formats: formats,
        present_modes: modes,
        format_properties: table,
        graphics_family_index: 0,
        compute_family_index: 0,
        performance_score: 0,
    }
}

fn properties(format: i32, linear: u32, optimal: u32) -> FormatProperties {
    FormatProperties { format, linear_tiling_features: linear, optimal_tiling_features: optimal }
}

#[test]
fn first_supported_format_is_chosen() {
    let device = gpu(
        Vec::new(),
        Vec::new(),
        vec![properties(130, 0x200, 0x0), properties(129, 0x0, 0x280), properties(126, 0x0, 0x200)],
    );
    let candidates = vec![130, 129, 126];
    assert_eq!(Image::choose_fmt(&device, &candidates, api::IMAGE_TILING_OPTIMAL, 0x200), 129);
    assert_eq!(Image::choose_fmt(&device, &candidates, api::IMAGE_TILING_LINEAR, 0x200), 130);
    assert_eq!(Image::choose_fmt(&device, &candidates, api::IMAGE_TILING_OPTIMAL, 0x280), 129);
    assert_eq!(Image::choose_fmt(&device, &vec![126, 129], api::IMAGE_TILING_OPTIMAL, 0x200), 126);
}

#[test]
fn undefined_format_is_chosen_when_none_is_supported() {
    let device = gpu(Vec::new(), Vec::new(), vec![properties(130, 0x200, 0x80)]);
    assert_eq!(
        Image::choose_fmt(&device, &vec![130, 129], api::IMAGE_TILING_OPTIMAL, 0x200),
        api::FORMAT_UNDEFINED
    );
    assert_eq!(
        Image::choose_fmt(&device, &vec![130], api::IMAGE_TILING_OPTIMAL, 0x280),
        api::FORMAT_UNDEFINED
    );
    assert_eq!(
        Image::choose_fmt(&device, &Vec::new(), api::IMAGE_TILING_OPTIMAL, 0),
        api::FORMAT_UNDEFINED
    );
}

#[test]
fn other_tilings_and_unlisted_formats_support_nothing() {
    let table = vec![properties(130, 0xffff_ffff, 0xffff_ffff)];
    assert!(supports_format(&table, 130, api::IMAGE_TILING_OPTIMAL, 0x200));
    assert!(supports_format(&table, 130, api::IMAGE_TILING_LINEAR, 0));
    assert!(!supports_format(&table, 130, 2, 0));
    assert!(!supports_format(&table, 130, 1000158000, 0x200));
    assert!(!supports_format(&table, 129, api::IMAGE_TILING_OPTIMAL, 0));
    let device = gpu(Vec::new(), Vec::new(), table);
    assert_eq!(Image::choose_fmt(&device, &vec![130], 7, 0), api::FORMAT_UNDEFINED);
}

#[test]
fn first_entry_of_a_format_counts() {
    let table = vec![properties(130, 0, 0x1), properties(130, 0, 0x200)];
    assert!(!supports_format(&table, 130, api::IMAGE_TILING_OPTIMAL, 0x200));
    assert!(supports_format(&table, 130, api::IMAGE_TILING_OPTIMAL, 0x1));
}

#[test]
fn surface_format_prefers_bgra_srgb() {
    let preferred = SurfaceFormat { format: 44, color_space: 0 };
    let other = SurfaceFormat { format: 37, color_space: 0 };
    let wrong_space = SurfaceFormat { format: 44, color_space: 1000104001 };
    let undefined = SurfaceFormat { format: 0, color_space: 5 };
    let choose =
        |formats: Vec<SurfaceFormat>| State::choose_surface_format(&gpu(formats, vec![2], vec![]));
    assert_eq!(choose(vec![other, preferred]), preferred);
    assert_eq!(choose(vec![preferred]), preferred);
    assert_eq!(choose(vec![other, wrong_space]), other);
    assert_eq!(choose(vec![wrong_space, other]), wrong_space);
    assert_eq!(choose(vec![undefined]), preferred);
    assert_eq!(choose(vec![undefined, other]), undefined);
}

#[test]
fn present_mode_prefers_mailbox() {
    let choose = |modes: Vec<i32>| State::choose_present_mode(&gpu(vec![], modes, vec![]));
    assert_eq!(choose(vec![2, 1]), api::PRESENT_MODE_MAILBOX);
    assert_eq!(choose(vec![1]), api::PRESENT_MODE_MAILBOX);
    assert_eq!(choose(vec![0, 2, 3]), api::PRESENT_MODE_FIFO);
    assert_eq!(choose(vec![0]), api::PRESENT_MODE_FIFO);
    assert_eq!(choose(vec![]), api::PRESENT_MODE_FIFO);
}

#[test]
fn image_creation_fixes_the_format_in_both_descriptions() {
    let mut driver = Driver::new();
    let mut create_info = ImageInfo {
        image_type: 1,
        format: 99,
        extent: Extent3D { width: 4, height: 5, depth: 1 },
        mip_levels: 1,
        array_layers: 1,
        samples: 1,
        tiling: 0,
        usage: 0x20,
    };
    let mut view_info = ImageViewInfo {
        image: ImageSource::Unset,
        view_type: 1,
        format: 98,
        components: [0, 0, 0, 0],
        aspect_mask: 2,
        base_mip_level: 0,
        level_count: 1,
        base_array_layer: 0,
        layer_count: 1,
    };
    let allocation_info = AllocationInfo { usage: MemoryUsage::AutoPreferDevice, required_flags: 0 };
    let image = Image::new(&mut driver, 130, &mut create_info, &mut view_info, &allocation_info);
    assert_eq!(create_info.format, 130);
    assert_eq!(view_info.format, 130);
    assert_eq!(view_info.image, ImageSource::Image(0));
    assert_eq!((image.handle(), image.allocation(), image.view(), image.format()), (0, 1, 2, 130));
    assert_eq!(
        driver.take_commands(),
        vec![
            Command::CreateImage {
                image: 0,
                allocation: 1,
                image_info: ImageInfo { format: 130, ..create_info },
                memory: allocation_info,
            },
            Command::CreateImageView { view: 2, view_info },
        ]
    );
    assert_eq!(driver.live_objects(), 3);
    assert!(driver.is_alive_as(0, ObjectKind::Image));
    assert!(driver.is_alive_as(1, ObjectKind::Allocation));
    assert!(driver.is_alive_as(2, ObjectKind::ImageView));

    image.destroy(&mut driver);
    assert_eq!(
        driver.take_commands(),
        vec![
            Command::Destroy { kind: ObjectKind::ImageView, handle: 2 },
            Command::DestroyImage { image: 0, allocation: 1 },
        ]
    );
    assert_eq!(driver.live_objects(), 0);
    assert!(!driver.is_alive(0));
}

#[test]
fn depth_image_has_the_size_of_the_window() {
    let mut driver = Driver::new();
    let device = gpu(vec![], vec![], vec![properties(130, 0, 0x200)]);
    let depth =
        State::create_render_targets(&mut driver, &device, &Extent2D { width: 1920, height: 1080 });
    assert_eq!(depth.format(), api::FORMAT_D32_SFLOAT_S8_UINT);
    match driver.take_commands()[0] {
        Command::CreateImage { image_info, memory, .. } => {
            assert_eq!(image_info.extent, Extent3D { width: 1920, height: 1080, depth: 1 });
            assert_eq!(image_info.format, 130);
            assert_eq!(image_info.usage, api::IMAGE_USAGE_DEPTH_STENCIL_ATTACHMENT);
            assert_eq!(memory.usage, MemoryUsage::AutoPreferDevice);
        }
        _ => panic!("the image is created first"),
    }
}

#[test]
fn buffer_is_created_exclusive_with_the_required_memory() {
    let mut driver = Driver::new();
    let buffer = Buffer::new(&mut driver, 4096, 0x82, 0x1);
    assert_eq!((buffer.handle(), buffer.allocation(), buffer.size()), (0, 1, 4096));
    assert_eq!(
        driver.take_commands(),
        vec![Command::CreateBuffer {
            buffer: 0,
            allocation: 1,
            buffer_info: BufferInfo { size: 4096, usage: 0x82, sharing_mode: 0 },
            memory: AllocationInfo { usage: MemoryUsage::Unknown, required_flags: 0x1 },
        }]
    );
    buffer.destroy(&mut driver);
    assert_eq!(driver.take_commands(), vec![Command::DestroyBuffer { buffer: 0, allocation: 1 }]);
    assert_eq!(driver.live_objects(), 0);
}

#[test]
fn copy_goes_through_one_transient_command_buffer() {
    let mut driver = Driver::new();
    let pool = driver.create(ObjectKind::CommandPool);
    let fence = driver.create(ObjectKind::Fence);
    let source = Buffer::new(&mut driver, 100, 0x1, 0x6);
    let destination = Buffer::new(&mut driver, 200, 0x82, 0x1);
    driver.take_commands();
    let queue = Queue { family_index: 3, queue_index: 0 };
    source.copy(&mut driver, &queue, pool, fence, &destination);
    assert_eq!(
        driver.take_commands(),
        vec![
            Command::AllocateCommandBuffer { command_buffer: 6, pool },
            Command::BeginCommandBuffer { command_buffer: 6, flags: 1 },
            Command::CopyBuffer { command_buffer: 6, source: 2, destination: 4, size: 100 },
            Command::EndCommandBuffer { command_buffer: 6 },
            Command::QueueSubmit {
                queue,
                command_buffer: 6,
                wait_semaphore: None,
                wait_stage: 0,
                signal_semaphore: None,
                signal_fence: Some(fence),
            },
            Command::QueueWaitIdle { queue },
            Command::FreeCommandBuffer { pool, command_buffer: 6 },
        ]
    );
    assert_eq!(driver.live_objects(), 6);
    assert!(!driver.is_alive(6));
}

#[test]
fn host_buffer_is_mapped_at_once_and_unmapped_before_it_goes() {
    let mut driver = Driver::new();
    let host = HostBuffer::new(&mut driver, 384, 0x10, 0x6);
    let commands = driver.take_commands();
    assert_eq!(commands.len(), 2);
    assert_eq!(commands[1], Command::MapMemory { allocation: 1 });
    host.destroy(&mut driver);
    assert_eq!(
        driver.take_commands(),
        vec![
            Command::UnmapMemory { allocation: 1 },
            Command::DestroyBuffer { buffer: 0, allocation: 1 },
        ]
    );
    assert_eq!(driver.live_objects(), 0);
}

#[test]
fn host_buffer_of_an_existing_buffer_only_maps() {
    let mut driver = Driver::new();
    let buffer = Buffer::new(&mut driver, 16, 0x10, 0x6);
    driver.take_commands();
    let host = HostBuffer::from_buffer(&mut driver, buffer);
    assert_eq!(host.buffer, buffer);
    assert_eq!(driver.take_commands(), vec![Command::MapMemory { allocation: 1 }]);
    assert_eq!(driver.live_objects(), 2);
}

#[test]
fn allocation_can_be_changed_in_place() {
    let mut buffer = Buffer { handle: 3, allocation: 4, size: 8 };
    *buffer.allocation_mut() = 9;
    assert_eq!(buffer, Buffer { handle: 3, allocation: 9, size: 8 });
    let mut image = Image { handle: 1, allocation: 2, view: 3, format: 44 };
    *image.allocation_mut() = 7;
    assert_eq!(image, Image { handle: 1, allocation: 7, view: 3, format: 44 });
}

#[test]
fn ledger_counts_what_is_alive() {
    let mut driver = Driver::new();
    assert_eq!(driver.live_objects(), 0);
    let a = driver.create(ObjectKind::Fence);
    let b = driver.create(ObjectKind::Semaphore);
    let c = driver.create(ObjectKind::Fence);
    assert_eq!((a, b, c), (0, 1, 2));
    assert_eq!(driver.live_objects(), 3);
    driver.destroy(ObjectKind::Semaphore, b);
    assert_eq!(driver.live_objects(), 2);
    assert!(!driver.is_alive(b));
    assert!(!driver.is_alive(3));
    assert!(driver.is_alive_as(a, ObjectKind::Fence));
    assert!(!driver.is_alive_as(a, ObjectKind::Semaphore));
    driver.destroy_each(ObjectKind::Fence, &vec![c, a]);
    assert_eq!(driver.live_objects(), 0);
    assert_eq!(
        driver.take_commands(),
        vec![
            Command::Destroy { kind: ObjectKind::Semaphore, handle: 1 },
            Command::Destroy { kind: ObjectKind::Fence, handle: 2 },
            Command::Destroy { kind: ObjectKind::Fence, handle: 0 },
        ]
    );
    assert_eq!(driver.create(ObjectKind::Fence), 3);
}

#[test]
fn depth_format_is_the_first_candidate_that_can_be_a_depth_attachment() {
    assert_eq!(State::depth_format_candidates(), vec![130, 129]);
    assert_eq!(vk_candidates(), State::depth_format_candidates());
    let both = gpu(vec![], vec![], vec![properties(129, 0, 0x200), properties(130, 0, 0x200)]);
    assert_eq!(State::choose_depth_format(&both), 130);
    let second = gpu(vec![], vec![], vec![properties(129, 0, 0x200), properties(130, 0x200, 0)]);
    assert_eq!(State::choose_depth_format(&second), 129);
    let none = gpu(vec![], vec![], vec![properties(126, 0, 0x200)]);
    assert_eq!(State::choose_depth_format(&none), api::FORMAT_UNDEFINED);
}

fn vk_candidates() -> Vec<i32> {
    vec![
        ash::vk::Format::D32_SFLOAT_S8_UINT.as_raw(),
        ash::vk::Format::D24_UNORM_S8_UINT.as_raw(),
    ]
}
