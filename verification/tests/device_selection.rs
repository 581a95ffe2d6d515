use purpl_render::rendersystem::vulkan::api;
use purpl_render::rendersystem::vulkan::gpu::{
    find_queue_family, get_gpus, get_required_device_exts, score, DeviceProbe, FormatProperties,
    QueueFamily, Rejection, SurfaceCapabilities, SurfaceFormat,
};

fn probe(device: u64, heap: u64, device_type: i32) -> DeviceProbe {
    DeviceProbe {
        device,
        queue_families: vec![QueueFamily {
            queue_flags: api::QUEUE_GRAPHICS | api::QUEUE_COMPUTE,
            queue_count: 1,
        }],
        extension_count: Some(1),
        surface_capabilities: Some(SurfaceCapabilities { min_image_count: 2, max_image_count: 8 }),
        surface_formats: Some(vec![SurfaceFormat {
            format: api::FORMAT_B8G8R8A8_UNORM,
            color_space: api::COLOR_SPACE_SRGB_NONLINEAR,
        }]),
        present_modes: Some(vec![api::PRESENT_MODE_FIFO]),
        memory_heap_size: heap,
        max_viewport_dimensions: [16384, 16384],
        device_type,
        format_properties: vec![FormatProperties {
            format: api::FORMAT_D32_SFLOAT_S8_UINT,
            linear_tiling_features: 0,
            optimal_tiling_features: api::FORMAT_FEATURE_DEPTH_STENCIL_ATTACHMENT,
        }],
    }
}

#[test]
fn score_is_heap_in_thousands_plus_viewport_area_in_thousands() {
    assert_eq!(score(8_000_000_000, [16384, 16384], api::DEVICE_TYPE_OTHER), 8_000_000 + 268_435);
    assert_eq!(score(999, [10, 99], api::DEVICE_TYPE_OTHER), 0);
    assert_eq!(score(1000, [1000, 1], api::DEVICE_TYPE_OTHER), 2);
}

#[test]
fn score_is_multiplied_by_the_device_type() {
    let base = score(4_000_000_000, [8192, 8192], api::DEVICE_TYPE_OTHER);
    assert_eq!(base, 4_000_000 + 67_108);
    assert_eq!(score(4_000_000_000, [8192, 8192], api::DEVICE_TYPE_DISCRETE_GPU), 10 * base);
    assert_eq!(score(4_000_000_000, [8192, 8192], api::DEVICE_TYPE_VIRTUAL_GPU), 10 * base);
    assert_eq!(score(4_000_000_000, [8192, 8192], api::DEVICE_TYPE_INTEGRATED_GPU), 2 * base);
    assert_eq!(score(4_000_000_000, [8192, 8192], api::DEVICE_TYPE_CPU), base);
    assert_eq!(score(4_000_000_000, [8192, 8192], 77), base);
}

#[test]
fn score_is_the_same_for_the_same_inputs() {
    assert_eq!(
        score(123_456_789, [4096, 2160], api::DEVICE_TYPE_INTEGRATED_GPU),
        score(123_456_789, [4096, 2160], api::DEVICE_TYPE_INTEGRATED_GPU)
    );
}

#[test]
fn score_of_the_largest_inputs_does_not_overflow() {
    let points = score(u64::MAX, [u32::MAX, u32::MAX], api::DEVICE_TYPE_DISCRETE_GPU);
    let area = (u32::MAX as u64) * (u32::MAX as u64);
    assert_eq!(points, (u64::MAX / 1000 + area / 1000) * 10);
}

#[test]
fn first_family_with_the_capability_is_found() {
    let families = vec![
        QueueFamily { queue_flags: 0x4, queue_count: 1 },
        QueueFamily { queue_flags: api::QUEUE_GRAPHICS, queue_count: 0 },
        QueueFamily { queue_flags: api::QUEUE_COMPUTE, queue_count: 2 },
        QueueFamily { queue_flags: api::QUEUE_GRAPHICS | api::QUEUE_COMPUTE, queue_count: 1 },
    ];
    assert_eq!(find_queue_family(&families, api::QUEUE_GRAPHICS), Some(3));
    assert_eq!(find_queue_family(&families, api::QUEUE_COMPUTE), Some(2));
    assert_eq!(find_queue_family(&families, 0x8), None);
    assert_eq!(find_queue_family(&Vec::new(), api::QUEUE_GRAPHICS), None);
}

#[test]
fn required_extension_is_the_swapchain_extension() {
    let names = get_required_device_exts();
    assert_eq!(names.len(), 1);
    assert_eq!(names[0], "VK_KHR_swapchain");
    assert_eq!(
        names[0],
        ash::extensions::khr::Swapchain::name().to_str().unwrap()
    );
}

#[test]
fn each_check_rejects_with_its_reason() {
    let mut p = probe(1, 1000, 0);
    p.queue_families = Vec::new();
    assert!(!p.is_usable());
    assert_eq!(p.examine(), Err(Rejection::NoQueueFamilies));

    let mut p = probe(1, 1000, 0);
    p.queue_families = vec![QueueFamily { queue_flags: api::QUEUE_GRAPHICS, queue_count: 1 }];
    assert!(!p.is_usable());
    assert_eq!(p.examine(), Err(Rejection::MissingQueueFamily));

    let mut p = probe(1, 1000, 0);
    p.queue_families = vec![QueueFamily { queue_flags: api::QUEUE_COMPUTE, queue_count: 1 }];
    assert_eq!(p.examine(), Err(Rejection::MissingQueueFamily));

    let mut p = probe(1, 1000, 0);
    p.extension_count = Some(0);
    assert!(!p.is_usable());
    assert_eq!(p.examine(), Err(Rejection::MissingExtensions));

    let mut p = probe(1, 1000, 0);
    p.extension_count = None;
    assert_eq!(p.examine(), Err(Rejection::MissingExtensions));

    let mut p = probe(1, 1000, 0);
    p.surface_capabilities = None;
    assert!(!p.is_usable());
    assert_eq!(p.examine(), Err(Rejection::NoSurfaceCapabilities));

    let mut p = probe(1, 1000, 0);
    p.surface_formats = Some(Vec::new());
    assert!(!p.is_usable());
    assert_eq!(p.examine(), Err(Rejection::NoSurfaceFormats));

    let mut p = probe(1, 1000, 0);
    p.surface_formats = None;
    assert_eq!(p.examine(), Err(Rejection::NoSurfaceFormats));

    let mut p = probe(1, 1000, 0);
    p.present_modes = Some(Vec::new());
    assert!(!p.is_usable());
    assert_eq!(p.examine(), Err(Rejection::NoPresentModes));

    let mut p = probe(1, 1000, 0);
    p.present_modes = None;
    assert_eq!(p.examine(), Err(Rejection::NoPresentModes));
}

#[test]
fn checks_are_made_in_their_order() {
    let mut p = probe(1, 1000, 0);
    p.queue_families = Vec::new();
    p.extension_count = None;
    p.present_modes = None;
    assert_eq!(p.examine(), Err(Rejection::NoQueueFamilies));

    let mut p = probe(1, 1000, 0);
    p.extension_count = None;
    p.surface_capabilities = None;
    assert_eq!(p.examine(), Err(Rejection::MissingExtensions));
}

#[test]
fn usable_device_becomes_a_candidate() {
    let p = probe(42, 2_000_000, api::DEVICE_TYPE_INTEGRATED_GPU);
    assert!(p.is_usable());
    let gpu = p.examine().unwrap();
    assert_eq!(gpu.device, 42);
    assert_eq!(gpu.graphics_family_index, 0);
    assert_eq!(gpu.compute_family_index, 0);
    assert_eq!(gpu.performance_score, (2_000 + 268_435) * 2);
    assert_eq!(gpu.surface_formats.len(), 1);
    assert_eq!(gpu.present_modes, vec![api::PRESENT_MODE_FIFO]);
}

#[test]
fn devices_are_offered_by_falling_score() {
    let probes = vec![
        probe(1, 1_000_000_000, api::DEVICE_TYPE_INTEGRATED_GPU),
        probe(2, 8_000_000_000, api::DEVICE_TYPE_DISCRETE_GPU),
        probe(3, 2_000_000_000, api::DEVICE_TYPE_CPU),
        probe(4, 16_000_000_000, api::DEVICE_TYPE_OTHER),
    ];
    let gpus = get_gpus(probes);
    let order: Vec<u64> = gpus.iter().map(|gpu| gpu.device).collect();
    assert_eq!(order, vec![2, 4, 1, 3]);
    for pair in gpus.windows(2) {
        assert!(pair[0].performance_score >= pair[1].performance_score);
    }
}

#[test]
fn devices_that_fail_a_check_are_left_out() {
    let mut no_modes = probe(2, 64_000_000_000, api::DEVICE_TYPE_DISCRETE_GPU);
    no_modes.present_modes = Some(Vec::new());
    let mut no_families = probe(3, 64_000_000_000, api::DEVICE_TYPE_DISCRETE_GPU);
    no_families.queue_families = Vec::new();
    let probes = vec![no_modes, probe(1, 1_000_000, api::DEVICE_TYPE_OTHER), no_families];
    let gpus = get_gpus(probes);
    assert_eq!(gpus.len(), 1);
    assert_eq!(gpus[0].device, 1);
}

#[test]
fn devices_of_equal_score_keep_their_order() {
    let probes = vec![
        probe(7, 5_000_000, api::DEVICE_TYPE_OTHER),
        probe(8, 9_000_000, api::DEVICE_TYPE_OTHER),
        probe(9, 5_000_000, api::DEVICE_TYPE_OTHER),
        probe(10, 5_000_000, api::DEVICE_TYPE_OTHER),
    ];
    let order: Vec<u64> = get_gpus(probes).iter().map(|gpu| gpu.device).collect();
    assert_eq!(order, vec![8, 7, 9, 10]);
}

#[test]
fn scores_beyond_32_bits_are_ranked_as_they_are() {
    let probes = vec![
        probe(1, 3_000_000_000_000, api::DEVICE_TYPE_OTHER),
        probe(2, 600_000_000_000, api::DEVICE_TYPE_DISCRETE_GPU),
    ];
    let gpus = get_gpus(probes);
    assert_eq!(gpus[0].device, 2);
    assert_eq!(gpus[0].performance_score, (600_000_000 + 268_435) * 10);
    assert_eq!(gpus[1].performance_score, 3_000_000_000 + 268_435);
}
