//! The swapchain: its format and present mode, its creation with one view
//! for each image, the depth image that goes with it, and their
//! destruction.

use crate::rendersystem::vulkan::api;
use crate::rendersystem::vulkan::command::{
    AllocationInfo,
    Command,
    Driver,
    Extent2D,
    Extent3D,
    Handle,
    ImageInfo,
    ImageSource,
    ImageViewInfo,
    MemoryUsage,
    Object,
    ObjectKind,
    SwapchainInfo,
    without,
};
use crate::rendersystem::vulkan::device::{fresh, handles_from};
use crate::rendersystem::vulkan::gpu::{GpuInfo, SurfaceFormat};
use crate::rendersystem::vulkan::memory::{chosen_format, Image};
use crate::rendersystem::vulkan::{State, FRAME_COUNT};
use vstd::prelude::*;

verus! {

/// The surface format that is used wherever the device offers it, or leaves
/// the choice open.
pub open spec fn preferred_surface_format() -> SurfaceFormat {
    SurfaceFormat {
        format: api::FORMAT_B8G8R8A8_UNORM,
        color_space: api::COLOR_SPACE_SRGB_NONLINEAR,
    }
}

/// The surface format for a device that offers `formats`: the preferred one
/// if the device offers it, or offers nothing but the undefined format; else
/// the first that it offers.
pub open spec fn chosen_surface_format(formats: Seq<SurfaceFormat>) -> SurfaceFormat {
    if formats.len() == 1 && formats[0].format == api::FORMAT_UNDEFINED {
        preferred_surface_format()
    } else if formats.contains(preferred_surface_format()) {
        preferred_surface_format()
    } else {
        formats[0]
    }
}

/// The present mode for a device that offers `modes`: mailbox if it is among
/// them, else first-in first-out, which every device has.
pub open spec fn chosen_present_mode(modes: Seq<i32>) -> i32 {
    if modes.contains(api::PRESENT_MODE_MAILBOX) {
        api::PRESENT_MODE_MAILBOX
    } else {
        api::PRESENT_MODE_FIFO
    }
}

/// The depth formats that the backend can work with, the preferred one
/// first.
pub open spec fn depth_formats() -> Seq<i32> {
    seq![api::FORMAT_D32_SFLOAT_S8_UINT, api::FORMAT_D24_UNORM_S8_UINT]
}

/// The format of the depth image on `gpu`; the undefined format if the
/// device can use none of the depth formats as a depth attachment.
pub open spec fn depth_format(gpu: GpuInfo) -> i32 {
    chosen_format(
        gpu.format_properties@,
        depth_formats(),
        api::IMAGE_TILING_OPTIMAL,
        api::FORMAT_FEATURE_DEPTH_STENCIL_ATTACHMENT,
    )
}

/// What the swapchain is created with: one image for each frame slot, to
/// be drawn to and copied from; shared by the graphics and the compute
/// family where they differ; shown as it is, opaque and clipped.
pub open spec fn swapchain_info(
    gpu: GpuInfo,
    surface: Handle,
    present_mode: i32,
    surface_format: SurfaceFormat,
    image_extent: Extent2D,
) -> SwapchainInfo {
    SwapchainInfo {
        surface,
        min_image_count: FRAME_COUNT as u32,
        image_format: surface_format.format,
        image_color_space: surface_format.color_space,
        image_extent,
        image_array_layers: 1,
        image_usage: api::IMAGE_USAGE_COLOR_ATTACHMENT | api::IMAGE_USAGE_TRANSFER_SRC,
        image_sharing_mode: if gpu.graphics_family_index != gpu.compute_family_index {
            api::SHARING_MODE_CONCURRENT
        } else {
            api::SHARING_MODE_EXCLUSIVE
        },
        queue_family_index_count: if gpu.graphics_family_index != gpu.compute_family_index {
            2
        } else {
            0
        },
        queue_family_indices: [gpu.graphics_family_index, gpu.compute_family_index],
        pre_transform: api::SURFACE_TRANSFORM_IDENTITY,
        composite_alpha: api::COMPOSITE_ALPHA_OPAQUE,
        present_mode,
        clipped: true,
    }
}

/// What the view of the swapchain image at `index` is created with: a plain
/// two-dimensional view of its colour.
pub open spec fn color_view_info(swapchain: Handle, index: u32, format: i32) -> ImageViewInfo {
    ImageViewInfo {
        image: ImageSource::SwapchainImage { swapchain, index },
        view_type: api::IMAGE_VIEW_TYPE_2D,
        format,
        components: [
            api::COMPONENT_SWIZZLE_R,
            api::COMPONENT_SWIZZLE_G,
            api::COMPONENT_SWIZZLE_B,
            api::COMPONENT_SWIZZLE_A,
        ],
        aspect_mask: api::IMAGE_ASPECT_COLOR,
        base_mip_level: 0,
        level_count: 1,
        base_array_layer: 0,
        layer_count: 1,
    }
}

/// What the depth image of the given format and size is created with.
pub open spec fn depth_image_info(format: i32, extent: Extent2D) -> ImageInfo {
    ImageInfo {
        image_type: api::IMAGE_TYPE_2D,
        format,
        extent: Extent3D { width: extent.width, height: extent.height, depth: 1 },
        mip_levels: 1,
        array_layers: 1,
        samples: api::SAMPLE_COUNT_1,
        tiling: api::IMAGE_TILING_OPTIMAL,
        usage: api::IMAGE_USAGE_DEPTH_STENCIL_ATTACHMENT,
    }
}

/// What the view of the depth image is created with.
pub open spec fn depth_view_info(image: Handle, format: i32) -> ImageViewInfo {
    ImageViewInfo {
        image: ImageSource::Image(image),
        view_type: api::IMAGE_VIEW_TYPE_2D,
        format,
        components: [0, 0, 0, 0],
        aspect_mask: api::IMAGE_ASPECT_DEPTH,
        base_mip_level: 0,
        level_count: 1,
        base_array_layer: 0,
        layer_count: 1,
    }
}

/// The commands that create a depth image of the given format and size
/// under the handle `image` and the two that follow it.
pub open spec fn depth_image_commands(image: Handle, format: i32, extent: Extent2D) -> Seq<
    Command,
> {
    seq![
        Command::CreateImage {
            image,
            allocation: (image + 1) as Handle,
            image_info: depth_image_info(format, extent),
            memory: AllocationInfo { usage: MemoryUsage::AutoPreferDevice, required_flags: 0 },
        },
        Command::CreateImageView {
            view: (image + 2) as Handle,
            view_info: depth_view_info(image, format),
        },
    ]
}

/// The commands that create a swapchain under the handle `swapchain`, and
/// the views of its images under the handles that follow it.
pub open spec fn swapchain_commands(swapchain: Handle, info: SwapchainInfo) -> Seq<Command> {
    seq![Command::CreateSwapchain { swapchain, swapchain_info: info }] + Seq::new(
        FRAME_COUNT as nat,
        |i: int|
            Command::CreateImageView {
                view: (swapchain + 1 + i) as Handle,
                view_info: color_view_info(swapchain, i as u32, info.image_format),
            },
    )
}

impl State {
    /// Chooses the surface format for `gpu`.
    pub fn choose_surface_format(gpu: &GpuInfo) -> (format: SurfaceFormat)
        requires
            gpu.surface_formats@.len() >= 1,
        ensures
            format == chosen_surface_format(gpu.surface_formats@),
    {
        if gpu.surface_formats.len() == 1 && gpu.surface_formats[0].format
            == api::FORMAT_UNDEFINED {
            return SurfaceFormat {
                format: api::FORMAT_B8G8R8A8_UNORM,
                color_space: api::COLOR_SPACE_SRGB_NONLINEAR,
            };
        }
        let mut i: usize = 0;
        while i < gpu.surface_formats.len()
            invariant
                i <= gpu.surface_formats@.len(),
                forall|j: int|
                    0 <= j < i ==> #[trigger] gpu.surface_formats@[j] != preferred_surface_format(),
            decreases gpu.surface_formats.len() - i,
        {
            let format = gpu.surface_formats[i];
            if format.format == api::FORMAT_B8G8R8A8_UNORM && format.color_space
                == api::COLOR_SPACE_SRGB_NONLINEAR {
                assert(gpu.surface_formats@[i as int] == preferred_surface_format());
                return format;
            }
            i += 1;
        }
        gpu.surface_formats[0]
    }

    /// Chooses the present mode for `gpu`.
    pub fn choose_present_mode(gpu: &GpuInfo) -> (mode: i32)
        ensures
            mode == chosen_present_mode(gpu.present_modes@),
    {
        let mut i: usize = 0;
        while i < gpu.present_modes.len()
            invariant
                i <= gpu.present_modes@.len(),
                forall|j: int|
                    0 <= j < i ==> #[trigger] gpu.present_modes@[j] != api::PRESENT_MODE_MAILBOX,
            decreases gpu.present_modes.len() - i,
        {
            let mode = gpu.present_modes[i];
            if mode == api::PRESENT_MODE_MAILBOX {
                assert(gpu.present_modes@[i as int] == api::PRESENT_MODE_MAILBOX);
                return mode;
            }
            i += 1;
        }
        api::PRESENT_MODE_FIFO
    }

    /// Creates the swapchain and a view for each of its images. Returns the
    /// swapchain and the views, that of the first image first.
    pub fn create_swapchain(
        driver: &mut Driver,
        gpu: &GpuInfo,
        surface: Handle,
        present_mode: i32,
        surface_format: &SurfaceFormat,
        image_extent: &Extent2D,
    ) -> (made: (Handle, Vec<Handle>))
        requires
            old(driver).has(surface, ObjectKind::Surface),
        ensures
            made.0 == old(driver).objects().len(),
            made.1@ == handles_from(made.0 + 1, FRAME_COUNT as nat),
            final(driver).objects() == old(driver).objects().push(
                Object { kind: ObjectKind::Swapchain, alive: true },
            ) + fresh(ObjectKind::ImageView, FRAME_COUNT as nat),
            final(driver).commands() == old(driver).commands() + swapchain_commands(
                made.0,
                swapchain_info(*gpu, surface, present_mode, *surface_format, *image_extent),
            ),
    {
        let concurrent = gpu.graphics_family_index != gpu.compute_family_index;
        let info = SwapchainInfo {
            surface,
            min_image_count: FRAME_COUNT as u32,
            image_format: surface_format.format,
            image_color_space: surface_format.color_space,
            image_extent: *image_extent,
            image_array_layers: 1,
            image_usage: api::IMAGE_USAGE_COLOR_ATTACHMENT | api::IMAGE_USAGE_TRANSFER_SRC,
            image_sharing_mode: if concurrent {
                api::SHARING_MODE_CONCURRENT
            } else {
                api::SHARING_MODE_EXCLUSIVE
            },
            queue_family_index_count: if concurrent {
                2
            } else {
                0
            },
            queue_family_indices: [gpu.graphics_family_index, gpu.compute_family_index],
            pre_transform: api::SURFACE_TRANSFORM_IDENTITY,
            composite_alpha: api::COMPOSITE_ALPHA_OPAQUE,
            present_mode,
            clipped: true,
        };
        let ghost before = *driver;
        let swapchain = driver.create(ObjectKind::Swapchain);
        driver.record(Command::CreateSwapchain { swapchain, swapchain_info: info });
        let mut views: Vec<Handle> = Vec::new();
        let mut i: usize = 0;
        proof {
            assert(driver.objects() =~= before.objects().push(
                Object { kind: ObjectKind::Swapchain, alive: true },
            ) + fresh(ObjectKind::ImageView, 0));
            assert(driver.commands() =~= before.commands().push(
                Command::CreateSwapchain { swapchain, swapchain_info: info },
            ) + Seq::new(
                0,
                |k: int|
                    Command::CreateImageView {
                        view: (swapchain + 1 + k) as Handle,
                        view_info: color_view_info(swapchain, k as u32, info.image_format),
                    },
            ));
        }
        while i < FRAME_COUNT
            invariant
                i <= FRAME_COUNT,
                swapchain == before.objects().len(),
                info.image_format == surface_format.format,
                views@ == handles_from(swapchain + 1, i as nat),
                driver.objects() == before.objects().push(
                    Object { kind: ObjectKind::Swapchain, alive: true },
                ) + fresh(ObjectKind::ImageView, i as nat),
                driver.commands() == before.commands().push(
                    Command::CreateSwapchain { swapchain, swapchain_info: info },
                ) + Seq::new(
                    i as nat,
                    |k: int|
                        Command::CreateImageView {
                            view: (swapchain + 1 + k) as Handle,
                            view_info: color_view_info(swapchain, k as u32, info.image_format),
                        },
                ),
            decreases FRAME_COUNT - i,
        {
            let view = driver.create(ObjectKind::ImageView);
            let view_info = ImageViewInfo {
                        image: ImageSource::SwapchainImage { swapchain, index: i as u32 },
                        view_type: api::IMAGE_VIEW_TYPE_2D,
                        format: surface_format.format,
                        components: [
                            api::COMPONENT_SWIZZLE_R,
                            api::COMPONENT_SWIZZLE_G,
                            api::COMPONENT_SWIZZLE_B,
                            api::COMPONENT_SWIZZLE_A,
                        ],
                        aspect_mask: api::IMAGE_ASPECT_COLOR,
                        base_mip_level: 0,
                        level_count: 1,
                        base_array_layer: 0,
                        layer_count: 1,
                    };
            driver.record(Command::CreateImageView { view, view_info });
            views.push(view);
            i += 1;
            proof {
                assert(views@ =~= handles_from(swapchain + 1, i as nat));
                assert(driver.objects() =~= before.objects().push(
                    Object { kind: ObjectKind::Swapchain, alive: true },
                ) + fresh(ObjectKind::ImageView, i as nat));
                assert(driver.commands() =~= before.commands().push(
                    Command::CreateSwapchain { swapchain, swapchain_info: info },
                ) + Seq::new(
                    i as nat,
                    |k: int|
                        Command::CreateImageView {
                            view: (swapchain + 1 + k) as Handle,
                            view_info: color_view_info(swapchain, k as u32, info.image_format),
                        },
                ));
            }
        }
        proof {
            assert(driver.commands() =~= before.commands() + swapchain_commands(swapchain, info));
        }
        (swapchain, views)
    }

    /// Destroys the views of the swapchain images, then the swapchain.
    pub fn destroy_swapchain(driver: &mut Driver, swapchain: Handle, swapchain_views: Vec<Handle>)
        requires
            old(driver).has(swapchain, ObjectKind::Swapchain),
            forall|i: int|
                0 <= i < swapchain_views@.len() ==> old(driver).has(
                    #[trigger] swapchain_views@[i],
                    ObjectKind::ImageView,
                ),
            swapchain_views@.no_duplicates(),
        ensures
            final(driver).objects() == without(
                old(driver).objects(),
                swapchain_views@.to_set().insert(swapchain),
            ),
            final(driver).commands() == old(driver).commands() + Seq::new(
                swapchain_views@.len(),
                |i: int|
                    Command::Destroy { kind: ObjectKind::ImageView, handle: swapchain_views@[i] },
            ).push(Command::Destroy { kind: ObjectKind::Swapchain, handle: swapchain }),
    {
        driver.destroy_each(ObjectKind::ImageView, &swapchain_views);
        driver.destroy(ObjectKind::Swapchain, swapchain);
        proof {
            assert(driver.objects() =~= without(
                old(driver).objects(),
                swapchain_views@.to_set().insert(swapchain),
            ));
        }
    }

    /// The depth formats that the backend can work with, the preferred one
    /// first: what a device is asked about before it is used.
    pub fn depth_format_candidates() -> (formats: Vec<i32>)
        ensures
            formats@ == depth_formats(),
    {
        let mut formats: Vec<i32> = Vec::new();
        formats.push(api::FORMAT_D32_SFLOAT_S8_UINT);
        formats.push(api::FORMAT_D24_UNORM_S8_UINT);
        proof {
            assert(formats@ =~= depth_formats());
        }
        formats
    }

    /// Chooses the format of the depth image on `gpu`: the first of the
    /// depth formats that the device can use as a depth attachment of
    /// optimal tiling, or the undefined format if there is none.
    pub fn choose_depth_format(gpu: &GpuInfo) -> (format: i32)
        ensures
            format == depth_format(*gpu),
    {
        let formats = Self::depth_format_candidates();
        Image::choose_fmt(
            gpu,
            &formats,
            api::IMAGE_TILING_OPTIMAL,
            api::FORMAT_FEATURE_DEPTH_STENCIL_ATTACHMENT,
        )
    }

    /// Creates the depth image: of the first depth format that `gpu` can use
    /// as a depth attachment, of the given size, in memory of the device.
    pub fn create_render_targets(driver: &mut Driver, gpu: &GpuInfo, extent: &Extent2D) -> (depth: Image)
        requires
            depth_format(*gpu) != api::FORMAT_UNDEFINED,
        ensures
            depth.handle == old(driver).objects().len(),
            depth.allocation == depth.handle + 1,
            depth.view == depth.handle + 2,
            depth.format == depth_format(*gpu),
            final(driver).objects() == old(driver).objects().push(
                Object { kind: ObjectKind::Image, alive: true },
            ).push(Object { kind: ObjectKind::Allocation, alive: true }).push(
                Object { kind: ObjectKind::ImageView, alive: true },
            ),
            final(driver).commands() == old(driver).commands() + depth_image_commands(
                depth.handle,
                depth.format,
                *extent,
            ),
    {
        let format = Self::choose_depth_format(gpu);
        Self::create_depth_image(driver, format, extent)
    }

    /// Creates a depth image of the given format and size.
    pub fn create_depth_image(driver: &mut Driver, format: i32, extent: &Extent2D) -> (depth: Image)
        ensures
            depth.handle == old(driver).objects().len(),
            depth.allocation == depth.handle + 1,
            depth.view == depth.handle + 2,
            depth.format == format,
            final(driver).objects() == old(driver).objects().push(
                Object { kind: ObjectKind::Image, alive: true },
            ).push(Object { kind: ObjectKind::Allocation, alive: true }).push(
                Object { kind: ObjectKind::ImageView, alive: true },
            ),
            final(driver).commands() == old(driver).commands() + depth_image_commands(
                depth.handle,
                format,
                *extent,
            ),
    {
        let mut create_info = ImageInfo {
            image_type: api::IMAGE_TYPE_2D,
            format: api::FORMAT_UNDEFINED,
            extent: Extent3D { width: extent.width, height: extent.height, depth: 1 },
            mip_levels: 1,
            array_layers: 1,
            samples: api::SAMPLE_COUNT_1,
            tiling: api::IMAGE_TILING_OPTIMAL,
            usage: api::IMAGE_USAGE_DEPTH_STENCIL_ATTACHMENT,
        };
        let mut view_info = ImageViewInfo {
            image: ImageSource::Unset,
            view_type: api::IMAGE_VIEW_TYPE_2D,
            format: api::FORMAT_UNDEFINED,
            components: [0, 0, 0, 0],
            aspect_mask: api::IMAGE_ASPECT_DEPTH,
            base_mip_level: 0,
            level_count: 1,
            base_array_layer: 0,
            layer_count: 1,
        };
        let allocation_info = AllocationInfo {
            usage: MemoryUsage::AutoPreferDevice,
            required_flags: 0,
        };
        let depth = Image::new(driver, format, &mut create_info, &mut view_info, &allocation_info);
        proof {
            assert(driver.commands() =~= old(driver).commands() + depth_image_commands(
                depth.handle,
                format,
                *extent,
            ));
        }
        depth
    }

    /// Destroys the depth image.
    pub fn destroy_render_targets(driver: &mut Driver, depth_image: Image)
        requires
            depth_image.live_in(old(driver)),
        ensures
            final(driver).objects() == without(
                old(driver).objects(),
                set![depth_image.view, depth_image.handle, depth_image.allocation],
            ),
            final(driver).commands() == old(driver).commands().push(
                Command::Destroy { kind: ObjectKind::ImageView, handle: depth_image.view },
            ).push(
                Command::DestroyImage {
                    image: depth_image.handle,
                    allocation: depth_image.allocation,
                },
            ),
    {
        depth_image.destroy(driver);
    }
}

} // verus!
