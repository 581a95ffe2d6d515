//! The Vulkan backend.
//!
//! [`State`] keeps the books of the backend: which device is used, which
//! objects exist, which frame slot is next. Its operations record the driver
//! calls to be made; [`State::take_commands`] hands them out.

pub mod api;
pub mod command;
pub mod debug;
pub mod descriptor;
pub mod device;
pub mod frame;
pub mod gpu;
pub mod memory;
pub mod resource;
pub mod swapchain;
pub mod sync;
pub mod teardown;

use crate::rendersystem::vulkan::command::{
    holds,
    Command,
    Driver,
    Extent2D,
    Handle,
    Object,
    ObjectKind,
    Queue,
};
use crate::rendersystem::vulkan::descriptor::{
    buffer_objects,
    descriptor_set_commands,
    uniform_buffer_commands,
    UNIFORM_DATA_SIZE,
};
use crate::rendersystem::vulkan::device::{
    command_buffer_commands,
    command_pool_commands,
    device_commands,
    fresh,
    handles_from,
};
use crate::rendersystem::vulkan::gpu::{GpuInfo, SurfaceFormat};
use crate::rendersystem::vulkan::memory::{Buffer, HostBuffer, Image};
use crate::rendersystem::vulkan::swapchain::{
    chosen_present_mode,
    chosen_surface_format,
    depth_format,
    depth_image_commands,
    swapchain_commands,
    swapchain_info,
};
use crate::rendersystem::vulkan::sync::{alternate_handles, fence_commands, semaphore_commands};
use crate::video;
use vstd::prelude::*;

verus! {

/// How many frames can be in flight at once: the number of frame slots, and
/// of swapchain images.
pub const FRAME_COUNT: usize = 3;

/// The backend.
pub struct State {
    driver: Driver,
    initialized: bool,
    loaded: bool,
    in_frame: bool,
    instance: Handle,
    surface: Handle,
    device: Handle,
    allocator: Handle,
    gpu: usize,
    device_gpu: usize,
    gpus: Vec<GpuInfo>,
    graphics_queue: Queue,
    compute_queue: Queue,
    command_pool: Handle,
    transfer_pool: Handle,
    command_buffers: Vec<Handle>,
    fences: Vec<Handle>,
    acquire_semaphores: Vec<Handle>,
    render_complete_semaphores: Vec<Handle>,
    in_flight: Vec<bool>,
    frame_index: usize,
    swapchain: Handle,
    swapchain_views: Vec<Handle>,
    surface_format: SurfaceFormat,
    present_mode: i32,
    swapchain_extent: Extent2D,
    depth_image: Image,
    descriptor_layout: Handle,
    descriptor_pool: Handle,
    descriptor_sets: Vec<Handle>,
    uniform_buffers: Vec<HostBuffer>,
}

/// The objects of the backend.
pub struct Handles {
    pub instance: Handle,
    pub surface: Handle,
    pub device: Handle,
    pub allocator: Handle,
    pub graphics_queue: Queue,
    pub compute_queue: Queue,
    pub command_pool: Handle,
    pub transfer_pool: Handle,
    /// The command buffer of each frame slot.
    pub command_buffers: Seq<Handle>,
    /// The fence of each frame slot.
    pub fences: Seq<Handle>,
    pub acquire_semaphores: Seq<Handle>,
    pub render_complete_semaphores: Seq<Handle>,
    pub swapchain: Handle,
    pub swapchain_views: Seq<Handle>,
    pub depth_image: Image,
    pub descriptor_layout: Handle,
    pub descriptor_pool: Handle,
    pub descriptor_sets: Seq<Handle>,
    pub uniform_buffers: Seq<HostBuffer>,
}

/// What the backend is, as far as its operations depend on it.
pub struct StateView {
    pub initialized: bool,
    pub loaded: bool,
    /// Whether a frame was begun and not yet presented.
    pub in_frame: bool,
    /// The index in `gpus` of the device that is selected.
    pub gpu: usize,
    /// The index in `gpus` of the device that the logical device is on.
    pub device_gpu: usize,
    pub gpus: Seq<GpuInfo>,
    /// The frame slot that the next frame uses, or the current one does.
    pub frame_index: usize,
    /// For each frame slot, whether work was submitted in it whose fence
    /// has not been waited for since.
    pub in_flight: Seq<bool>,
    pub surface_format: SurfaceFormat,
    pub present_mode: i32,
    pub swapchain_extent: Extent2D,
    pub handles: Handles,
    /// The ledger of the objects.
    pub objects: Seq<Object>,
    /// The commands recorded and not yet taken.
    pub commands: Seq<Command>,
}

/// Whether `handles` names `count` objects of one kind in `objects`, each
/// once.
pub open spec fn group(objects: Seq<Object>, handles: Seq<Handle>, kind: ObjectKind) -> bool {
    &&& handles.len() == FRAME_COUNT
    &&& forall|i: int| 0 <= i < handles.len() ==> holds(objects, #[trigger] handles[i], kind)
    &&& handles.no_duplicates()
}

impl Handles {
    /// The handles before the backend is initialized: the instance and the
    /// surface, and of the rest none.
    pub open spec fn bare(instance: Handle, surface: Handle) -> Handles {
        Handles {
            instance,
            surface,
            device: 0,
            allocator: 0,
            graphics_queue: Queue { family_index: 0, queue_index: 0 },
            compute_queue: Queue { family_index: 0, queue_index: 0 },
            command_pool: 0,
            transfer_pool: 0,
            command_buffers: Seq::empty(),
            fences: Seq::empty(),
            acquire_semaphores: Seq::empty(),
            render_complete_semaphores: Seq::empty(),
            swapchain: 0,
            swapchain_views: Seq::empty(),
            depth_image: Image { handle: 0, allocation: 0, view: 0, format: 0 },
            descriptor_layout: 0,
            descriptor_pool: 0,
            descriptor_sets: Seq::empty(),
            uniform_buffers: Seq::empty(),
        }
    }

    /// The handles after initialization on `gpu`, when the first object it
    /// creates gets the handle `first`.
    pub open spec fn initial(instance: Handle, surface: Handle, first: int, gpu: GpuInfo) -> Handles {
        Handles {
            instance,
            surface,
            device: first as Handle,
            allocator: (first + 6) as Handle,
            graphics_queue: Queue { family_index: gpu.graphics_family_index, queue_index: 0 },
            compute_queue: Queue { family_index: gpu.compute_family_index, queue_index: 0 },
            command_pool: (first + 1) as Handle,
            transfer_pool: (first + 2) as Handle,
            command_buffers: handles_from(first + 3, FRAME_COUNT as nat),
            fences: handles_from(first + 7, FRAME_COUNT as nat),
            acquire_semaphores: alternate_handles(first + 10, FRAME_COUNT as nat),
            render_complete_semaphores: alternate_handles(first + 11, FRAME_COUNT as nat),
            swapchain: (first + 16) as Handle,
            swapchain_views: handles_from(first + 17, FRAME_COUNT as nat),
            depth_image: Image {
                handle: (first + 20) as Handle,
                allocation: (first + 21) as Handle,
                view: (first + 22) as Handle,
                format: depth_format(gpu),
            },
            descriptor_layout: (first + 23) as Handle,
            descriptor_pool: (first + 24) as Handle,
            descriptor_sets: handles_from(first + 31, FRAME_COUNT as nat),
            uniform_buffers: Seq::new(
                FRAME_COUNT as nat,
                |i: int|
                    HostBuffer {
                        buffer: Buffer {
                            handle: (first + 25 + 2 * i) as Handle,
                            allocation: (first + 26 + 2 * i) as Handle,
                            size: UNIFORM_DATA_SIZE,
                        },
                    },
            ),
        }
    }

    /// Whether every object of an initialized backend is alive in `objects`,
    /// and no two of them are the same.
    pub open spec fn live_in(self, objects: Seq<Object>) -> bool {
        &&& holds(objects, self.device, ObjectKind::Device)
        &&& holds(objects, self.allocator, ObjectKind::Allocator)
        &&& holds(objects, self.command_pool, ObjectKind::CommandPool)
        &&& holds(objects, self.transfer_pool, ObjectKind::CommandPool)
        &&& self.command_pool != self.transfer_pool
        &&& group(objects, self.command_buffers, ObjectKind::CommandBuffer)
        &&& group(objects, self.fences, ObjectKind::Fence)
        &&& group(objects, self.acquire_semaphores, ObjectKind::Semaphore)
        &&& group(objects, self.render_complete_semaphores, ObjectKind::Semaphore)
        &&& forall|i: int, j: int|
            0 <= i < FRAME_COUNT && 0 <= j < FRAME_COUNT ==> self.acquire_semaphores[i]
                != self.render_complete_semaphores[j]
        &&& holds(objects, self.swapchain, ObjectKind::Swapchain)
        &&& group(objects, self.swapchain_views, ObjectKind::ImageView)
        &&& holds(objects, self.depth_image.handle, ObjectKind::Image)
        &&& holds(objects, self.depth_image.allocation, ObjectKind::Allocation)
        &&& holds(objects, self.depth_image.view, ObjectKind::ImageView)
        &&& self.depth_image.allocation == self.depth_image.handle + 1
        &&& forall|i: int| 0 <= i < FRAME_COUNT ==> self.swapchain_views[i] != self.depth_image.view
        &&& holds(objects, self.descriptor_layout, ObjectKind::DescriptorSetLayout)
        &&& holds(objects, self.descriptor_pool, ObjectKind::DescriptorPool)
        &&& group(objects, self.descriptor_sets, ObjectKind::DescriptorSet)
        &&& self.uniform_buffers.len() == FRAME_COUNT
        &&& forall|i: int|
            0 <= i < FRAME_COUNT ==> {
                &&& holds(objects, (#[trigger] self.uniform_buffers[i]).buffer.handle, ObjectKind::Buffer)
                &&& holds(objects, self.uniform_buffers[i].buffer.allocation, ObjectKind::Allocation)
                &&& self.uniform_buffers[i].buffer.allocation == self.uniform_buffers[i].buffer.handle
                    + 1
            }
        &&& forall|i: int, j: int|
            0 <= i < j < FRAME_COUNT ==> self.uniform_buffers[i].buffer.handle
                != self.uniform_buffers[j].buffer.handle
    }
}

/// The ledger entries of what initialization creates, in the order of their
/// creation.
pub open spec fn init_objects() -> Seq<Object> {
    seq![Object { kind: ObjectKind::Device, alive: true }] + fresh(ObjectKind::CommandPool, 2)
        + fresh(ObjectKind::CommandBuffer, FRAME_COUNT as nat) + seq![
        Object { kind: ObjectKind::Allocator, alive: true },
    ] + fresh(ObjectKind::Fence, FRAME_COUNT as nat) + fresh(
        ObjectKind::Semaphore,
        2 * FRAME_COUNT as nat,
    ) + seq![Object { kind: ObjectKind::Swapchain, alive: true }] + fresh(
        ObjectKind::ImageView,
        FRAME_COUNT as nat,
    ) + seq![
        Object { kind: ObjectKind::Image, alive: true },
        Object { kind: ObjectKind::Allocation, alive: true },
        Object { kind: ObjectKind::ImageView, alive: true },
        Object { kind: ObjectKind::DescriptorSetLayout, alive: true },
        Object { kind: ObjectKind::DescriptorPool, alive: true },
    ] + buffer_objects(FRAME_COUNT as nat) + fresh(ObjectKind::DescriptorSet, FRAME_COUNT as nat)
}

/// The commands of an initialization on `gpu` for a window of the size
/// `extent`, when the first object it creates gets the handle `first`: the
/// logical device and its queues, the command pools and command buffers,
/// the allocator, the fences and semaphores, the swapchain with its views,
/// the depth image, the descriptor set layout and pool, the uniform buffers
/// and the descriptor sets.
pub open spec fn init_commands(
    instance: Handle,
    surface: Handle,
    first: int,
    gpu: GpuInfo,
    extent: Extent2D,
) -> Seq<Command> {
    let handles = Handles::initial(instance, surface, first, gpu);
    device_commands(handles.device, instance, gpu) + command_pool_commands(
        handles.command_pool,
        gpu.graphics_family_index,
    ) + command_buffer_commands(first + 3, handles.command_pool, FRAME_COUNT as nat) + seq![
        Command::CreateAllocator {
            allocator: handles.allocator,
            instance,
            device: handles.device,
            physical_device: gpu.device,
        },
    ] + fence_commands(first + 7, FRAME_COUNT as nat) + semaphore_commands(
        first + 10,
        2 * FRAME_COUNT as nat,
    ) + swapchain_commands(
        handles.swapchain,
        swapchain_info(
            gpu,
            surface,
            chosen_present_mode(gpu.present_modes@),
            chosen_surface_format(gpu.surface_formats@),
            extent,
        ),
    ) + depth_image_commands(handles.depth_image.handle, depth_format(gpu), extent) + seq![
        Command::CreateDescriptorSetLayout {
            layout: handles.descriptor_layout,
            binding: 0,
            descriptor_type: api::DESCRIPTOR_TYPE_UNIFORM_BUFFER,
            descriptor_count: 1,
            stage_flags: api::SHADER_STAGE_VERTEX,
        },
        Command::CreateDescriptorPool {
            pool: handles.descriptor_pool,
            flags: api::DESCRIPTOR_POOL_CREATE_FREE_DESCRIPTOR_SET,
            max_sets: 11000,
            type_count: descriptor::DESCRIPTOR_TYPE_COUNT,
            descriptor_count: descriptor::DESCRIPTORS_PER_TYPE,
        },
    ] + uniform_buffer_commands(first + 25, FRAME_COUNT as nat) + descriptor_set_commands(
        first + 31,
        handles.descriptor_pool,
        handles.descriptor_layout,
        handles.uniform_buffers,
    )
}

impl StateView {
    /// What holds of every backend: the instance and the surface exist; one
    /// that is not initialized has nothing else, is not loaded and in no
    /// frame; of one that is initialized all objects exist, the logical
    /// device is on one of the usable devices, with the formats chosen for
    /// it, and the slot of a frame that was begun has no work in flight.
    pub open spec fn wf(self) -> bool {
        &&& holds(self.objects, self.handles.instance, ObjectKind::Instance)
        &&& holds(self.objects, self.handles.surface, ObjectKind::Surface)
        &&& !self.initialized ==> {
            &&& !self.loaded
            &&& !self.in_frame
            &&& self.objects.len() == 2
            &&& self.handles == Handles::bare(self.handles.instance, self.handles.surface)
        }
        &&& self.initialized ==> {
            &&& self.gpu < self.gpus.len()
            &&& self.device_gpu < self.gpus.len()
            &&& forall|i: int| 0 <= i < self.gpus.len() ==> (#[trigger] self.gpus[i]).well_formed()
            &&& self.handles.depth_image.format == depth_format(self.gpus[self.device_gpu as int])
            &&& self.handles.depth_image.format != api::FORMAT_UNDEFINED
            &&& self.handles.graphics_queue == (Queue {
                family_index: self.gpus[self.device_gpu as int].graphics_family_index,
                queue_index: 0,
            })
            &&& self.handles.compute_queue == (Queue {
                family_index: self.gpus[self.device_gpu as int].compute_family_index,
                queue_index: 0,
            })
            &&& self.surface_format == chosen_surface_format(
                self.gpus[self.device_gpu as int].surface_formats@,
            )
            &&& self.present_mode == chosen_present_mode(
                self.gpus[self.device_gpu as int].present_modes@,
            )
            &&& self.frame_index < FRAME_COUNT
            &&& self.in_flight.len() == FRAME_COUNT
            &&& self.in_frame ==> !self.in_flight[self.frame_index as int]
            &&& self.handles.live_in(self.objects)
        }
    }

    /// How many frame slots have work in flight.
    pub open spec fn frames_in_flight(self) -> nat {
        self.in_flight.filter(|busy: bool| busy).len()
    }

    /// The backend right after [`State::new`].
    pub open spec fn fresh(major: u8, minor: u8, patch: u8, validation: bool) -> StateView {
        StateView {
            initialized: false,
            loaded: false,
            in_frame: false,
            gpu: 0,
            device_gpu: 0,
            gpus: Seq::empty(),
            frame_index: 0,
            in_flight: Seq::empty(),
            surface_format: SurfaceFormat { format: 0, color_space: 0 },
            present_mode: 0,
            swapchain_extent: Extent2D { width: 0, height: 0 },
            handles: Handles::bare(0, 1),
            objects: seq![
                Object { kind: ObjectKind::Instance, alive: true },
                Object { kind: ObjectKind::Surface, alive: true },
            ],
            commands: seq![
                Command::CreateInstance {
                    instance: 0,
                    instance_info: State::instance_info(major, minor, patch, validation),
                },
                Command::CreateSurface { surface: 1, instance: 0 },
            ],
        }
    }

    /// The backend that an initialization with the candidates `gpus`, for a
    /// window of the size `extent`, makes of the backend `self`: on the first
    /// candidate, with nothing loaded, before the first frame.
    pub open spec fn initialize(self, gpus: Seq<GpuInfo>, extent: Extent2D) -> StateView {
        StateView {
            initialized: true,
            loaded: false,
            in_frame: false,
            gpu: 0,
            device_gpu: 0,
            gpus,
            frame_index: 0,
            in_flight: Seq::new(FRAME_COUNT as nat, |i: int| false),
            surface_format: chosen_surface_format(gpus[0].surface_formats@),
            present_mode: chosen_present_mode(gpus[0].present_modes@),
            swapchain_extent: extent,
            handles: Handles::initial(
                self.handles.instance,
                self.handles.surface,
                self.objects.len() as int,
                gpus[0],
            ),
            objects: self.objects + init_objects(),
            commands: self.commands + init_commands(
                self.handles.instance,
                self.handles.surface,
                self.objects.len() as int,
                gpus[0],
                extent,
            ),
        }
    }
}

/// Initialization leaves a backend as it should be.
pub proof fn initialize_well_formed(before: StateView, gpus: Seq<GpuInfo>, extent: Extent2D)
    requires
        before.wf(),
        !before.initialized,
        gpus.len() >= 1,
        forall|i: int| 0 <= i < gpus.len() ==> (#[trigger] gpus[i]).well_formed(),
        depth_format(gpus[0]) != api::FORMAT_UNDEFINED,
    ensures
        before.initialize(gpus, extent).wf(),
{
    let after = before.initialize(gpus, extent);
    let objects = after.objects;
    let handles = after.handles;
    assert(objects.len() == 36);
    assert forall|h: int| 0 <= h < 36 implies (#[trigger] objects[h]).alive by {}
    assert(handles.live_in(objects));
}

impl View for State {
    type V = StateView;

    closed spec fn view(&self) -> StateView {
        StateView {
            initialized: self.initialized,
            loaded: self.loaded,
            in_frame: self.in_frame,
            gpu: self.gpu,
            device_gpu: self.device_gpu,
            gpus: self.gpus@,
            frame_index: self.frame_index,
            in_flight: self.in_flight@,
            surface_format: self.surface_format,
            present_mode: self.present_mode,
            swapchain_extent: self.swapchain_extent,
            handles: Handles {
                instance: self.instance,
                surface: self.surface,
                device: self.device,
                allocator: self.allocator,
                graphics_queue: self.graphics_queue,
                compute_queue: self.compute_queue,
                command_pool: self.command_pool,
                transfer_pool: self.transfer_pool,
                command_buffers: self.command_buffers@,
                fences: self.fences@,
                acquire_semaphores: self.acquire_semaphores@,
                render_complete_semaphores: self.render_complete_semaphores@,
                swapchain: self.swapchain,
                swapchain_views: self.swapchain_views@,
                depth_image: self.depth_image,
                descriptor_layout: self.descriptor_layout,
                descriptor_pool: self.descriptor_pool,
                descriptor_sets: self.descriptor_sets@,
                uniform_buffers: self.uniform_buffers@,
            },
            objects: self.driver.objects(),
            commands: self.driver.commands(),
        }
    }
}

impl State {
    /// A backend that is not initialized yet. It has recorded the creation
    /// of the instance, for an application of the given version, and of the
    /// surface of the window: with these the devices can be enumerated.
    pub fn new(major: u8, minor: u8, patch: u8, validation: bool) -> (state: State)
        ensures
            state@ == StateView::fresh(major, minor, patch, validation),
            state@.wf(),
    {
        let mut driver = Driver::new();
        let instance = Self::create_instance(&mut driver, major, minor, patch, validation);
        let surface = driver.create(ObjectKind::Surface);
        driver.record(Command::CreateSurface { surface, instance });
        let state = State {
            driver,
            initialized: false,
            loaded: false,
            in_frame: false,
            instance,
            surface,
            device: 0,
            allocator: 0,
            gpu: 0,
            device_gpu: 0,
            gpus: Vec::new(),
            graphics_queue: Queue { family_index: 0, queue_index: 0 },
            compute_queue: Queue { family_index: 0, queue_index: 0 },
            command_pool: 0,
            transfer_pool: 0,
            command_buffers: Vec::new(),
            fences: Vec::new(),
            acquire_semaphores: Vec::new(),
            render_complete_semaphores: Vec::new(),
            in_flight: Vec::new(),
            frame_index: 0,
            swapchain: 0,
            swapchain_views: Vec::new(),
            surface_format: SurfaceFormat { format: 0, color_space: 0 },
            present_mode: 0,
            swapchain_extent: Extent2D { width: 0, height: 0 },
            depth_image: Image { handle: 0, allocation: 0, view: 0, format: 0 },
            descriptor_layout: 0,
            descriptor_pool: 0,
            descriptor_sets: Vec::new(),
            uniform_buffers: Vec::new(),
        };
        proof {
            let want = StateView::fresh(major, minor, patch, validation);
            assert(state@.objects =~= want.objects);
            assert(state@.commands =~= want.commands);
            assert(state@.gpus =~= want.gpus);
            assert(state@.in_flight =~= want.in_flight);
            assert(state@.handles.command_buffers =~= want.handles.command_buffers);
            assert(state@.handles.fences =~= want.handles.fences);
            assert(state@.handles.acquire_semaphores =~= want.handles.acquire_semaphores);
            assert(state@.handles.render_complete_semaphores
                =~= want.handles.render_complete_semaphores);
            assert(state@.handles.swapchain_views =~= want.handles.swapchain_views);
            assert(state@.handles.descriptor_sets =~= want.handles.descriptor_sets);
            assert(state@.handles.uniform_buffers =~= want.handles.uniform_buffers);
            assert(state@.handles == want.handles);
        }
        state
    }

    /// Initializes the backend on the first of the candidates `gpus`, for
    /// the window `video`: records the creation of the logical device and of
    /// everything that frames are rendered with. No resources are loaded
    /// afterwards, and the first frame will use slot 0. A backend that is
    /// initialized already is left as it is.
    ///
    /// The candidates are those that the selection offers, the best first.
    /// The first must be able to use one of the depth formats.
    pub fn init(&mut self, gpus: Vec<GpuInfo>, video: &video::State)
        requires
            old(self)@.wf(),
            gpus@.len() >= 1,
            forall|i: int| 0 <= i < gpus@.len() ==> (#[trigger] gpus@[i]).well_formed(),
            depth_format(gpus@[0]) != api::FORMAT_UNDEFINED,
        ensures
            final(self)@ == if old(self)@.initialized {
                old(self)@
            } else {
                old(self)@.initialize(
                    gpus@,
                    Extent2D { width: video.width(), height: video.height() },
                )
            },
            final(self)@.wf(),
    {
        if self.initialized {
            return ;
        }
        let instance = self.instance;
        let surface = self.surface;
        let ghost before = self@;
        let (device, graphics_queue, compute_queue) = Self::create_device(
            &mut self.driver,
            instance,
            &gpus[0],
        );
        let (command_pool, transfer_pool) = Self::create_cmd_pools(&mut self.driver, &gpus[0]);
        let command_buffers = Self::allocate_command_buffers(&mut self.driver, command_pool);
        let allocator = Self::create_allocator(&mut self.driver, instance, device, gpus[0].device);
        let fences = Self::create_fences(&mut self.driver);
        let (acquire_semaphores, render_complete_semaphores) = Self::create_semaphores(
            &mut self.driver,
        );
        let surface_format = Self::choose_surface_format(&gpus[0]);
        let present_mode = Self::choose_present_mode(&gpus[0]);
        let video_size = video.get_size();
        let swapchain_extent = Extent2D { width: video_size.0, height: video_size.1 };
        let (swapchain, swapchain_views) = Self::create_swapchain(
            &mut self.driver,
            &gpus[0],
            surface,
            present_mode,
            &surface_format,
            &swapchain_extent,
        );
        let depth_image = Self::create_render_targets(&mut self.driver, &gpus[0], &swapchain_extent);
        let descriptor_layout = Self::create_descriptor_layout(&mut self.driver);
        let descriptor_pool = Self::create_descriptor_pool(&mut self.driver);
        let uniform_buffers = Self::allocate_uniform_buffers(&mut self.driver);
        let descriptor_sets = Self::allocate_descriptor_sets(
            &mut self.driver,
            descriptor_layout,
            descriptor_pool,
            &uniform_buffers,
        );
        let mut in_flight: Vec<bool> = Vec::new();
        in_flight.push(false);
        in_flight.push(false);
        in_flight.push(false);

        self.initialized = true;
        self.loaded = false;
        self.in_frame = false;
        self.device = device;
        self.allocator = allocator;
        self.gpu = 0;
        self.device_gpu = 0;
        self.gpus = gpus;
        self.graphics_queue = graphics_queue;
        self.compute_queue = compute_queue;
        self.command_pool = command_pool;
        self.transfer_pool = transfer_pool;
        self.command_buffers = command_buffers;
        self.fences = fences;
        self.acquire_semaphores = acquire_semaphores;
        self.render_complete_semaphores = render_complete_semaphores;
        self.in_flight = in_flight;
        self.frame_index = 0;
        self.swapchain = swapchain;
        self.swapchain_views = swapchain_views;
        self.surface_format = surface_format;
        self.present_mode = present_mode;
        self.swapchain_extent = swapchain_extent;
        self.depth_image = depth_image;
        self.descriptor_layout = descriptor_layout;
        self.descriptor_pool = descriptor_pool;
        self.descriptor_sets = descriptor_sets;
        self.uniform_buffers = uniform_buffers;
        proof {
            let want = before.initialize(self.gpus@, swapchain_extent);
            assert(self@.objects =~= want.objects);
            assert(self@.commands =~= want.commands);
            assert(self@.in_flight =~= want.in_flight);
            assert(self@.handles.descriptor_sets =~= want.handles.descriptor_sets);
            assert(self@.handles.uniform_buffers =~= want.handles.uniform_buffers);
            assert(self@.handles == want.handles);
            assert(self@ == want);
            initialize_well_formed(before, self.gpus@, swapchain_extent);
        }
    }

    /// Hands out the commands recorded so far, oldest first, and forgets
    /// them. They are to be carried out in this order before anything else
    /// is asked of the driver.
    pub fn take_commands(&mut self) -> (commands: Vec<Command>)
        ensures
            commands@ == old(self)@.commands,
            final(self)@ == (StateView { commands: Seq::empty(), ..old(self)@ }),
    {
        self.driver.take_commands()
    }

    /// Whether the backend was initialized.
    pub fn is_initialized(&self) -> (yes: bool)
        ensures
            yes == self@.initialized,
    {
        self.initialized
    }

    /// Whether the resources are loaded.
    pub fn is_loaded(&self) -> (yes: bool)
        ensures
            yes == self@.loaded,
    {
        self.loaded
    }

    /// Whether a frame was begun and not yet presented.
    pub fn is_in_frame(&self) -> (yes: bool)
        ensures
            yes == self@.in_frame,
    {
        self.in_frame
    }

    /// How many objects there are that were created and not destroyed.
    pub fn live_objects(&self) -> (count: usize)
        ensures
            count == command::live_count(self@.objects),
    {
        self.driver.live_objects()
    }

    /// The size of the swapchain images.
    pub fn swapchain_extent(&self) -> (extent: Extent2D)
        ensures
            extent == self@.swapchain_extent,
    {
        self.swapchain_extent
    }

    /// The frame slot that the next frame uses, or the current one does.
    pub fn frame_index(&self) -> (slot: usize)
        ensures
            slot == self@.frame_index,
    {
        self.frame_index
    }

    /// The index of the device that is selected.
    pub fn gpu(&self) -> (index: usize)
        ensures
            index == self@.gpu,
    {
        self.gpu
    }

    /// The devices that can be used, the best first.
    pub fn gpus(&self) -> (gpus: &Vec<GpuInfo>)
        ensures
            gpus@ == self@.gpus,
    {
        &self.gpus
    }

    /// Selects the device at `gpu_idx` of the candidates, if there is one,
    /// and returns the index of the device that was selected before; with an
    /// index that names no candidate nothing changes. The logical device and
    /// what was created on it stay on the device they were created on.
    pub fn set_gpu(&mut self, gpu_idx: usize) -> (previous: usize)
        ensures
            previous == old(self)@.gpu,
            final(self)@ == (StateView {
                gpu: if gpu_idx < old(self)@.gpus.len() {
                    gpu_idx
                } else {
                    old(self)@.gpu
                },
                ..old(self)@
            }),
            old(self)@.wf() ==> final(self)@.wf(),
    {
        let old_idx = self.gpu;
        if gpu_idx < self.gpus.len() {
            self.gpu = gpu_idx;
        }
        old_idx
    }

    /// Marks the resources as loaded, if the backend is initialized.
    pub fn load_resources(&mut self)
        ensures
            final(self)@ == (StateView {
                loaded: old(self)@.loaded || old(self)@.initialized,
                ..old(self)@
            }),
            old(self)@.wf() ==> final(self)@.wf(),
    {
        if self.initialized {
            self.loaded = true;
        }
    }

    /// Marks the resources as not loaded.
    pub fn unload_resources(&mut self)
        ensures
            final(self)@ == (StateView { loaded: false, ..old(self)@ }),
            old(self)@.wf() ==> final(self)@.wf(),
    {
        self.loaded = false;
    }
}

} // verus!
