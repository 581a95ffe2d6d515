//! The calls that the driver is asked to make, and the record of the objects
//! that exist.
//!
//! An object is known by a [`Handle`] that the library gives it when it
//! records the call that creates it. Whoever carries the commands out keeps
//! the table from these handles to the driver's own.

use vstd::prelude::*;

verus! {

/// The name of an object: its place in the ledger of the [`Driver`] that
/// recorded its creation.
pub type Handle = usize;

/// What kind of object a handle names.
#[derive(Clone, Copy, Debug, PartialEq, Eq, Structural)]
pub enum ObjectKind {
    Instance,
    Surface,
    Device,
    Allocator,
    CommandPool,
    CommandBuffer,
    Fence,
    Semaphore,
    Swapchain,
    Image,
    ImageView,
    Buffer,
    /// The memory behind an image or a buffer.
    Allocation,
    DescriptorSetLayout,
    DescriptorPool,
    DescriptorSet,
    ShaderModule,
}

/// One entry of the ledger.
#[derive(Clone, Copy, Debug, PartialEq, Eq, Structural)]
pub struct Object {
    pub kind: ObjectKind,
    /// Whether the object was created and not destroyed since.
    pub alive: bool,
}

#[derive(Clone, Copy, Debug, PartialEq, Eq, Structural)]
pub struct Extent2D {
    pub width: u32,
    pub height: u32,
}

#[derive(Clone, Copy, Debug, PartialEq, Eq, Structural)]
pub struct Extent3D {
    pub width: u32,
    pub height: u32,
    pub depth: u32,
}

/// A queue of the logical device: the queue at `queue_index` of the family
/// `family_index`.
#[derive(Clone, Copy, Debug, PartialEq, Eq, Structural)]
pub struct Queue {
    pub family_index: u32,
    pub queue_index: u32,
}

/// The image that a view shows.
#[derive(Clone, Copy, Debug, PartialEq, Eq)]
pub enum ImageSource {
    /// No image yet.
    Unset,
    /// An image of its own.
    Image(Handle),
    /// The image at `index` of a swapchain.
    SwapchainImage { swapchain: Handle, index: u32 },
}

/// What an instance is created with.
#[derive(Clone, Copy, Debug, PartialEq, Eq)]
pub struct InstanceInfo {
    pub application_version: u32,
    pub engine_version: u32,
    pub api_version: u32,
    /// Whether the validation layers and the debug messenger are asked for.
    pub validation: bool,
}

/// What the logical device is created with.
#[derive(Clone, Copy, Debug, PartialEq, Eq)]
pub struct DeviceInfo {
    /// How many of `queue_families` are meant: one queue is asked of each.
    pub queue_family_count: u32,
    pub queue_families: [u32; 2],
    pub dynamic_rendering: bool,
    /// How many device extensions are enabled, the required ones.
    pub extension_count: usize,
}

/// What a swapchain is created with.
#[derive(Clone, Copy, Debug, PartialEq, Eq)]
pub struct SwapchainInfo {
    pub surface: Handle,
    pub min_image_count: u32,
    pub image_format: i32,
    pub image_color_space: i32,
    pub image_extent: Extent2D,
    pub image_array_layers: u32,
    pub image_usage: u32,
    pub image_sharing_mode: i32,
    /// How many of `queue_family_indices` share the images.
    pub queue_family_index_count: u32,
    pub queue_family_indices: [u32; 2],
    pub pre_transform: u32,
    pub composite_alpha: u32,
    pub present_mode: i32,
    pub clipped: bool,
}

/// What an image is created with.
#[derive(Clone, Copy, Debug, PartialEq, Eq)]
pub struct ImageInfo {
    pub image_type: i32,
    pub format: i32,
    pub extent: Extent3D,
    pub mip_levels: u32,
    pub array_layers: u32,
    pub samples: u32,
    pub tiling: i32,
    pub usage: u32,
}

/// What an image view is created with.
#[derive(Clone, Copy, Debug, PartialEq, Eq)]
pub struct ImageViewInfo {
    pub image: ImageSource,
    pub view_type: i32,
    pub format: i32,
    /// The swizzles of the red, green, blue and alpha components.
    pub components: [i32; 4],
    pub aspect_mask: u32,
    pub base_mip_level: u32,
    pub level_count: u32,
    pub base_array_layer: u32,
    pub layer_count: u32,
}

/// Where the allocator looks for memory.
#[derive(Clone, Copy, Debug, PartialEq, Eq)]
pub enum MemoryUsage {
    /// No preference: the required flags decide.
    Unknown,
    /// Memory of the device where there is some.
    AutoPreferDevice,
}

/// What the memory of an image or a buffer is allocated with.
#[derive(Clone, Copy, Debug, PartialEq, Eq)]
pub struct AllocationInfo {
    pub usage: MemoryUsage,
    /// The memory property bits that the memory must have.
    pub required_flags: u32,
}

/// What a buffer is created with.
#[derive(Clone, Copy, Debug, PartialEq, Eq)]
pub struct BufferInfo {
    pub size: u64,
    pub usage: u32,
    pub sharing_mode: i32,
}

/// One call that the driver is asked to make.
#[derive(Clone, Copy, Debug, PartialEq, Eq)]
pub enum Command {
    CreateInstance { instance: Handle, instance_info: InstanceInfo },
    /// Creates the surface of the window.
    CreateSurface { surface: Handle, instance: Handle },
    CreateDevice {
        device: Handle,
        instance: Handle,
        physical_device: u64,
        device_info: DeviceInfo,
    },
    /// Fetches a queue of the device.
    GetDeviceQueue { device: Handle, queue: Queue },
    CreateCommandPool { pool: Handle, flags: u32, queue_family_index: u32 },
    /// Allocates one primary command buffer.
    AllocateCommandBuffer { command_buffer: Handle, pool: Handle },
    CreateAllocator { allocator: Handle, instance: Handle, device: Handle, physical_device: u64 },
    CreateFence { fence: Handle, signaled: bool },
    CreateSemaphore { semaphore: Handle },
    CreateSwapchain { swapchain: Handle, swapchain_info: SwapchainInfo },
    CreateImageView { view: Handle, view_info: ImageViewInfo },
    /// Creates an image together with its memory.
    CreateImage {
        image: Handle,
        allocation: Handle,
        image_info: ImageInfo,
        memory: AllocationInfo,
    },
    /// Creates a buffer together with its memory.
    CreateBuffer {
        buffer: Handle,
        allocation: Handle,
        buffer_info: BufferInfo,
        memory: AllocationInfo,
    },
    /// Maps the memory into the address space of the host, to stay mapped.
    MapMemory { allocation: Handle },
    UnmapMemory { allocation: Handle },
    /// Writes the transforms that the frame is drawn with to the start of
    /// the mapped memory, `size` bytes of them.
    WriteUniforms { allocation: Handle, size: u64 },
    /// Creates a layout of one binding.
    CreateDescriptorSetLayout {
        layout: Handle,
        binding: u32,
        descriptor_type: i32,
        descriptor_count: u32,
        stage_flags: u32,
    },
    /// Creates a pool with `descriptor_count` descriptors of each of the
    /// first `type_count` descriptor types.
    CreateDescriptorPool {
        pool: Handle,
        flags: u32,
        max_sets: u32,
        type_count: u32,
        descriptor_count: u32,
    },
    AllocateDescriptorSet { set: Handle, pool: Handle, layout: Handle },
    /// Points a binding of a uniform buffer at `size` bytes from the start of
    /// `buffer`.
    WriteDescriptorSet { set: Handle, binding: u32, buffer: Handle, size: u64 },
    /// Creates a shader module from the binary of `code_size` bytes that was
    /// read for the stage.
    CreateShaderModule { module: Handle, stage: u32, code_size: usize },
    /// Destroys a buffer together with its memory.
    DestroyBuffer { buffer: Handle, allocation: Handle },
    /// Destroys an image together with its memory.
    DestroyImage { image: Handle, allocation: Handle },
    FreeCommandBuffer { pool: Handle, command_buffer: Handle },
    /// Destroys an object of the given kind. With a command pool go the
    /// command buffers allocated from it, with a descriptor pool its sets.
    Destroy { kind: ObjectKind, handle: Handle },
    /// Blocks until the fence is signaled.
    WaitForFence { fence: Handle },
    ResetFence { fence: Handle },
    /// Asks the swapchain for the image to draw into next; `semaphore` is
    /// signaled once the image can be written.
    AcquireNextImage { swapchain: Handle, semaphore: Handle },
    BeginCommandBuffer { command_buffer: Handle, flags: u32 },
    EndCommandBuffer { command_buffer: Handle },
    /// Copies the first `size` bytes of `source` to `destination`.
    CopyBuffer { command_buffer: Handle, source: Handle, destination: Handle, size: u64 },
    /// Binds the set and the two buffers and draws `index_count` indices.
    DrawIndexed {
        command_buffer: Handle,
        descriptor_set: Handle,
        vertex_buffer: Handle,
        index_buffer: Handle,
        index_count: u64,
    },
    /// Submits one command buffer. The work waits for `wait_semaphore` at
    /// the stages `wait_stage`, and signals `signal_semaphore` and
    /// `signal_fence` when done.
    QueueSubmit {
        queue: Queue,
        command_buffer: Handle,
        wait_semaphore: Option<Handle>,
        wait_stage: u32,
        signal_semaphore: Option<Handle>,
        signal_fence: Option<Handle>,
    },
    /// Blocks until the queue has no work left.
    QueueWaitIdle { queue: Queue },
    /// Shows the image acquired last, once `wait` is signaled.
    QueuePresent { queue: Queue, swapchain: Handle, wait: Handle },
}

/// The record of what exists and of what is still to be done: a ledger with
/// one entry for each object ever created, and the commands recorded since
/// they were last taken.
pub struct Driver {
    objects: Vec<Object>,
    commands: Vec<Command>,
}

/// Whether the ledger `objects` has an object of the given kind at `handle`
/// that is alive.
pub open spec fn holds(objects: Seq<Object>, handle: Handle, kind: ObjectKind) -> bool {
    handle < objects.len() && objects[handle as int] == (Object { kind, alive: true })
}

/// The ledger `objects` after the objects named in `gone` were destroyed.
pub open spec fn without(objects: Seq<Object>, gone: Set<Handle>) -> Seq<Object> {
    Seq::new(
        objects.len(),
        |h: int|
            if gone.contains(h as Handle) {
                Object { kind: objects[h].kind, alive: false }
            } else {
                objects[h]
            },
    )
}

/// Destroying in two steps is destroying at once.
pub proof fn without_twice(objects: Seq<Object>, first: Set<Handle>, second: Set<Handle>)
    ensures
        without(without(objects, first), second) == without(objects, first.union(second)),
{
    assert(without(without(objects, first), second) =~= without(objects, first.union(second)));
}

/// How many entries of a ledger are alive.
pub open spec fn live_count(objects: Seq<Object>) -> nat
    decreases objects.len(),
{
    if objects.len() == 0 {
        0
    } else if objects.last().alive {
        live_count(objects.drop_last()) + 1
    } else {
        live_count(objects.drop_last())
    }
}

impl Driver {
    /// The ledger: the entry at a handle describes the object of that name.
    pub closed spec fn objects(&self) -> Seq<Object> {
        self.objects@
    }

    /// The commands recorded and not yet taken, oldest first.
    pub closed spec fn commands(&self) -> Seq<Command> {
        self.commands@
    }

    /// Whether `handle` names an object of the given kind that is alive.
    pub open spec fn has(&self, handle: Handle, kind: ObjectKind) -> bool {
        holds(self.objects(), handle, kind)
    }

    /// Whether `handle` names an object that is alive.
    pub open spec fn alive(&self, handle: Handle) -> bool {
        handle < self.objects().len() && self.objects()[handle as int].alive
    }

    /// A ledger has no more entries than there are handles.
    pub proof fn ledger_bounded(&self)
        ensures
            self.objects().len() <= usize::MAX,
    {
        assert(self.objects@.len() == self.objects.len());
    }

    /// A driver that has created nothing and recorded nothing.
    pub fn new() -> (driver: Driver)
        ensures
            driver.objects() == Seq::<Object>::empty(),
            driver.commands() == Seq::<Command>::empty(),
    {
        Driver { objects: Vec::new(), commands: Vec::new() }
    }

    /// Enters a new object into the ledger and returns its handle, which no
    /// object had before.
    pub fn create(&mut self, kind: ObjectKind) -> (handle: Handle)
        ensures
            handle == old(self).objects().len(),
            final(self).objects() == old(self).objects().push(Object { kind, alive: true }),
            final(self).commands() == old(self).commands(),
    {
        let handle = self.objects.len();
        self.objects.push(Object { kind, alive: true });
        handle
    }

    /// Marks an object as destroyed.
    pub fn retire(&mut self, handle: Handle)
        requires
            old(self).alive(handle),
        ensures
            final(self).objects() == without(old(self).objects(), set![handle]),
            final(self).commands() == old(self).commands(),
    {
        let kind = self.objects[handle].kind;
        self.objects.set(handle, Object { kind, alive: false });
        proof {
            assert(self.objects@.len() == self.objects.len());
            assert(self.objects@ =~= without(old(self).objects(), set![handle]));
        }
    }

    /// Destroys an object that is destroyed by a call of its own.
    pub fn destroy(&mut self, kind: ObjectKind, handle: Handle)
        requires
            old(self).has(handle, kind),
        ensures
            final(self).objects() == without(old(self).objects(), set![handle]),
            final(self).commands() == old(self).commands().push(Command::Destroy { kind, handle }),
    {
        self.record(Command::Destroy { kind, handle });
        self.retire(handle);
    }

    /// Destroys objects of one kind, in the order in which `handles` names
    /// them.
    pub fn destroy_each(&mut self, kind: ObjectKind, handles: &Vec<Handle>)
        requires
            forall|i: int| 0 <= i < handles@.len() ==> old(self).has(#[trigger] handles@[i], kind),
            handles@.no_duplicates(),
        ensures
            final(self).objects() == without(old(self).objects(), handles@.to_set()),
            final(self).commands() == old(self).commands() + Seq::new(
                handles@.len(),
                |i: int| Command::Destroy { kind, handle: handles@[i] },
            ),
    {
        let ghost before = *self;
        let mut i: usize = 0;
        proof {
            assert(handles@.take(0).to_set() =~= Set::<Handle>::empty());
            assert(self.objects() =~= without(before.objects(), handles@.take(0).to_set()));
            assert(self.commands() =~= before.commands() + Seq::new(
                0,
                |k: int| Command::Destroy { kind, handle: handles@[k] },
            ));
        }
        while i < handles.len()
            invariant
                i <= handles@.len(),
                handles@.no_duplicates(),
                forall|k: int|
                    0 <= k < handles@.len() ==> before.has(#[trigger] handles@[k], kind),
                self.objects() == without(before.objects(), handles@.take(i as int).to_set()),
                self.commands() == before.commands() + Seq::new(
                    i as nat,
                    |k: int| Command::Destroy { kind, handle: handles@[k] },
                ),
            decreases handles.len() - i,
        {
            let handle = handles[i];
            proof {
                assert(before.has(handles@[i as int], kind));
                let prior = handles@.take(i as int);
                if prior.to_set().contains(handle) {
                    let k = choose|k: int| 0 <= k < prior.len() && prior[k] == handle;
                    assert(handles@[k] == handles@[i as int]);
                }
            }
            self.destroy(kind, handle);
            i += 1;
            proof {
                let now = handles@.take(i as int);
                let prior = handles@.take(i - 1);
                assert forall|h: Handle| now.to_set().contains(h) <==> (prior.to_set().contains(h)
                    || h == handle) by {
                    if now.to_set().contains(h) {
                        let k = choose|k: int| 0 <= k < now.len() && now[k] == h;
                        if k < i - 1 {
                            assert(prior[k] == h);
                        }
                    }
                    if prior.to_set().contains(h) {
                        let k = choose|k: int| 0 <= k < prior.len() && prior[k] == h;
                        assert(now[k] == h);
                    }
                    if h == handle {
                        assert(now[i - 1] == h);
                    }
                }
                assert(self.objects() =~= without(before.objects(), now.to_set()));
                assert(self.commands() =~= before.commands() + Seq::new(
                    i as nat,
                    |k: int| Command::Destroy { kind, handle: handles@[k] },
                ));
            }
        }
        proof {
            assert(handles@.take(i as int) =~= handles@);
        }
    }

    /// Appends a command to those that are to be carried out.
    pub fn record(&mut self, command: Command)
        ensures
            final(self).commands() == old(self).commands().push(command),
            final(self).objects() == old(self).objects(),
    {
        self.commands.push(command);
    }

    /// Hands out the commands recorded so far, oldest first, and forgets
    /// them.
    pub fn take_commands(&mut self) -> (commands: Vec<Command>)
        ensures
            commands@ == old(self).commands(),
            final(self).commands() == Seq::<Command>::empty(),
            final(self).objects() == old(self).objects(),
    {
        let mut commands: Vec<Command> = Vec::new();
        core::mem::swap(&mut self.commands, &mut commands);
        commands
    }

    /// Whether `handle` names an object that is alive.
    pub fn is_alive(&self, handle: Handle) -> (yes: bool)
        ensures
            yes == self.alive(handle),
    {
        handle < self.objects.len() && self.objects[handle].alive
    }

    /// Whether `handle` names an object of the given kind that is alive.
    pub fn is_alive_as(&self, handle: Handle, kind: ObjectKind) -> (yes: bool)
        ensures
            yes == self.has(handle, kind),
    {
        handle < self.objects.len() && self.objects[handle].alive && self.objects[handle].kind
            == kind
    }

    /// How many objects are alive.
    pub fn live_objects(&self) -> (count: usize)
        ensures
            count == live_count(self.objects()),
    {
        let mut count: usize = 0;
        let mut i: usize = 0;
        while i < self.objects.len()
            invariant
                i <= self.objects@.len(),
                count == live_count(self.objects@.take(i as int)),
                count <= i,
            decreases self.objects.len() - i,
        {
            proof {
                assert(self.objects@.take(i + 1).drop_last() =~= self.objects@.take(i as int));
            }
            if self.objects[i].alive {
                count += 1;
            }
            i += 1;
        }
        proof {
            assert(self.objects@.take(i as int) =~= self.objects@);
        }
        count
    }
}

} // verus!
