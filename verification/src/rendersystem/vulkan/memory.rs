//! Images and buffers with their memory, and buffers that stay mapped for the
//! host to write.

use crate::rendersystem::vulkan::command::{
    AllocationInfo,
    BufferInfo,
    Command,
    Driver,
    Handle,
    ImageInfo,
    ImageSource,
    ImageViewInfo,
    MemoryUsage,
    Object,
    ObjectKind,
    Queue,
    without,
};
use crate::rendersystem::vulkan::gpu::{FormatProperties, GpuInfo};
use crate::rendersystem::vulkan::api;
use vstd::prelude::*;

verus! {

/// The feature bits of `properties` that count for images of the given
/// tiling; `None` for a tiling that is neither linear nor optimal.
pub open spec fn tiling_features(properties: FormatProperties, tiling: i32) -> Option<u32> {
    if tiling == api::IMAGE_TILING_LINEAR {
        Some(properties.linear_tiling_features)
    } else if tiling == api::IMAGE_TILING_OPTIMAL {
        Some(properties.optimal_tiling_features)
    } else {
        None
    }
}

/// The first entry of `table` for `format`.
pub open spec fn properties_of(table: Seq<FormatProperties>, format: i32) -> Option<
    FormatProperties,
>
    decreases table.len(),
{
    if table.len() == 0 {
        None
    } else if table.first().format == format {
        Some(table.first())
    } else {
        properties_of(table.drop_first(), format)
    }
}

/// Whether a device with the properties in `table` can use images of the
/// format with the given tiling for everything in `required_features`. A
/// format that the table does not list cannot be used.
pub open spec fn format_supported(
    table: Seq<FormatProperties>,
    format: i32,
    tiling: i32,
    required_features: u32,
) -> bool {
    match properties_of(table, format) {
        Some(properties) => match tiling_features(properties, tiling) {
            Some(features) => features & required_features == required_features,
            None => false,
        },
        None => false,
    }
}

/// The first of `formats` that is supported, or the undefined format if
/// none is.
pub open spec fn chosen_format(
    table: Seq<FormatProperties>,
    formats: Seq<i32>,
    tiling: i32,
    required_features: u32,
) -> i32
    decreases formats.len(),
{
    if formats.len() == 0 {
        api::FORMAT_UNDEFINED
    } else if format_supported(table, formats.first(), tiling, required_features) {
        formats.first()
    } else {
        chosen_format(table, formats.drop_first(), tiling, required_features)
    }
}

/// Whether a device with the properties in `table` can use images of the
/// format with the given tiling for everything in `required_features`.
pub fn supports_format(
    table: &Vec<FormatProperties>,
    format: i32,
    tiling: i32,
    required_features: u32,
) -> (yes: bool)
    ensures
        yes == format_supported(table@, format, tiling, required_features),
{
    let mut i: usize = 0;
    proof {
        assert(table@.skip(0) =~= table@);
    }
    while i < table.len()
        invariant
            i <= table.len(),
            properties_of(table@, format) == properties_of(table@.skip(i as int), format),
        decreases table.len() - i,
    {
        proof {
            assert(table@.skip(i as int).drop_first() =~= table@.skip(i + 1));
        }
        if table[i].format == format {
            let properties = table[i];
            return if tiling == api::IMAGE_TILING_LINEAR {
                properties.linear_tiling_features & required_features == required_features
            } else if tiling == api::IMAGE_TILING_OPTIMAL {
                properties.optimal_tiling_features & required_features == required_features
            } else {
                false
            };
        }
        i += 1;
    }
    false
}

/// A chosen format is the undefined one or one of the candidates, and then
/// a supported one before which none is supported.
pub proof fn chosen_format_properties(
    table: Seq<FormatProperties>,
    formats: Seq<i32>,
    tiling: i32,
    required_features: u32,
)
    ensures
        ({
            let chosen = chosen_format(table, formats, tiling, required_features);
            ||| {
                &&& chosen == api::FORMAT_UNDEFINED
                &&& forall|i: int|
                    0 <= i < formats.len() ==> !format_supported(
                        table,
                        #[trigger] formats[i],
                        tiling,
                        required_features,
                    )
            }
            ||| exists|i: int|
                {
                    &&& 0 <= i < formats.len()
                    &&& chosen == #[trigger] formats[i]
                    &&& format_supported(table, formats[i], tiling, required_features)
                    &&& forall|j: int|
                        0 <= j < i ==> !format_supported(
                            table,
                            #[trigger] formats[j],
                            tiling,
                            required_features,
                        )
                }
        }),
    decreases formats.len(),
{
    if formats.len() > 0 && !format_supported(table, formats.first(), tiling, required_features) {
        let rest = formats.drop_first();
        chosen_format_properties(table, rest, tiling, required_features);
        let chosen = chosen_format(table, rest, tiling, required_features);
        if exists|i: int|
            {
                &&& 0 <= i < rest.len()
                &&& chosen == #[trigger] rest[i]
                &&& format_supported(table, rest[i], tiling, required_features)
                &&& forall|j: int|
                    0 <= j < i ==> !format_supported(
                        table,
                        #[trigger] rest[j],
                        tiling,
                        required_features,
                    )
            } {
            let i = choose|i: int|
                {
                    &&& 0 <= i < rest.len()
                    &&& chosen == #[trigger] rest[i]
                    &&& format_supported(table, rest[i], tiling, required_features)
                    &&& forall|j: int|
                        0 <= j < i ==> !format_supported(
                            table,
                            #[trigger] rest[j],
                            tiling,
                            required_features,
                        )
                };
            assert(formats[i + 1] == rest[i]);
            assert forall|j: int| 0 <= j < i + 1 implies !format_supported(
                table,
                #[trigger] formats[j],
                tiling,
                required_features,
            ) by {
                if j > 0 {
                    assert(formats[j] == rest[j - 1]);
                }
            }
        } else {
            assert forall|i: int| 0 <= i < formats.len() implies !format_supported(
                table,
                #[trigger] formats[i],
                tiling,
                required_features,
            ) by {
                if i > 0 {
                    assert(formats[i] == rest[i - 1]);
                }
            }
        }
    } else if formats.len() > 0 {
        assert(formats[0] == formats.first());
    }
}

/// An image with its memory and one view of it.
#[derive(Clone, Copy, Debug, PartialEq, Eq)]
pub struct Image {
    pub handle: Handle,
    pub allocation: Handle,
    pub view: Handle,
    pub format: i32,
}

impl Image {
    /// Whether the image, its memory and its view exist in `driver`.
    pub open spec fn live_in(self, driver: &Driver) -> bool {
        &&& driver.has(self.handle, ObjectKind::Image)
        &&& driver.has(self.allocation, ObjectKind::Allocation)
        &&& driver.has(self.view, ObjectKind::ImageView)
    }

    /// Creates an image of the given format with its memory, and a view of
    /// it. The format is written into both descriptions, and the new image
    /// into that of the view, before each is used.
    pub fn new(
        driver: &mut Driver,
        format: i32,
        create_info: &mut ImageInfo,
        view_info: &mut ImageViewInfo,
        allocation_info: &AllocationInfo,
    ) -> (image: Image)
        ensures
            *final(create_info) == (ImageInfo { format, ..*old(create_info) }),
            *final(view_info) == (ImageViewInfo {
                image: ImageSource::Image(image.handle),
                format,
                ..*old(view_info)
            }),
            image.handle == old(driver).objects().len(),
            image.allocation == image.handle + 1,
            image.view == image.handle + 2,
            image.format == format,
            final(driver).objects() == old(driver).objects().push(
                Object { kind: ObjectKind::Image, alive: true },
            ).push(Object { kind: ObjectKind::Allocation, alive: true }).push(
                Object { kind: ObjectKind::ImageView, alive: true },
            ),
            final(driver).commands() == old(driver).commands().push(
                Command::CreateImage {
                    image: image.handle,
                    allocation: image.allocation,
                    image_info: *final(create_info),
                    memory: *allocation_info,
                },
            ).push(Command::CreateImageView { view: image.view, view_info: *final(view_info) }),
            image.live_in(final(driver)),
    {
        create_info.format = format;
        let handle = driver.create(ObjectKind::Image);
        let allocation = driver.create(ObjectKind::Allocation);
        driver.record(
            Command::CreateImage {
                image: handle,
                allocation,
                image_info: *create_info,
                memory: *allocation_info,
            },
        );
        view_info.image = ImageSource::Image(handle);
        view_info.format = format;
        let view = driver.create(ObjectKind::ImageView);
        driver.record(Command::CreateImageView { view, view_info: *view_info });
        Image { handle, allocation, view, format }
    }

    /// Destroys the view, then the image with its memory.
    pub fn destroy(self, driver: &mut Driver)
        requires
            self.live_in(old(driver)),
        ensures
            final(driver).objects() == without(
                old(driver).objects(),
                set![self.view, self.handle, self.allocation],
            ),
            final(driver).commands() == old(driver).commands().push(
                Command::Destroy { kind: ObjectKind::ImageView, handle: self.view },
            ).push(Command::DestroyImage { image: self.handle, allocation: self.allocation }),
    {
        driver.destroy(ObjectKind::ImageView, self.view);
        driver.record(Command::DestroyImage { image: self.handle, allocation: self.allocation });
        driver.retire(self.handle);
        driver.retire(self.allocation);
        proof {
            assert(driver.objects() =~= without(
                old(driver).objects(),
                set![self.view, self.handle, self.allocation],
            ));
        }
    }

    /// Picks the first of `formats` that the device can use, with the given
    /// tiling, for everything in `required_features`; the undefined format
    /// if it can use none of them.
    pub fn choose_fmt(
        gpu: &GpuInfo,
        formats: &Vec<i32>,
        tiling: i32,
        required_features: u32,
    ) -> (format: i32)
        ensures
            format == chosen_format(gpu.format_properties@, formats@, tiling, required_features),
    {
        let mut i: usize = 0;
        proof {
            assert(formats@.skip(0) =~= formats@);
        }
        while i < formats.len()
            invariant
                i <= formats.len(),
                chosen_format(gpu.format_properties@, formats@, tiling, required_features)
                    == chosen_format(
                    gpu.format_properties@,
                    formats@.skip(i as int),
                    tiling,
                    required_features,
                ),
            decreases formats.len() - i,
        {
            proof {
                assert(formats@.skip(i as int).drop_first() =~= formats@.skip(i + 1));
            }
            if supports_format(&gpu.format_properties, formats[i], tiling, required_features) {
                return formats[i];
            }
            i += 1;
        }
        api::FORMAT_UNDEFINED
    }

    pub fn handle(&self) -> (handle: Handle)
        ensures
            handle == self.handle,
    {
        self.handle
    }

    pub fn allocation(&self) -> (allocation: Handle)
        ensures
            allocation == self.allocation,
    {
        self.allocation
    }

    pub fn allocation_mut(&mut self) -> (allocation: &mut Handle)
        ensures
            *allocation == old(self).allocation,
            *final(self) == (Image { allocation: *final(allocation), ..*old(self) }),
    {
        &mut self.allocation
    }

    pub fn view(&self) -> (view: Handle)
        ensures
            view == self.view,
    {
        self.view
    }

    pub fn format(&self) -> (format: i32)
        ensures
            format == self.format,
    {
        self.format
    }
}

/// A buffer with its memory.
#[derive(Clone, Copy, Debug, PartialEq, Eq)]
pub struct Buffer {
    pub handle: Handle,
    pub allocation: Handle,
    /// The size in bytes.
    pub size: u64,
}

impl Buffer {
    /// Whether the buffer and its memory exist in `driver`.
    pub open spec fn live_in(self, driver: &Driver) -> bool {
        &&& driver.has(self.handle, ObjectKind::Buffer)
        &&& driver.has(self.allocation, ObjectKind::Allocation)
    }

    /// Creates a buffer of `size` bytes for the given uses, which one queue
    /// family at a time works with, in memory that has the properties in
    /// `flags`.
    pub fn new(driver: &mut Driver, size: u64, usage: u32, flags: u32) -> (buffer: Buffer)
        ensures
            buffer.handle == old(driver).objects().len(),
            buffer.allocation == buffer.handle + 1,
            buffer.size == size,
            final(driver).objects() == old(driver).objects().push(
                Object { kind: ObjectKind::Buffer, alive: true },
            ).push(Object { kind: ObjectKind::Allocation, alive: true }),
            final(driver).commands() == old(driver).commands().push(
                Command::CreateBuffer {
                    buffer: buffer.handle,
                    allocation: buffer.allocation,
                    buffer_info: BufferInfo { size, usage, sharing_mode: api::SHARING_MODE_EXCLUSIVE },
                    memory: AllocationInfo { usage: MemoryUsage::Unknown, required_flags: flags },
                },
            ),
            buffer.live_in(final(driver)),
    {
        let handle = driver.create(ObjectKind::Buffer);
        let allocation = driver.create(ObjectKind::Allocation);
        driver.record(
            Command::CreateBuffer {
                buffer: handle,
                allocation,
                buffer_info: BufferInfo { size, usage, sharing_mode: api::SHARING_MODE_EXCLUSIVE },
                memory: AllocationInfo { usage: MemoryUsage::Unknown, required_flags: flags },
            },
        );
        Buffer { handle, allocation, size }
    }

    /// The commands of a copy of `source` to `destination` through the
    /// command buffer `transfer`.
    pub open spec fn copy_commands(
        source: Buffer,
        queue: Queue,
        transfer_pool: Handle,
        fence: Handle,
        destination: Buffer,
        transfer: Handle,
    ) -> Seq<Command> {
        seq![
            Command::AllocateCommandBuffer { command_buffer: transfer, pool: transfer_pool },
            Command::BeginCommandBuffer {
                command_buffer: transfer,
                flags: api::COMMAND_BUFFER_USAGE_ONE_TIME_SUBMIT,
            },
            Command::CopyBuffer {
                command_buffer: transfer,
                source: source.handle,
                destination: destination.handle,
                size: source.size,
            },
            Command::EndCommandBuffer { command_buffer: transfer },
            Command::QueueSubmit {
                queue,
                command_buffer: transfer,
                wait_semaphore: None,
                wait_stage: 0,
                signal_semaphore: None,
                signal_fence: Some(fence),
            },
            Command::QueueWaitIdle { queue },
            Command::FreeCommandBuffer { pool: transfer_pool, command_buffer: transfer },
        ]
    }

    /// Copies the whole buffer to `destination` and waits until that is
    /// done: one command buffer is taken from `transfer_pool`, the copy is
    /// recorded into it for a single submission and submitted to `queue`
    /// with `fence`, the queue is waited for, and the command buffer is
    /// freed again.
    pub fn copy(
        &self,
        driver: &mut Driver,
        queue: &Queue,
        transfer_pool: Handle,
        fence: Handle,
        destination: &Buffer,
    )
        requires
            self.live_in(old(driver)),
            destination.live_in(old(driver)),
            old(driver).has(transfer_pool, ObjectKind::CommandPool),
            old(driver).has(fence, ObjectKind::Fence),
        ensures
            final(driver).objects() == old(driver).objects().push(
                Object { kind: ObjectKind::CommandBuffer, alive: false },
            ),
            final(driver).commands() == old(driver).commands() + Self::copy_commands(
                *self,
                *queue,
                transfer_pool,
                fence,
                *destination,
                old(driver).objects().len() as Handle,
            ),
    {
        let transfer = driver.create(ObjectKind::CommandBuffer);
        driver.record(
            Command::AllocateCommandBuffer { command_buffer: transfer, pool: transfer_pool },
        );
        driver.record(
            Command::BeginCommandBuffer {
                command_buffer: transfer,
                flags: api::COMMAND_BUFFER_USAGE_ONE_TIME_SUBMIT,
            },
        );
        driver.record(
            Command::CopyBuffer {
                command_buffer: transfer,
                source: self.handle,
                destination: destination.handle,
                size: self.size,
            },
        );
        driver.record(Command::EndCommandBuffer { command_buffer: transfer });
        driver.record(
            Command::QueueSubmit {
                queue: *queue,
                command_buffer: transfer,
                wait_semaphore: None,
                wait_stage: 0,
                signal_semaphore: None,
                signal_fence: Some(fence),
            },
        );
        driver.record(Command::QueueWaitIdle { queue: *queue });
        driver.record(
            Command::FreeCommandBuffer { pool: transfer_pool, command_buffer: transfer },
        );
        driver.retire(transfer);
        proof {
            assert(driver.objects() =~= old(driver).objects().push(
                Object { kind: ObjectKind::CommandBuffer, alive: false },
            ));
            assert(driver.commands() =~= old(driver).commands() + Self::copy_commands(
                *self,
                *queue,
                transfer_pool,
                fence,
                *destination,
                transfer,
            ));
        }
    }

    /// Destroys the buffer with its memory.
    pub fn destroy(self, driver: &mut Driver)
        requires
            self.live_in(old(driver)),
        ensures
            final(driver).objects() == without(
                old(driver).objects(),
                set![self.handle, self.allocation],
            ),
            final(driver).commands() == old(driver).commands().push(
                Command::DestroyBuffer { buffer: self.handle, allocation: self.allocation },
            ),
    {
        driver.record(Command::DestroyBuffer { buffer: self.handle, allocation: self.allocation });
        driver.retire(self.handle);
        driver.retire(self.allocation);
        proof {
            assert(driver.objects() =~= without(
                old(driver).objects(),
                set![self.handle, self.allocation],
            ));
        }
    }

    pub fn handle(&self) -> (handle: Handle)
        ensures
            handle == self.handle,
    {
        self.handle
    }

    pub fn allocation(&self) -> (allocation: Handle)
        ensures
            allocation == self.allocation,
    {
        self.allocation
    }

    pub fn allocation_mut(&mut self) -> (allocation: &mut Handle)
        ensures
            *allocation == old(self).allocation,
            *final(self) == (Buffer { allocation: *final(allocation), ..*old(self) }),
    {
        &mut self.allocation
    }

    pub fn size(&self) -> (size: u64)
        ensures
            size == self.size,
    {
        self.size
    }
}

/// A buffer whose memory is mapped for the host from its creation to its
/// destruction.
#[derive(Clone, Copy, Debug, PartialEq, Eq)]
pub struct HostBuffer {
    pub buffer: Buffer,
}

impl HostBuffer {
    /// Creates a buffer as [`Buffer::new`] does and maps its memory.
    pub fn new(driver: &mut Driver, size: u64, usage: u32, flags: u32) -> (host: HostBuffer)
        ensures
            host.buffer.handle == old(driver).objects().len(),
            host.buffer.allocation == host.buffer.handle + 1,
            host.buffer.size == size,
            final(driver).objects() == old(driver).objects().push(
                Object { kind: ObjectKind::Buffer, alive: true },
            ).push(Object { kind: ObjectKind::Allocation, alive: true }),
            final(driver).commands() == old(driver).commands().push(
                Command::CreateBuffer {
                    buffer: host.buffer.handle,
                    allocation: host.buffer.allocation,
                    buffer_info: BufferInfo { size, usage, sharing_mode: api::SHARING_MODE_EXCLUSIVE },
                    memory: AllocationInfo { usage: MemoryUsage::Unknown, required_flags: flags },
                },
            ).push(Command::MapMemory { allocation: host.buffer.allocation }),
            host.buffer.live_in(final(driver)),
    {
        let buffer = Buffer::new(driver, size, usage, flags);
        Self::from_buffer(driver, buffer)
    }

    /// Maps the memory of a buffer, to stay mapped.
    pub fn from_buffer(driver: &mut Driver, buffer: Buffer) -> (host: HostBuffer)
        requires
            buffer.live_in(old(driver)),
        ensures
            host.buffer == buffer,
            final(driver).objects() == old(driver).objects(),
            final(driver).commands() == old(driver).commands().push(
                Command::MapMemory { allocation: buffer.allocation },
            ),
    {
        driver.record(Command::MapMemory { allocation: buffer.allocation });
        HostBuffer { buffer }
    }

    /// Unmaps the memory, then destroys the buffer.
    pub fn destroy(self, driver: &mut Driver)
        requires
            self.buffer.live_in(old(driver)),
        ensures
            final(driver).objects() == without(
                old(driver).objects(),
                set![self.buffer.handle, self.buffer.allocation],
            ),
            final(driver).commands() == old(driver).commands().push(
                Command::UnmapMemory { allocation: self.buffer.allocation },
            ).push(
                Command::DestroyBuffer {
                    buffer: self.buffer.handle,
                    allocation: self.buffer.allocation,
                },
            ),
    {
        driver.record(Command::UnmapMemory { allocation: self.buffer.allocation });
        self.buffer.destroy(driver);
    }
}

} // verus!
