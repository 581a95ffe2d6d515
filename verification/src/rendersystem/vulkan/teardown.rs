//! The end of the backend: everything it created is destroyed, each object
//! once, and nothing before what was made from it.

use crate::rendersystem::vulkan::command::{
    holds,
    without,
    without_twice,
    Command,
    Driver,
    Handle,
    Object,
    ObjectKind,
};
use crate::rendersystem::vulkan::command::Extent2D;
use crate::rendersystem::vulkan::frame::{drain_commands, swapchain_teardown_commands};
use crate::rendersystem::vulkan::gpu::GpuInfo;
use crate::rendersystem::vulkan::memory::{HostBuffer, Image};
use crate::rendersystem::vulkan::{group, Handles, State, StateView, FRAME_COUNT};
use vstd::prelude::*;

verus! {

/// The buffers of `buffers` and their memory.
pub open spec fn buffer_handles(buffers: Seq<HostBuffer>) -> Set<Handle> {
    Set::new(
        |h: Handle|
            exists|i: int|
                0 <= i < buffers.len() && (h == (#[trigger] buffers[i]).buffer.handle || h
                    == buffers[i].buffer.allocation),
    )
}

/// The commands that unmap and destroy `buffers`, one after the other.
pub open spec fn buffer_teardown_commands(buffers: Seq<HostBuffer>) -> Seq<Command> {
    Seq::new(
        2 * buffers.len(),
        |k: int|
            if k % 2 == 0 {
                Command::UnmapMemory { allocation: buffers[k / 2].buffer.allocation }
            } else {
                Command::DestroyBuffer {
                    buffer: buffers[k / 2].buffer.handle,
                    allocation: buffers[k / 2].buffer.allocation,
                }
            },
    )
}

/// The commands that destroy each of `handles`, in their order.
pub open spec fn destroy_commands(kind: ObjectKind, handles: Seq<Handle>) -> Seq<Command> {
    Seq::new(handles.len(), |i: int| Command::Destroy { kind, handle: handles[i] })
}

impl Handles {
    /// The uniform buffers with their memory, the descriptor sets, the
    /// descriptor pool and the descriptor set layout.
    pub open spec fn descriptor_objects(self) -> Set<Handle> {
        buffer_handles(self.uniform_buffers).union(self.descriptor_sets.to_set()).union(
            set![self.descriptor_pool, self.descriptor_layout],
        )
    }

    /// The fences and the semaphores.
    pub open spec fn sync_objects(self) -> Set<Handle> {
        self.render_complete_semaphores.to_set().union(self.fences.to_set()).union(
            self.acquire_semaphores.to_set(),
        )
    }

    /// The command buffers and command pools, the allocator and the device.
    pub open spec fn base_objects(self) -> Set<Handle> {
        self.command_buffers.to_set().union(
            set![self.transfer_pool, self.command_pool, self.allocator, self.device],
        )
    }

    /// Every object of an initialized backend but the instance and the
    /// surface.
    pub open spec fn device_objects(self) -> Set<Handle> {
        self.descriptor_objects().union(self.swapchain_objects()).union(self.sync_objects()).union(
            self.base_objects(),
        )
    }

    /// The commands that destroy the uniform buffers, the descriptor pool
    /// with its sets, and the descriptor set layout.
    pub open spec fn descriptor_teardown_commands(self) -> Seq<Command> {
        buffer_teardown_commands(self.uniform_buffers) + seq![
            Command::Destroy { kind: ObjectKind::DescriptorPool, handle: self.descriptor_pool },
            Command::Destroy {
                kind: ObjectKind::DescriptorSetLayout,
                handle: self.descriptor_layout,
            },
        ]
    }

    /// The commands that destroy the semaphores for the finished rendering,
    /// the fences, and the semaphores for the acquired images.
    pub open spec fn sync_teardown_commands(self) -> Seq<Command> {
        destroy_commands(ObjectKind::Semaphore, self.render_complete_semaphores)
            + destroy_commands(ObjectKind::Fence, self.fences) + destroy_commands(
            ObjectKind::Semaphore,
            self.acquire_semaphores,
        )
    }

    /// The commands that destroy the transfer pool, the command pool with
    /// its command buffers, the allocator and the device.
    pub open spec fn base_teardown_commands(self) -> Seq<Command> {
        seq![
            Command::Destroy { kind: ObjectKind::CommandPool, handle: self.transfer_pool },
            Command::Destroy { kind: ObjectKind::CommandPool, handle: self.command_pool },
            Command::Destroy { kind: ObjectKind::Allocator, handle: self.allocator },
            Command::Destroy { kind: ObjectKind::Device, handle: self.device },
        ]
    }

    /// The commands that destroy every object of an initialized backend but
    /// the surface and the instance: what the descriptors are made of; the
    /// depth image and the swapchain; the semaphores and fences; the command
    /// pools, the allocator and, last, the device.
    pub open spec fn device_teardown_commands(self) -> Seq<Command> {
        self.descriptor_teardown_commands() + swapchain_teardown_commands(self)
            + self.sync_teardown_commands() + self.base_teardown_commands()
    }
}

impl StateView {
    /// The objects that the backend has created and not destroyed.
    pub open spec fn owned(self) -> Set<Handle> {
        if self.initialized {
            self.handles.device_objects().union(set![self.handles.surface, self.handles.instance])
        } else {
            set![self.handles.surface, self.handles.instance]
        }
    }

    /// The commands of a shutdown: the waits for the work in flight and the
    /// destruction of what the device holds, where the backend is
    /// initialized; then the destruction of the surface and of the instance.
    pub open spec fn shutdown_commands(self) -> Seq<Command> {
        (if self.initialized {
            drain_commands(self.handles.fences, self.in_flight)
                + self.handles.device_teardown_commands()
        } else {
            Seq::empty()
        }) + seq![
            Command::Destroy { kind: ObjectKind::Surface, handle: self.handles.surface },
            Command::Destroy { kind: ObjectKind::Instance, handle: self.handles.instance },
        ]
    }
}

/// The set of the handles in a sequence of three.
proof fn three_handles(handles: Seq<Handle>)
    requires
        handles.len() == 3,
    ensures
        handles.to_set() == set![handles[0], handles[1], handles[2]],
{
    assert forall|h: Handle| handles.to_set().contains(h) implies set![
        handles[0],
        handles[1],
        handles[2],
    ].contains(h) by {
        let k = choose|k: int| 0 <= k < handles.len() && handles[k] == h;
    }
    assert(handles.to_set() =~= set![handles[0], handles[1], handles[2]]);
}

/// Unmaps and destroys the uniform buffers, the first first.
fn destroy_uniform_buffers(driver: &mut Driver, buffers: &Vec<HostBuffer>)
    requires
        forall|i: int|
            0 <= i < buffers@.len() ==> {
                &&& (#[trigger] buffers@[i]).buffer.live_in(old(driver))
                &&& buffers@[i].buffer.allocation == buffers@[i].buffer.handle + 1
            },
        forall|i: int, j: int|
            0 <= i < j < buffers@.len() ==> buffers@[i].buffer.handle != buffers@[j].buffer.handle,
    ensures
        final(driver).objects() == without(old(driver).objects(), buffer_handles(buffers@)),
        final(driver).commands() == old(driver).commands() + buffer_teardown_commands(buffers@),
{
    let ghost before = *driver;
    let mut i: usize = 0;
    proof {
        assert(buffer_handles(buffers@.take(0)) =~= Set::<Handle>::empty());
        assert(driver.objects() =~= without(before.objects(), buffer_handles(buffers@.take(0))));
        assert(driver.commands() =~= before.commands() + buffer_teardown_commands(
            buffers@.take(0),
        ));
    }
    while i < buffers.len()
        invariant
            i <= buffers@.len(),
            forall|k: int|
                0 <= k < buffers@.len() ==> {
                    &&& (#[trigger] buffers@[k]).buffer.live_in(&before)
                    &&& buffers@[k].buffer.allocation == buffers@[k].buffer.handle + 1
                },
            forall|k: int, j: int|
                0 <= k < j < buffers@.len() ==> buffers@[k].buffer.handle
                    != buffers@[j].buffer.handle,
            driver.objects() == without(before.objects(), buffer_handles(buffers@.take(i as int))),
            driver.commands() == before.commands() + buffer_teardown_commands(
                buffers@.take(i as int),
            ),
        decreases buffers.len() - i,
    {
        let buffer = buffers[i];
        proof {
            let prior = buffers@.take(i as int);
            assert(buffers@[i as int].buffer.live_in(&before));
            if buffer_handles(prior).contains(buffer.buffer.handle) || buffer_handles(
                prior,
            ).contains(buffer.buffer.allocation) {
                let h = if buffer_handles(prior).contains(buffer.buffer.handle) {
                    buffer.buffer.handle
                } else {
                    buffer.buffer.allocation
                };
                let k = choose|k: int|
                    0 <= k < prior.len() && (h == (#[trigger] prior[k]).buffer.handle || h
                        == prior[k].buffer.allocation);
                assert(prior[k] == buffers@[k]);
                assert(buffers@[k].buffer.live_in(&before));
            }
        }
        buffer.destroy(driver);
        i += 1;
        proof {
            let now = buffers@.take(i as int);
            let prior = buffers@.take(i - 1);
            assert forall|h: Handle| buffer_handles(now).contains(h) <==> (buffer_handles(
                prior,
            ).contains(h) || h == buffer.buffer.handle || h == buffer.buffer.allocation) by {
                if buffer_handles(now).contains(h) {
                    let k = choose|k: int|
                        0 <= k < now.len() && (h == (#[trigger] now[k]).buffer.handle || h
                            == now[k].buffer.allocation);
                    if k < i - 1 {
                        assert(prior[k] == now[k]);
                    }
                }
                if buffer_handles(prior).contains(h) {
                    let k = choose|k: int|
                        0 <= k < prior.len() && (h == (#[trigger] prior[k]).buffer.handle || h
                            == prior[k].buffer.allocation);
                    assert(now[k] == prior[k]);
                }
                if h == buffer.buffer.handle || h == buffer.buffer.allocation {
                    assert(now[i - 1] == buffer);
                }
            }
            assert(driver.objects() =~= without(before.objects(), buffer_handles(now)));
            assert(driver.commands() =~= before.commands() + buffer_teardown_commands(now));
        }
    }
    proof {
        assert(buffers@.take(i as int) =~= buffers@);
    }
}

/// Marks three objects as destroyed that go with the pool they came from.
fn retire_three(driver: &mut Driver, handles: &Vec<Handle>)
    requires
        handles@.len() == 3,
        handles@.no_duplicates(),
        forall|i: int| 0 <= i < 3 ==> old(driver).alive(#[trigger] handles@[i]),
    ensures
        final(driver).objects() == without(old(driver).objects(), handles@.to_set()),
        final(driver).commands() == old(driver).commands(),
{
    proof {
        three_handles(handles@);
        assert(old(driver).alive(handles@[0]));
        assert(old(driver).alive(handles@[1]));
        assert(old(driver).alive(handles@[2]));
    }
    driver.retire(handles[0]);
    driver.retire(handles[1]);
    driver.retire(handles[2]);
    proof {
        assert(driver.objects() =~= without(old(driver).objects(), handles@.to_set()));
    }
}

/// Whether the objects of the given part of `handles` are alive in
/// `objects`, of their kinds and with no two the same.
pub open spec fn descriptors_live(handles: Handles, objects: Seq<Object>) -> bool {
    &&& holds(objects, handles.descriptor_layout, ObjectKind::DescriptorSetLayout)
    &&& holds(objects, handles.descriptor_pool, ObjectKind::DescriptorPool)
    &&& group(objects, handles.descriptor_sets, ObjectKind::DescriptorSet)
    &&& handles.uniform_buffers.len() == FRAME_COUNT
    &&& forall|i: int|
        0 <= i < FRAME_COUNT ==> {
            &&& holds(objects, (#[trigger] handles.uniform_buffers[i]).buffer.handle, ObjectKind::Buffer)
            &&& holds(objects, handles.uniform_buffers[i].buffer.allocation, ObjectKind::Allocation)
            &&& handles.uniform_buffers[i].buffer.allocation
                == handles.uniform_buffers[i].buffer.handle + 1
        }
    &&& forall|i: int, j: int|
        0 <= i < j < FRAME_COUNT ==> handles.uniform_buffers[i].buffer.handle
            != handles.uniform_buffers[j].buffer.handle
}

/// Whether the swapchain, its views and the depth image are alive in
/// `objects`, with no two the same.
pub open spec fn swapchain_live(handles: Handles, objects: Seq<Object>) -> bool {
    &&& holds(objects, handles.swapchain, ObjectKind::Swapchain)
    &&& group(objects, handles.swapchain_views, ObjectKind::ImageView)
    &&& holds(objects, handles.depth_image.handle, ObjectKind::Image)
    &&& holds(objects, handles.depth_image.allocation, ObjectKind::Allocation)
    &&& holds(objects, handles.depth_image.view, ObjectKind::ImageView)
    &&& forall|i: int| 0 <= i < FRAME_COUNT ==> handles.swapchain_views[i] != handles.depth_image.view
}

/// Whether the fences and semaphores are alive in `objects`, with no two the
/// same.
pub open spec fn sync_live(handles: Handles, objects: Seq<Object>) -> bool {
    &&& group(objects, handles.fences, ObjectKind::Fence)
    &&& group(objects, handles.acquire_semaphores, ObjectKind::Semaphore)
    &&& group(objects, handles.render_complete_semaphores, ObjectKind::Semaphore)
    &&& forall|i: int, j: int|
        0 <= i < FRAME_COUNT && 0 <= j < FRAME_COUNT ==> handles.acquire_semaphores[i]
            != handles.render_complete_semaphores[j]
}

/// Whether the command buffers and pools, the allocator and the device are
/// alive in `objects`, with no two the same.
pub open spec fn base_live(handles: Handles, objects: Seq<Object>) -> bool {
    &&& holds(objects, handles.device, ObjectKind::Device)
    &&& holds(objects, handles.allocator, ObjectKind::Allocator)
    &&& holds(objects, handles.command_pool, ObjectKind::CommandPool)
    &&& holds(objects, handles.transfer_pool, ObjectKind::CommandPool)
    &&& handles.command_pool != handles.transfer_pool
    &&& group(objects, handles.command_buffers, ObjectKind::CommandBuffer)
}

impl State {
    /// Destroys the uniform buffers, the descriptor pool with its sets, and
    /// the descriptor set layout.
    fn destroy_descriptors(
        driver: &mut Driver,
        uniform_buffers: &Vec<HostBuffer>,
        descriptor_sets: &Vec<Handle>,
        descriptor_pool: Handle,
        descriptor_layout: Handle,
        Ghost(handles): Ghost<Handles>,
    )
        requires
            handles.uniform_buffers == uniform_buffers@,
            handles.descriptor_sets == descriptor_sets@,
            handles.descriptor_pool == descriptor_pool,
            handles.descriptor_layout == descriptor_layout,
            descriptors_live(handles, old(driver).objects()),
        ensures
            final(driver).objects() == without(
                old(driver).objects(),
                handles.descriptor_objects(),
            ),
            final(driver).commands() == old(driver).commands()
                + handles.descriptor_teardown_commands(),
    {
        let ghost before = driver.objects();
        destroy_uniform_buffers(driver, uniform_buffers);
        proof {
            assert forall|i: int| 0 <= i < 3 implies driver.alive(
                #[trigger] descriptor_sets@[i],
            ) by {
                assert(holds(before, descriptor_sets@[i], ObjectKind::DescriptorSet));
            }
        }
        retire_three(driver, descriptor_sets);
        driver.destroy(ObjectKind::DescriptorPool, descriptor_pool);
        driver.destroy(ObjectKind::DescriptorSetLayout, descriptor_layout);
        proof {
            assert(driver.objects() =~= without(before, handles.descriptor_objects()));
            assert(driver.commands() =~= old(driver).commands()
                + handles.descriptor_teardown_commands());
        }
    }

    /// Destroys the depth image, the views of the swapchain images and the
    /// swapchain.
    fn destroy_swapchain_objects(
        driver: &mut Driver,
        depth_image: Image,
        swapchain: Handle,
        swapchain_views: Vec<Handle>,
        Ghost(handles): Ghost<Handles>,
    )
        requires
            handles.depth_image == depth_image,
            handles.swapchain == swapchain,
            handles.swapchain_views == swapchain_views@,
            swapchain_live(handles, old(driver).objects()),
        ensures
            final(driver).objects() == without(old(driver).objects(), handles.swapchain_objects()),
            final(driver).commands() == old(driver).commands() + swapchain_teardown_commands(
                handles,
            ),
    {
        let ghost before = driver.objects();
        proof {
            assert forall|i: int| 0 <= i < FRAME_COUNT implies swapchain_views@[i]
                != depth_image.handle && swapchain_views@[i] != depth_image.allocation by {
                assert(holds(before, handles.swapchain_views[i], ObjectKind::ImageView));
            }
        }
        Self::destroy_render_targets(driver, depth_image);
        Self::destroy_swapchain(driver, swapchain, swapchain_views);
        proof {
            without_twice(
                before,
                set![depth_image.view, depth_image.handle, depth_image.allocation],
                handles.swapchain_views.to_set().insert(swapchain),
            );
            assert(set![depth_image.view, depth_image.handle, depth_image.allocation].union(
                handles.swapchain_views.to_set().insert(swapchain),
            ) =~= handles.swapchain_objects());
            assert(driver.commands() =~= old(driver).commands() + swapchain_teardown_commands(
                handles,
            ));
        }
    }

    /// Destroys the semaphores for the finished rendering, the fences, and
    /// the semaphores for the acquired images.
    fn destroy_sync(
        driver: &mut Driver,
        render_complete_semaphores: &Vec<Handle>,
        fences: &Vec<Handle>,
        acquire_semaphores: &Vec<Handle>,
        Ghost(handles): Ghost<Handles>,
    )
        requires
            handles.render_complete_semaphores == render_complete_semaphores@,
            handles.fences == fences@,
            handles.acquire_semaphores == acquire_semaphores@,
            sync_live(handles, old(driver).objects()),
        ensures
            final(driver).objects() == without(old(driver).objects(), handles.sync_objects()),
            final(driver).commands() == old(driver).commands() + handles.sync_teardown_commands(),
    {
        let ghost before = driver.objects();
        proof {
            three_handles(fences@);
            three_handles(render_complete_semaphores@);
            three_handles(acquire_semaphores@);
            assert(holds(before, fences@[0], ObjectKind::Fence));
            assert(holds(before, fences@[1], ObjectKind::Fence));
            assert(holds(before, fences@[2], ObjectKind::Fence));
            assert(holds(before, render_complete_semaphores@[0], ObjectKind::Semaphore));
            assert(holds(before, render_complete_semaphores@[1], ObjectKind::Semaphore));
            assert(holds(before, render_complete_semaphores@[2], ObjectKind::Semaphore));
            assert(holds(before, acquire_semaphores@[0], ObjectKind::Semaphore));
            assert(holds(before, acquire_semaphores@[1], ObjectKind::Semaphore));
            assert(holds(before, acquire_semaphores@[2], ObjectKind::Semaphore));
        }
        driver.destroy_each(ObjectKind::Semaphore, render_complete_semaphores);
        driver.destroy_each(ObjectKind::Fence, fences);
        driver.destroy_each(ObjectKind::Semaphore, acquire_semaphores);
        proof {
            assert(driver.objects() =~= without(before, handles.sync_objects()));
            assert(driver.commands() =~= old(driver).commands()
                + handles.sync_teardown_commands());
        }
    }

    /// Destroys the transfer pool, the command pool with its command
    /// buffers, the allocator and the device.
    fn destroy_base(
        driver: &mut Driver,
        command_buffers: &Vec<Handle>,
        transfer_pool: Handle,
        command_pool: Handle,
        allocator: Handle,
        device: Handle,
        Ghost(handles): Ghost<Handles>,
    )
        requires
            handles.command_buffers == command_buffers@,
            handles.transfer_pool == transfer_pool,
            handles.command_pool == command_pool,
            handles.allocator == allocator,
            handles.device == device,
            base_live(handles, old(driver).objects()),
        ensures
            final(driver).objects() == without(old(driver).objects(), handles.base_objects()),
            final(driver).commands() == old(driver).commands() + handles.base_teardown_commands(),
    {
        let ghost before = driver.objects();
        proof {
            three_handles(command_buffers@);
            assert(holds(before, command_buffers@[0], ObjectKind::CommandBuffer));
            assert(holds(before, command_buffers@[1], ObjectKind::CommandBuffer));
            assert(holds(before, command_buffers@[2], ObjectKind::CommandBuffer));
        }
        driver.destroy(ObjectKind::CommandPool, transfer_pool);
        retire_three(driver, command_buffers);
        driver.destroy(ObjectKind::CommandPool, command_pool);
        driver.destroy(ObjectKind::Allocator, allocator);
        driver.destroy(ObjectKind::Device, device);
        proof {
            assert(driver.objects() =~= without(before, handles.base_objects()));
            assert(driver.commands() =~= old(driver).commands()
                + handles.base_teardown_commands());
        }
    }
}

/// The descriptor objects are buffers, each with its memory right behind
/// it, descriptor sets, a descriptor pool and a descriptor set layout.
pub proof fn descriptor_object_kinds(state: StateView, handle: Handle)
    requires
        state.wf(),
        state.initialized,
        state.handles.descriptor_objects().contains(handle),
    ensures
        holds(state.objects, handle, ObjectKind::Buffer) || holds(
            state.objects,
            handle,
            ObjectKind::DescriptorSet,
        ) || holds(state.objects, handle, ObjectKind::DescriptorPool) || holds(
            state.objects,
            handle,
            ObjectKind::DescriptorSetLayout,
        ) || (handle > 0 && holds(state.objects, (handle - 1) as Handle, ObjectKind::Buffer)
            && holds(state.objects, handle, ObjectKind::Allocation)),
{
    let sets = state.handles.descriptor_sets;
    if sets.to_set().contains(handle) {
        let k = choose|k: int| 0 <= k < sets.len() && sets[k] == handle;
        assert(holds(state.objects, sets[k], ObjectKind::DescriptorSet));
    }
}

/// The objects of the swapchain are a swapchain, image views, and an image
/// with its memory right behind it.
pub proof fn swapchain_object_kinds(state: StateView, handle: Handle)
    requires
        state.wf(),
        state.initialized,
        state.handles.swapchain_objects().contains(handle),
    ensures
        holds(state.objects, handle, ObjectKind::Swapchain) || holds(
            state.objects,
            handle,
            ObjectKind::ImageView,
        ) || holds(state.objects, handle, ObjectKind::Image) || (handle > 0 && holds(
            state.objects,
            (handle - 1) as Handle,
            ObjectKind::Image,
        ) && holds(state.objects, handle, ObjectKind::Allocation)),
{
    let views = state.handles.swapchain_views;
    if views.to_set().contains(handle) {
        let k = choose|k: int| 0 <= k < views.len() && views[k] == handle;
        assert(holds(state.objects, views[k], ObjectKind::ImageView));
    }
}

/// The fences and semaphores are fences and semaphores.
pub proof fn sync_object_kinds(state: StateView, handle: Handle)
    requires
        state.wf(),
        state.initialized,
        state.handles.sync_objects().contains(handle),
    ensures
        holds(state.objects, handle, ObjectKind::Fence) || holds(
            state.objects,
            handle,
            ObjectKind::Semaphore,
        ),
{
    let handles = state.handles;
    if handles.fences.to_set().contains(handle) {
        let k = choose|k: int| 0 <= k < handles.fences.len() && handles.fences[k] == handle;
        assert(holds(state.objects, handles.fences[k], ObjectKind::Fence));
    }
    if handles.acquire_semaphores.to_set().contains(handle) {
        let k = choose|k: int|
            0 <= k < handles.acquire_semaphores.len() && handles.acquire_semaphores[k] == handle;
        assert(holds(state.objects, handles.acquire_semaphores[k], ObjectKind::Semaphore));
    }
    if handles.render_complete_semaphores.to_set().contains(handle) {
        let k = choose|k: int|
            0 <= k < handles.render_complete_semaphores.len()
                && handles.render_complete_semaphores[k] == handle;
        assert(holds(state.objects, handles.render_complete_semaphores[k], ObjectKind::Semaphore));
    }
}

/// When the descriptor objects are destroyed, the objects of the swapchain
/// are still alive.
pub proof fn swapchain_outlives_descriptors(state: StateView)
    requires
        state.wf(),
        state.initialized,
    ensures
        swapchain_live(
            state.handles,
            without(state.objects, state.handles.descriptor_objects()),
        ),
{
    let handles = state.handles;
    let gone = handles.descriptor_objects();
    let left = without(state.objects, gone);
    assert forall|h: Handle| handles.swapchain_objects().contains(h) implies !gone.contains(
        h,
    ) by {
        swapchain_object_kinds(state, h);
        if gone.contains(h) {
            descriptor_object_kinds(state, h);
        }
    }
    assert forall|i: int| 0 <= i < handles.swapchain_views.len() implies holds(
        left,
        #[trigger] handles.swapchain_views[i],
        ObjectKind::ImageView,
    ) by {
        assert(handles.swapchain_objects().contains(handles.swapchain_views[i]));
        assert(holds(state.objects, handles.swapchain_views[i], ObjectKind::ImageView));
    }
    assert(handles.swapchain_objects().contains(handles.swapchain));
    assert(handles.swapchain_objects().contains(handles.depth_image.handle));
    assert(handles.swapchain_objects().contains(handles.depth_image.allocation));
    assert(handles.swapchain_objects().contains(handles.depth_image.view));
}

/// When the descriptor objects and the objects of the swapchain are
/// destroyed, the fences and semaphores are still alive.
pub proof fn sync_outlives_swapchain(state: StateView)
    requires
        state.wf(),
        state.initialized,
    ensures
        sync_live(
            state.handles,
            without(
                state.objects,
                state.handles.descriptor_objects().union(state.handles.swapchain_objects()),
            ),
        ),
{
    let handles = state.handles;
    let gone = handles.descriptor_objects().union(handles.swapchain_objects());
    let left = without(state.objects, gone);
    assert forall|h: Handle|
        holds(state.objects, h, ObjectKind::Fence) || holds(
            state.objects,
            h,
            ObjectKind::Semaphore,
        ) implies !gone.contains(h) by {
        if handles.descriptor_objects().contains(h) {
            descriptor_object_kinds(state, h);
        }
        if handles.swapchain_objects().contains(h) {
            swapchain_object_kinds(state, h);
        }
    }
    assert forall|i: int| 0 <= i < FRAME_COUNT implies holds(
        left,
        #[trigger] handles.fences[i],
        ObjectKind::Fence,
    ) by {
        assert(holds(state.objects, handles.fences[i], ObjectKind::Fence));
    }
    assert forall|i: int| 0 <= i < FRAME_COUNT implies holds(
        left,
        #[trigger] handles.acquire_semaphores[i],
        ObjectKind::Semaphore,
    ) by {
        assert(holds(state.objects, handles.acquire_semaphores[i], ObjectKind::Semaphore));
    }
    assert forall|i: int| 0 <= i < FRAME_COUNT implies holds(
        left,
        #[trigger] handles.render_complete_semaphores[i],
        ObjectKind::Semaphore,
    ) by {
        assert(holds(state.objects, handles.render_complete_semaphores[i], ObjectKind::Semaphore));
    }
}

/// When all else of the device is destroyed, the command buffers and pools,
/// the allocator and the device are still alive, and after them the surface
/// and the instance.
pub proof fn base_outlives_rest(state: StateView)
    requires
        state.wf(),
        state.initialized,
    ensures
        base_live(
            state.handles,
            without(
                state.objects,
                state.handles.descriptor_objects().union(state.handles.swapchain_objects()).union(
                    state.handles.sync_objects(),
                ),
            ),
        ),
        holds(
            without(state.objects, state.handles.device_objects()),
            state.handles.surface,
            ObjectKind::Surface,
        ),
        holds(
            without(state.objects, state.handles.device_objects()),
            state.handles.instance,
            ObjectKind::Instance,
        ),
{
    let handles = state.handles;
    let gone = handles.descriptor_objects().union(handles.swapchain_objects()).union(
        handles.sync_objects(),
    );
    let left = without(state.objects, gone);
    assert forall|h: Handle|
        holds(state.objects, h, ObjectKind::CommandBuffer) || holds(
            state.objects,
            h,
            ObjectKind::CommandPool,
        ) || holds(state.objects, h, ObjectKind::Allocator) || holds(
            state.objects,
            h,
            ObjectKind::Device,
        ) || holds(state.objects, h, ObjectKind::Surface) || holds(
            state.objects,
            h,
            ObjectKind::Instance,
        ) implies !gone.contains(h) by {
        if handles.descriptor_objects().contains(h) {
            descriptor_object_kinds(state, h);
        }
        if handles.swapchain_objects().contains(h) {
            swapchain_object_kinds(state, h);
        }
        if handles.sync_objects().contains(h) {
            sync_object_kinds(state, h);
        }
    }
    assert forall|i: int| 0 <= i < FRAME_COUNT implies holds(
        left,
        #[trigger] handles.command_buffers[i],
        ObjectKind::CommandBuffer,
    ) by {
        assert(holds(state.objects, handles.command_buffers[i], ObjectKind::CommandBuffer));
    }
    let cbs = handles.command_buffers;
    assert forall|h: Handle| handles.base_objects().contains(h) implies holds(
        state.objects,
        h,
        ObjectKind::CommandBuffer,
    ) || holds(state.objects, h, ObjectKind::CommandPool) || holds(
        state.objects,
        h,
        ObjectKind::Allocator,
    ) || holds(state.objects, h, ObjectKind::Device) by {
        if cbs.to_set().contains(h) {
            let k = choose|k: int| 0 <= k < cbs.len() && cbs[k] == h;
            assert(holds(state.objects, cbs[k], ObjectKind::CommandBuffer));
        }
    }
    assert(!handles.device_objects().contains(handles.surface));
    assert(!handles.device_objects().contains(handles.instance));
}

impl State {
    /// Shuts the backend down and returns its record, with the commands
    /// still to be carried out.
    ///
    /// Where the backend is initialized, the work in flight is waited for
    /// and everything that was created on the device is destroyed, then the
    /// device. The surface and the instance go last. Every object of the
    /// backend is destroyed once, and none of the others is touched.
    pub fn shutdown(self) -> (driver: Driver)
        requires
            self@.wf(),
        ensures
            driver.commands() == self@.commands + self@.shutdown_commands(),
            driver.objects() == without(self@.objects, self@.owned()),
    {
        let mut state = self;
        let ghost before = self@;
        let ghost handles = before.handles;
        if state.initialized {
            state.wait_idle();
            let mut driver = state.driver;
            Self::destroy_descriptors(
                &mut driver,
                &state.uniform_buffers,
                &state.descriptor_sets,
                state.descriptor_pool,
                state.descriptor_layout,
                Ghost(handles),
            );
            proof {
                swapchain_outlives_descriptors(before);
            }
            Self::destroy_swapchain_objects(
                &mut driver,
                state.depth_image,
                state.swapchain,
                state.swapchain_views,
                Ghost(handles),
            );
            proof {
                without_twice(
                    before.objects,
                    handles.descriptor_objects(),
                    handles.swapchain_objects(),
                );
                sync_outlives_swapchain(before);
            }
            Self::destroy_sync(
                &mut driver,
                &state.render_complete_semaphores,
                &state.fences,
                &state.acquire_semaphores,
                Ghost(handles),
            );
            proof {
                without_twice(
                    before.objects,
                    handles.descriptor_objects().union(handles.swapchain_objects()),
                    handles.sync_objects(),
                );
                base_outlives_rest(before);
            }
            Self::destroy_base(
                &mut driver,
                &state.command_buffers,
                state.transfer_pool,
                state.command_pool,
                state.allocator,
                state.device,
                Ghost(handles),
            );
            proof {
                without_twice(
                    before.objects,
                    handles.descriptor_objects().union(handles.swapchain_objects()).union(
                        handles.sync_objects(),
                    ),
                    handles.base_objects(),
                );
            }
            driver.destroy(ObjectKind::Surface, state.surface);
            driver.destroy(ObjectKind::Instance, state.instance);
            proof {
                assert(driver.objects() =~= without(before.objects, before.owned()));
                assert(driver.commands() =~= before.commands + before.shutdown_commands());
            }
            driver
        } else {
            let mut driver = state.driver;
            driver.destroy(ObjectKind::Surface, state.surface);
            driver.destroy(ObjectKind::Instance, state.instance);
            proof {
                assert(driver.objects() =~= without(before.objects, before.owned()));
                assert(driver.commands() =~= before.commands + before.shutdown_commands());
            }
            driver
        }
    }
}

impl StateView {
    /// Whether every object that is alive is one of the backend's own:
    /// nothing else was created, or all of it was destroyed again.
    pub open spec fn owns_all(self) -> bool {
        forall|h: int|
            0 <= h < self.objects.len() && (#[trigger] self.objects[h]).alive
                ==> self.owned().contains(h as Handle)
    }
}

/// Where all that is alive is destroyed, nothing is alive.
pub proof fn nothing_left(objects: Seq<Object>, gone: Set<Handle>)
    requires
        forall|h: int|
            0 <= h < objects.len() && (#[trigger] objects[h]).alive ==> gone.contains(h as Handle),
    ensures
        crate::rendersystem::vulkan::command::live_count(without(objects, gone)) == 0,
    decreases objects.len(),
{
    let left = without(objects, gone);
    if objects.len() > 0 {
        let shorter = objects.drop_last();
        assert forall|h: int| 0 <= h < shorter.len() && (#[trigger] shorter[h]).alive implies gone.contains(
            h as Handle,
        ) by {
            assert(objects[h].alive);
        }
        nothing_left(shorter, gone);
        assert(left.drop_last() =~= without(shorter, gone));
        assert(objects[objects.len() - 1].alive ==> gone.contains((objects.len() - 1) as Handle));
    }
}

/// Right after its initialization a backend owns all that is alive.
pub proof fn initialized_owns_all(before: StateView, gpus: Seq<GpuInfo>, extent: Extent2D)
    requires
        before.wf(),
        !before.initialized,
        gpus.len() >= 1,
    ensures
        before.initialize(gpus, extent).owns_all(),
{
    let after = before.initialize(gpus, extent);
    let handles = after.handles;
    assert(after.objects.len() == 36);
    assert(handles.instance < 2 && handles.surface < 2 && handles.instance != handles.surface);
    assert forall|h: int| 0 <= h < 36 && (#[trigger] after.objects[h]).alive implies after.owned().contains(
        h as Handle,
    ) by {
        if h < 2 {
        } else if h < 5 {
        } else if h < 8 {
            assert(handles.command_buffers[h - 5] == h);
        } else if h < 9 {
        } else if h < 12 {
            assert(handles.fences[h - 9] == h);
        } else if h < 18 {
            if (h - 12) % 2 == 0 {
                assert(handles.acquire_semaphores[(h - 12) / 2] == h);
            } else {
                assert(handles.render_complete_semaphores[(h - 13) / 2] == h);
            }
            assert(handles.sync_objects().contains(h as Handle));
        } else if h < 19 {
            assert(handles.swapchain_objects().contains(h as Handle));
        } else if h < 22 {
            assert(handles.swapchain_views[h - 19] == h);
            assert(handles.swapchain_objects().contains(h as Handle));
        } else if h < 25 {
            assert(handles.swapchain_objects().contains(h as Handle));
        } else if h < 27 {
        } else if h < 33 {
            let i = (h - 27) / 2;
            assert(handles.uniform_buffers[i].buffer.handle == 27 + 2 * i);
            assert(buffer_handles(handles.uniform_buffers).contains(h as Handle));
        } else {
            assert(handles.descriptor_sets[h - 33] == h);
        }
    }
}

/// A backend that owns all that is alive still does so after its swapchain
/// was rebuilt.
pub proof fn recreation_owns_all(state: StateView, extent: Extent2D)
    requires
        state.wf(),
        state.initialized,
        state.owns_all(),
        state.objects.len() + 7 <= usize::MAX,
    ensures
        state.recreate(extent).owns_all(),
{
    let after = state.recreate(extent);
    let first = state.objects.len() as int;
    let gone = state.handles.swapchain_objects();
    assert forall|h: int| 0 <= h < after.objects.len() && (#[trigger] after.objects[h]).alive implies after.owned().contains(
        h as Handle,
    ) by {
        if h < first {
            assert(after.objects[h] == without(state.objects, gone)[h]);
            assert(!gone.contains(h as Handle));
            assert(state.objects[h].alive);
            assert(state.owned().contains(h as Handle));
            assert(state.handles.descriptor_objects() == after.handles.descriptor_objects());
            assert(state.handles.sync_objects() == after.handles.sync_objects());
            assert(state.handles.base_objects() == after.handles.base_objects());
        } else if h == first {
            assert(after.handles.swapchain_objects().contains(h as Handle));
        } else if h < first + 4 {
            assert(after.handles.swapchain_views[h - first - 1] == h);
            assert(after.handles.swapchain_objects().contains(h as Handle));
        } else {
            assert(after.handles.swapchain_objects().contains(h as Handle));
        }
    }
}

/// A shutdown leaves nothing behind.
///
/// Where nothing but the backend's own objects is alive, no object is alive
/// once the commands of [`State::shutdown`] are carried out: the ledger that
/// it returns has no live entry.
pub proof fn shutdown_leaves_nothing(state: StateView)
    requires
        state.wf(),
        state.owns_all(),
    ensures
        crate::rendersystem::vulkan::command::live_count(
            without(state.objects, state.owned()),
        ) == 0,
{
    nothing_left(state.objects, state.owned());
}

} // verus!
