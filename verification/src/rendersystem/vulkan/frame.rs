//! The cycle of the frames, and the rebuilding of the swapchain when the
//! window has changed.
//!
//! A frame goes through one of the frame slots: it is begun, drawn into and
//! presented. Before anything is recorded into a slot, the fence of the slot
//! is waited for, so that the work submitted in it before is done.

use crate::rendersystem::vulkan::api;
use crate::rendersystem::vulkan::command::{
    holds,
    without,
    without_twice,
    Command,
    Extent2D,
    Handle,
    Object,
    ObjectKind,
};
use crate::rendersystem::vulkan::descriptor::UNIFORM_DATA_SIZE;
use crate::rendersystem::vulkan::device::{fresh, handles_from};
use crate::rendersystem::vulkan::memory::Image;
use crate::rendersystem::vulkan::swapchain::{
    depth_image_commands,
    swapchain_commands,
    swapchain_info,
};
use crate::rendersystem::vulkan::{group, Handles, State, StateView, FRAME_COUNT};
use crate::video;
use vstd::prelude::*;

verus! {

/// The commands that begin a frame in `slot`: the wait for the fence of the
/// slot, the acquisition of the next image, the start of the recording into
/// the command buffer of the slot.
pub open spec fn frame_begin_commands(handles: Handles, slot: int) -> Seq<Command> {
    seq![
        Command::WaitForFence { fence: handles.fences[slot] },
        Command::AcquireNextImage {
            swapchain: handles.swapchain,
            semaphore: handles.acquire_semaphores[slot],
        },
        Command::BeginCommandBuffer { command_buffer: handles.command_buffers[slot], flags: 0 },
    ]
}

/// The commands that present the frame in `slot`: the write of the frame's
/// transforms to the uniform buffer of the slot; the end of the recording;
/// the reset of the fence of the slot; the submission to the graphics queue,
/// which waits for the acquired image before it writes colour, and signals
/// the semaphore for the finished rendering and the fence; the presentation,
/// which waits for that semaphore.
pub open spec fn present_commands(handles: Handles, slot: int) -> Seq<Command> {
    seq![
        Command::WriteUniforms {
            allocation: handles.uniform_buffers[slot].buffer.allocation,
            size: UNIFORM_DATA_SIZE,
        },
        Command::EndCommandBuffer { command_buffer: handles.command_buffers[slot] },
        Command::ResetFence { fence: handles.fences[slot] },
        Command::QueueSubmit {
            queue: handles.graphics_queue,
            command_buffer: handles.command_buffers[slot],
            wait_semaphore: Some(handles.acquire_semaphores[slot]),
            wait_stage: api::PIPELINE_STAGE_COLOR_ATTACHMENT_OUTPUT,
            signal_semaphore: Some(handles.render_complete_semaphores[slot]),
            signal_fence: Some(handles.fences[slot]),
        },
        Command::QueuePresent {
            queue: handles.graphics_queue,
            swapchain: handles.swapchain,
            wait: handles.render_complete_semaphores[slot],
        },
    ]
}

/// The waits for the fences of the slots that have work in flight, in the
/// order of the slots.
pub open spec fn drain_commands(fences: Seq<Handle>, in_flight: Seq<bool>) -> Seq<Command>
    decreases in_flight.len(),
{
    if in_flight.len() == 0 {
        Seq::empty()
    } else if in_flight.last() {
        drain_commands(fences, in_flight.drop_last()).push(
            Command::WaitForFence { fence: fences[in_flight.len() - 1] },
        )
    } else {
        drain_commands(fences, in_flight.drop_last())
    }
}

/// The commands that destroy the depth image, the views of the swapchain
/// images and the swapchain, in this order.
pub open spec fn swapchain_teardown_commands(handles: Handles) -> Seq<Command> {
    seq![
        Command::Destroy { kind: ObjectKind::ImageView, handle: handles.depth_image.view },
        Command::DestroyImage {
            image: handles.depth_image.handle,
            allocation: handles.depth_image.allocation,
        },
    ] + Seq::new(
        handles.swapchain_views.len(),
        |i: int| Command::Destroy { kind: ObjectKind::ImageView, handle: handles.swapchain_views[i] },
    ).push(Command::Destroy { kind: ObjectKind::Swapchain, handle: handles.swapchain })
}

impl Handles {
    /// The swapchain, the views of its images, and the depth image with its
    /// memory and its view.
    pub open spec fn swapchain_objects(self) -> Set<Handle> {
        self.swapchain_views.to_set().insert(self.swapchain).union(
            set![self.depth_image.view, self.depth_image.handle, self.depth_image.allocation],
        )
    }
}

impl StateView {
    /// The backend after the fences of all slots in flight were waited for.
    pub open spec fn drain(self) -> StateView {
        StateView {
            in_flight: Seq::new(self.in_flight.len(), |i: int| false),
            commands: self.commands + drain_commands(self.handles.fences, self.in_flight),
            ..self
        }
    }

    /// Whether no slot has work in flight.
    pub open spec fn idle(self) -> bool {
        forall|i: int| 0 <= i < self.in_flight.len() ==> !#[trigger] self.in_flight[i]
    }

    /// The backend after the swapchain was rebuilt for a window of the size
    /// `extent`: the depth image, the views and the swapchain are destroyed;
    /// a swapchain of the new size, its views and a depth image of the new
    /// size are created, with the formats that were chosen at initialization
    /// and under handles that nothing had before.
    pub open spec fn recreate(self, extent: Extent2D) -> StateView {
        let first = self.objects.len() as int;
        let gpu = self.gpus[self.device_gpu as int];
        StateView {
            swapchain_extent: extent,
            handles: Handles {
                swapchain: first as Handle,
                swapchain_views: handles_from(first + 1, FRAME_COUNT as nat),
                depth_image: Image {
                    handle: (first + 4) as Handle,
                    allocation: (first + 5) as Handle,
                    view: (first + 6) as Handle,
                    format: self.handles.depth_image.format,
                },
                ..self.handles
            },
            objects: without(self.objects, self.handles.swapchain_objects()).push(
                Object { kind: ObjectKind::Swapchain, alive: true },
            ) + fresh(ObjectKind::ImageView, FRAME_COUNT as nat) + seq![
                Object { kind: ObjectKind::Image, alive: true },
                Object { kind: ObjectKind::Allocation, alive: true },
                Object { kind: ObjectKind::ImageView, alive: true },
            ],
            commands: self.commands + swapchain_teardown_commands(self.handles)
                + swapchain_commands(
                first as Handle,
                swapchain_info(
                    gpu,
                    self.handles.surface,
                    self.present_mode,
                    self.surface_format,
                    extent,
                ),
            ) + depth_image_commands(
                (first + 4) as Handle,
                self.handles.depth_image.format,
                extent,
            ),
            ..self
        }
    }

    /// The backend after a frame was begun for a window of the size `size`.
    /// Nothing happens before initialization or within a frame. Where the
    /// size differs from that of the swapchain, the work in flight is waited
    /// for and the swapchain rebuilt first.
    pub open spec fn begin(self, size: Extent2D) -> StateView {
        if !self.initialized || self.in_frame {
            self
        } else {
            let ready = if size != self.swapchain_extent {
                self.drain().recreate(size)
            } else {
                self
            };
            StateView {
                in_frame: true,
                in_flight: ready.in_flight.update(self.frame_index as int, false),
                commands: ready.commands + frame_begin_commands(
                    ready.handles,
                    self.frame_index as int,
                ),
                ..ready
            }
        }
    }

    /// The backend after the current frame was presented. Nothing happens
    /// outside a frame. The slot has work in flight then, and the next frame
    /// uses the next slot.
    pub open spec fn present(self) -> StateView {
        if !self.initialized || !self.in_frame {
            self
        } else {
            StateView {
                in_frame: false,
                in_flight: self.in_flight.update(self.frame_index as int, true),
                frame_index: ((self.frame_index + 1) % FRAME_COUNT as int) as usize,
                commands: self.commands + present_commands(self.handles, self.frame_index as int),
                ..self
            }
        }
    }

    /// The backend after the driver said that the swapchain no longer fits
    /// the surface: a frame that was begun is given up, the work in flight
    /// is waited for, and the swapchain is rebuilt for the size `size`.
    pub open spec fn out_of_date(self, size: Extent2D) -> StateView {
        if !self.initialized {
            self
        } else {
            (StateView { in_frame: false, ..self }).drain().recreate(size)
        }
    }
}

impl StateView {
    /// The backend after `count` frames were begun and presented, while the
    /// window kept its size.
    pub open spec fn after_frames(self, count: nat) -> StateView
        decreases count,
    {
        if count == 0 {
            self
        } else {
            self.after_frames((count - 1) as nat).begin(self.swapchain_extent).present()
        }
    }
}

/// Beginning a frame leaves a backend as it should be.
pub proof fn begin_well_formed(state: StateView, size: Extent2D)
    requires
        state.wf(),
        state.objects.len() + 7 <= usize::MAX,
    ensures
        state.begin(size).wf(),
{
    if state.initialized && !state.in_frame && size != state.swapchain_extent {
        drain_well_formed(state);
        recreate_well_formed(state.drain(), size);
    }
}

/// Presenting a frame leaves a backend as it should be.
pub proof fn present_well_formed(state: StateView)
    requires
        state.wf(),
    ensures
        state.present().wf(),
{
}

/// A frame waits for its slot before it records into it.
///
/// Whenever a frame is begun, the last commands recorded are the wait for
/// the fence of the frame's slot, the acquisition of an image and the start
/// of the recording into the command buffer of that slot, in this order; the
/// slot has no work in flight then. When the frame is presented, the
/// transforms are written to the uniform buffer of the slot first; then that
/// command buffer is submitted with that fence to signal, and the slot has
/// work in flight until its fence is waited for again. So nothing is
/// recorded into a slot before the fence of the submission made in it last
/// was waited for, and no more submissions are outstanding than there are
/// slots.
pub proof fn frame_waits_for_its_slot(state: StateView, size: Extent2D)
    requires
        state.wf(),
        state.initialized,
        !state.in_frame,
        state.objects.len() + 7 <= usize::MAX,
    ensures
        ({
            let slot = state.frame_index as int;
            let begun = state.begin(size);
            let done = begun.present();
            let n = begun.commands.len() as int;
            let m = done.commands.len() as int;
            &&& begun.in_frame
            &&& begun.frame_index == state.frame_index
            &&& n >= 3
            &&& begun.commands[n - 3] == Command::WaitForFence { fence: begun.handles.fences[slot] }
            &&& begun.commands[n - 1] == Command::BeginCommandBuffer {
                command_buffer: begun.handles.command_buffers[slot],
                flags: 0,
            }
            &&& !begun.in_flight[slot]
            &&& begun.frames_in_flight() <= FRAME_COUNT
            &&& m == n + 5
            &&& done.commands.subrange(0, n) == begun.commands
            &&& done.commands[n] == Command::WriteUniforms {
                allocation: begun.handles.uniform_buffers[slot].buffer.allocation,
                size: UNIFORM_DATA_SIZE,
            }
            &&& done.commands[m - 2] == Command::QueueSubmit {
                queue: begun.handles.graphics_queue,
                command_buffer: begun.handles.command_buffers[slot],
                wait_semaphore: Some(begun.handles.acquire_semaphores[slot]),
                wait_stage: api::PIPELINE_STAGE_COLOR_ATTACHMENT_OUTPUT,
                signal_semaphore: Some(begun.handles.render_complete_semaphores[slot]),
                signal_fence: Some(begun.handles.fences[slot]),
            }
            &&& !done.in_frame
            &&& done.in_flight[slot]
            &&& done.frames_in_flight() <= FRAME_COUNT
            &&& done.frame_index == (slot + 1) % FRAME_COUNT as int
            &&& done.wf()
        }),
{
    let begun = state.begin(size);
    let done = begun.present();
    begin_well_formed(state, size);
    present_well_formed(begun);
    begun.in_flight.lemma_filter_len(|busy: bool| busy);
    done.in_flight.lemma_filter_len(|busy: bool| busy);
    assert(done.commands.subrange(0, begun.commands.len() as int) =~= begun.commands);
}

/// The frames go through the slots in turn: the frame that follows `count`
/// others uses the slot `count` steps further on, counted round the number
/// of slots. The objects of the slots stay the same all along.
pub proof fn frame_slots_cycle(state: StateView, count: nat)
    requires
        state.wf(),
        state.initialized,
        !state.in_frame,
    ensures
        state.after_frames(count).wf(),
        state.after_frames(count).initialized,
        !state.after_frames(count).in_frame,
        state.after_frames(count).frame_index == (state.frame_index + count) % FRAME_COUNT as int,
        state.after_frames(count).handles == state.handles,
        state.after_frames(count).objects == state.objects,
        state.after_frames(count).swapchain_extent == state.swapchain_extent,
    decreases count,
{
    if count > 0 {
        let earlier = state.after_frames((count - 1) as nat);
        frame_slots_cycle(state, (count - 1) as nat);
        let begun = earlier.begin(state.swapchain_extent);
        present_well_formed(begun);
    }
}

/// Rebuilding the swapchain replaces it whole.
///
/// Afterwards the swapchain has the size that was asked for. The swapchain,
/// the views of its images and the depth image are new: their handles name
/// objects that did not exist before, and these are alive. Those that the
/// backend held before are destroyed, and the backend holds none of them any
/// longer. Nothing else that was alive is touched.
pub proof fn recreation_replaces(state: StateView, extent: Extent2D)
    requires
        state.wf(),
        state.initialized,
        state.objects.len() + 7 <= usize::MAX,
    ensures
        ({
            let after = state.recreate(extent);
            let first = state.objects.len();
            &&& after.wf()
            &&& after.swapchain_extent == extent
            &&& after.handles.swapchain >= first
            &&& after.handles.depth_image.handle >= first
            &&& after.handles.depth_image.allocation >= first
            &&& after.handles.depth_image.view >= first
            &&& forall|i: int|
                0 <= i < FRAME_COUNT ==> {
                    &&& (#[trigger] after.handles.swapchain_views[i]) >= first
                    &&& holds(after.objects, after.handles.swapchain_views[i], ObjectKind::ImageView)
                    &&& !state.handles.swapchain_objects().contains(
                        after.handles.swapchain_views[i],
                    )
                }
            &&& forall|h: Handle|
                state.handles.swapchain_objects().contains(h) ==> h < first && !(
                #[trigger] after.objects[h as int]).alive
            &&& forall|h: Handle|
                h < first && !state.handles.swapchain_objects().contains(h)
                    ==> #[trigger] after.objects[h as int] == state.objects[h as int]
        }),
{
    let after = state.recreate(extent);
    recreate_well_formed(state, extent);
    let views = state.handles.swapchain_views;
    assert forall|h: Handle| state.handles.swapchain_objects().contains(h) implies h
        < state.objects.len() && !(#[trigger] after.objects[h as int]).alive by {
        if views.to_set().contains(h) {
            let k = choose|k: int| 0 <= k < views.len() && views[k] == h;
            assert(holds(state.objects, views[k], ObjectKind::ImageView));
        }
    }
    assert forall|i: int| 0 <= i < FRAME_COUNT implies {
        &&& (#[trigger] after.handles.swapchain_views[i]) >= state.objects.len()
        &&& holds(after.objects, after.handles.swapchain_views[i], ObjectKind::ImageView)
        &&& !state.handles.swapchain_objects().contains(after.handles.swapchain_views[i])
    } by {}
}

/// Waiting for the work in flight leaves a backend as it should be, with no
/// work in flight.
pub proof fn drain_well_formed(state: StateView)
    requires
        state.wf(),
        state.initialized,
    ensures
        state.drain().wf(),
        state.drain().idle(),
{
}

/// Rebuilding the swapchain leaves a backend as it should be.
pub proof fn recreate_well_formed(state: StateView, extent: Extent2D)
    requires
        state.wf(),
        state.initialized,
        state.objects.len() + 7 <= usize::MAX,
    ensures
        state.recreate(extent).wf(),
{
    let after = state.recreate(extent);
    let old_handles = state.handles;
    let handles = after.handles;
    let gone = old_handles.swapchain_objects();
    let kept = without(state.objects, gone);
    let first = state.objects.len() as int;
    assert(after.objects.len() == first + 7);
    assert forall|h: Handle, kind: ObjectKind|
        holds(state.objects, h, kind) && !gone.contains(h) implies holds(after.objects, h, kind) by {
        assert(after.objects[h as int] == kept[h as int]);
    }
    assert forall|i: int| 0 <= i < FRAME_COUNT implies !gone.contains(
        #[trigger] old_handles.command_buffers[i],
    ) by {
        not_of_swapchain(state, old_handles.command_buffers[i], ObjectKind::CommandBuffer);
    }
    assert forall|i: int| 0 <= i < FRAME_COUNT implies !gone.contains(
        #[trigger] old_handles.fences[i],
    ) by {
        not_of_swapchain(state, old_handles.fences[i], ObjectKind::Fence);
    }
    assert forall|i: int| 0 <= i < FRAME_COUNT implies !gone.contains(
        #[trigger] old_handles.acquire_semaphores[i],
    ) by {
        not_of_swapchain(state, old_handles.acquire_semaphores[i], ObjectKind::Semaphore);
    }
    assert forall|i: int| 0 <= i < FRAME_COUNT implies !gone.contains(
        #[trigger] old_handles.render_complete_semaphores[i],
    ) by {
        not_of_swapchain(state, old_handles.render_complete_semaphores[i], ObjectKind::Semaphore);
    }
    assert forall|i: int| 0 <= i < FRAME_COUNT implies !gone.contains(
        #[trigger] old_handles.descriptor_sets[i],
    ) by {
        not_of_swapchain(state, old_handles.descriptor_sets[i], ObjectKind::DescriptorSet);
    }
    assert forall|i: int| 0 <= i < FRAME_COUNT implies !gone.contains(
        (#[trigger] old_handles.uniform_buffers[i]).buffer.handle,
    ) && !gone.contains(old_handles.uniform_buffers[i].buffer.allocation) by {
        not_of_swapchain(state, old_handles.uniform_buffers[i].buffer.handle, ObjectKind::Buffer);
        let allocation = old_handles.uniform_buffers[i].buffer.allocation;
        if gone.contains(allocation) {
            if old_handles.swapchain_views.to_set().contains(allocation) {
                let k = choose|k: int|
                    0 <= k < old_handles.swapchain_views.len() && old_handles.swapchain_views[k]
                        == allocation;
            }
        }
    }
    not_of_swapchain(state, old_handles.instance, ObjectKind::Instance);
    not_of_swapchain(state, old_handles.surface, ObjectKind::Surface);
    not_of_swapchain(state, old_handles.device, ObjectKind::Device);
    not_of_swapchain(state, old_handles.allocator, ObjectKind::Allocator);
    not_of_swapchain(state, old_handles.command_pool, ObjectKind::CommandPool);
    not_of_swapchain(state, old_handles.transfer_pool, ObjectKind::CommandPool);
    not_of_swapchain(state, old_handles.descriptor_layout, ObjectKind::DescriptorSetLayout);
    not_of_swapchain(state, old_handles.descriptor_pool, ObjectKind::DescriptorPool);
    assert(group(after.objects, handles.swapchain_views, ObjectKind::ImageView));
    assert(handles.live_in(after.objects));
}

/// An object of a kind that the swapchain has none of is none of the
/// objects of the swapchain.
pub proof fn not_of_swapchain(state: StateView, handle: Handle, kind: ObjectKind)
    requires
        state.wf(),
        state.initialized,
        holds(state.objects, handle, kind),
        kind != ObjectKind::Swapchain,
        kind != ObjectKind::ImageView,
        kind != ObjectKind::Image,
        kind != ObjectKind::Allocation,
    ensures
        !state.handles.swapchain_objects().contains(handle),
{
    let views = state.handles.swapchain_views;
    if views.to_set().contains(handle) {
        let k = choose|k: int| 0 <= k < views.len() && views[k] == handle;
        assert(holds(state.objects, views[k], ObjectKind::ImageView));
    }
}

impl State {
    /// Waits for the work in flight: records the wait for the fence of each
    /// slot that has work in flight. Before initialization there is none.
    pub fn wait_idle(&mut self)
        requires
            old(self)@.wf(),
        ensures
            final(self)@ == if old(self)@.initialized {
                old(self)@.drain()
            } else {
                old(self)@
            },
            final(self)@.wf(),
            old(self)@.initialized ==> final(self)@.idle(),
    {
        if !self.initialized {
            return ;
        }
        let ghost before = self@;
        let mut i: usize = 0;
        proof {
            assert(self@.in_flight =~= Seq::new(
                FRAME_COUNT as nat,
                |k: int|
                    if k < i {
                        false
                    } else {
                        before.in_flight[k]
                    },
            ));
            assert(self@.commands =~= before.commands + drain_commands(
                before.handles.fences,
                before.in_flight.take(0),
            ));
        }
        while i < FRAME_COUNT
            invariant
                i <= FRAME_COUNT,
                before.wf(),
                before.initialized,
                self@ == (StateView {
                    in_flight: Seq::new(
                        FRAME_COUNT as nat,
                        |k: int|
                            if k < i {
                                false
                            } else {
                                before.in_flight[k]
                            },
                    ),
                    commands: before.commands + drain_commands(
                        before.handles.fences,
                        before.in_flight.take(i as int),
                    ),
                    ..before
                }),
            decreases FRAME_COUNT - i,
        {
            proof {
                assert(before.in_flight.take(i + 1).drop_last() =~= before.in_flight.take(
                    i as int,
                ));
            }
            if self.in_flight[i] {
                let fence = self.fences[i];
                self.driver.record(Command::WaitForFence { fence });
                self.in_flight.set(i, false);
            }
            i += 1;
            proof {
                assert(self@.in_flight =~= Seq::new(
                    FRAME_COUNT as nat,
                    |k: int|
                        if k < i {
                            false
                        } else {
                            before.in_flight[k]
                        },
                ));
                assert(self@.commands =~= before.commands + drain_commands(
                    before.handles.fences,
                    before.in_flight.take(i as int),
                ));
            }
        }
        proof {
            assert(before.in_flight.take(FRAME_COUNT as int) =~= before.in_flight);
            assert(self@.in_flight =~= before.drain().in_flight);
            drain_well_formed(before);
        }
    }

    /// Rebuilds the swapchain for a window of the size `extent`: destroys
    /// the depth image, then the views, then the swapchain, and creates a
    /// swapchain of the new size, its views and a depth image of the new
    /// size. No work may be in flight and no frame begun, since what is
    /// destroyed must not be in use. Before initialization there is nothing
    /// to rebuild.
    pub fn recreate_swapchain(&mut self, extent: Extent2D)
        requires
            old(self)@.wf(),
            old(self)@.idle(),
            !old(self)@.in_frame,
        ensures
            final(self)@ == if old(self)@.initialized {
                old(self)@.recreate(extent)
            } else {
                old(self)@
            },
            final(self)@.wf(),
    {
        if !self.initialized {
            return ;
        }
        let ghost before = self@;
        let mut swapchain_views: Vec<Handle> = Vec::new();
        core::mem::swap(&mut self.swapchain_views, &mut swapchain_views);
        let depth_image = self.depth_image;
        let swapchain = self.swapchain;
        proof {
            assert forall|i: int| 0 <= i < FRAME_COUNT implies before.handles.swapchain_views[i]
                != depth_image.view && swapchain_views@[i] != depth_image.handle
                && swapchain_views@[i] != depth_image.allocation by {
                assert(holds(before.objects, before.handles.swapchain_views[i], ObjectKind::ImageView));
            }
        }
        Self::destroy_render_targets(&mut self.driver, depth_image);
        Self::destroy_swapchain(&mut self.driver, swapchain, swapchain_views);
        proof {
            without_twice(
                before.objects,
                set![depth_image.view, depth_image.handle, depth_image.allocation],
                before.handles.swapchain_views.to_set().insert(swapchain),
            );
            assert(set![depth_image.view, depth_image.handle, depth_image.allocation].union(
                before.handles.swapchain_views.to_set().insert(swapchain),
            ) =~= before.handles.swapchain_objects());
        }
        let surface = self.surface;
        let present_mode = self.present_mode;
        let surface_format = self.surface_format;
        let (swapchain, swapchain_views) = Self::create_swapchain(
            &mut self.driver,
            &self.gpus[self.device_gpu],
            surface,
            present_mode,
            &surface_format,
            &extent,
        );
        let depth_image = Self::create_render_targets(
            &mut self.driver,
            &self.gpus[self.device_gpu],
            &extent,
        );
        self.swapchain = swapchain;
        self.swapchain_views = swapchain_views;
        self.depth_image = depth_image;
        self.swapchain_extent = extent;
        proof {
            let want = before.recreate(extent);
            self.driver.ledger_bounded();
            assert(self@.objects =~= want.objects);
            assert(self@.commands =~= want.commands);
            assert(self@.handles == want.handles);
            recreate_well_formed(before, extent);
        }
    }

    /// Begins a frame: waits for the fence of the frame's slot, acquires
    /// the next image of the swapchain and starts the recording into the
    /// command buffer of the slot. Before initialization and within a frame
    /// the call does nothing. Where the window `video` has another size than
    /// the swapchain, the work in flight is waited for and the swapchain is
    /// rebuilt for the new size first.
    pub fn begin_cmds(&mut self, video: &video::State)
        requires
            old(self)@.wf(),
        ensures
            final(self)@ == old(self)@.begin(
                Extent2D { width: video.width(), height: video.height() },
            ),
            final(self)@.wf(),
    {
        if !self.initialized || self.in_frame {
            return ;
        }
        let size = video.get_size();
        if size.0 != self.swapchain_extent.width || size.1 != self.swapchain_extent.height {
            self.wait_idle();
            self.recreate_swapchain(Extent2D { width: size.0, height: size.1 });
        }
        let ghost ready = self@;
        let slot = self.frame_index;
        let fence = self.fences[slot];
        let semaphore = self.acquire_semaphores[slot];
        let command_buffer = self.command_buffers[slot];
        self.driver.record(Command::WaitForFence { fence });
        self.in_flight.set(slot, false);
        self.driver.record(Command::AcquireNextImage { swapchain: self.swapchain, semaphore });
        self.driver.record(Command::BeginCommandBuffer { command_buffer, flags: 0 });
        self.in_frame = true;
        proof {
            assert(self@.commands =~= ready.commands + frame_begin_commands(
                ready.handles,
                slot as int,
            ));
        }
    }

    /// Presents the frame: has the transforms written to the uniform buffer
    /// of the slot, ends the recording, resets the fence of the slot,
    /// submits the command buffer and presents the image. The slot has work
    /// in flight then, and the next frame uses the next slot. Outside a
    /// frame the call does nothing.
    pub fn present(&mut self)
        requires
            old(self)@.wf(),
        ensures
            final(self)@ == old(self)@.present(),
            final(self)@.wf(),
    {
        if !self.initialized || !self.in_frame {
            return ;
        }
        let slot = self.frame_index;
        let fence = self.fences[slot];
        let acquire = self.acquire_semaphores[slot];
        let complete = self.render_complete_semaphores[slot];
        let command_buffer = self.command_buffers[slot];
        let allocation = self.uniform_buffers[slot].buffer.allocation;
        self.driver.record(Command::WriteUniforms { allocation, size: UNIFORM_DATA_SIZE });
        self.driver.record(Command::EndCommandBuffer { command_buffer });
        self.driver.record(Command::ResetFence { fence });
        self.driver.record(
            Command::QueueSubmit {
                queue: self.graphics_queue,
                command_buffer,
                wait_semaphore: Some(acquire),
                wait_stage: api::PIPELINE_STAGE_COLOR_ATTACHMENT_OUTPUT,
                signal_semaphore: Some(complete),
                signal_fence: Some(fence),
            },
        );
        self.driver.record(
            Command::QueuePresent {
                queue: self.graphics_queue,
                swapchain: self.swapchain,
                wait: complete,
            },
        );
        self.in_flight.set(slot, true);
        self.frame_index = (slot + 1) % FRAME_COUNT;
        self.in_frame = false;
        proof {
            assert(self@.commands =~= old(self)@.commands + present_commands(
                old(self)@.handles,
                slot as int,
            ));
        }
    }

    /// Takes in that the driver found the swapchain out of date, or no
    /// longer the best for the surface, when an image was acquired or
    /// presented: a frame that was begun is given up, the work in flight is
    /// waited for, and the swapchain is rebuilt for the size of the window
    /// `video`. Before initialization the call does nothing.
    pub fn swapchain_out_of_date(&mut self, video: &video::State)
        requires
            old(self)@.wf(),
        ensures
            final(self)@ == old(self)@.out_of_date(
                Extent2D { width: video.width(), height: video.height() },
            ),
            final(self)@.wf(),
    {
        if !self.initialized {
            return ;
        }
        self.in_frame = false;
        self.wait_idle();
        let size = video.get_size();
        self.recreate_swapchain(Extent2D { width: size.0, height: size.1 });
    }
}

} // verus!
