//! What the backend holds for the named resources: the modules of a shader
//! and the buffers of a model, and the drawing of a model.

use crate::rendersystem::vulkan::api;
use crate::rendersystem::vulkan::command::{
    holds,
    without,
    Command,
    Handle,
    Object,
    ObjectKind,
};
use crate::rendersystem::vulkan::device::fresh;
use crate::rendersystem::vulkan::memory::Buffer;
use crate::rendersystem::vulkan::teardown::buffer_handles;
use crate::rendersystem::vulkan::{State, StateView, FRAME_COUNT};
use vstd::prelude::*;

verus! {

/// Why the backend did not make a shader.
#[derive(Clone, Copy, Debug, PartialEq, Eq)]
pub enum ShaderErrorType {
    /// The backend is not initialized.
    NotInitialized,
    /// The binary of the vertex stage is no shader binary.
    InvalidVertexBinary,
    /// The binary of the fragment stage is no shader binary.
    InvalidFragmentBinary,
}

/// The modules of a shader.
#[derive(Clone, Copy, Debug, PartialEq, Eq)]
pub struct ShaderData {
    pub vertex: Handle,
    pub fragment: Handle,
}

/// The buffers of a model.
#[derive(Clone, Copy, Debug, PartialEq, Eq)]
pub struct ModelData {
    pub vertices: Buffer,
    pub indices: Buffer,
}

/// Whether `code` can be a shader binary: it is made of words of four
/// bytes, and has at least one.
pub open spec fn is_shader_binary(code: Seq<u8>) -> bool {
    code.len() > 0 && code.len() % 4 == 0
}

/// The commands that create the two modules of a shader under the handles
/// from `first` on.
pub open spec fn shader_commands(first: int, vertex_size: usize, fragment_size: usize) -> Seq<
    Command,
> {
    seq![
        Command::CreateShaderModule {
            module: first as Handle,
            stage: api::SHADER_STAGE_VERTEX,
            code_size: vertex_size,
        },
        Command::CreateShaderModule {
            module: (first + 1) as Handle,
            stage: api::SHADER_STAGE_FRAGMENT,
            code_size: fragment_size,
        },
    ]
}

/// The command that creates the vertex buffer or the index buffer of a
/// model: a buffer of the device that can be copied to.
pub open spec fn model_buffer_command(buffer: Handle, size: u64, usage: u32) -> Command {
    Command::CreateBuffer {
        buffer,
        allocation: (buffer + 1) as Handle,
        buffer_info: crate::rendersystem::vulkan::command::BufferInfo {
            size,
            usage,
            sharing_mode: api::SHARING_MODE_EXCLUSIVE,
        },
        memory: crate::rendersystem::vulkan::command::AllocationInfo {
            usage: crate::rendersystem::vulkan::command::MemoryUsage::Unknown,
            required_flags: api::MEMORY_PROPERTY_DEVICE_LOCAL,
        },
    }
}

impl StateView {
    /// The backend after it recorded `commands` and entered `objects` into
    /// the ledger.
    pub open spec fn with(self, objects: Seq<Object>, commands: Seq<Command>) -> StateView {
        StateView { objects: self.objects + objects, commands: self.commands + commands, ..self }
    }

    /// Whether `handle` names a buffer of the backend's own or its memory,
    /// or the depth image or its memory.
    pub open spec fn holds_memory(self, handle: Handle) -> bool {
        buffer_handles(self.handles.uniform_buffers).contains(handle) || handle
            == self.handles.depth_image.handle || handle == self.handles.depth_image.allocation
    }

    /// Whether `buffer` can be destroyed: it and its memory are alive, and
    /// neither is the backend's own.
    pub open spec fn can_release(self, buffer: Buffer) -> bool {
        &&& holds(self.objects, buffer.handle, ObjectKind::Buffer)
        &&& holds(self.objects, buffer.allocation, ObjectKind::Allocation)
        &&& !self.holds_memory(buffer.handle)
        &&& !self.holds_memory(buffer.allocation)
    }

    /// The backend after `buffer` was destroyed, if it can be.
    pub open spec fn release(self, buffer: Buffer) -> StateView {
        if self.can_release(buffer) {
            StateView {
                objects: without(self.objects, set![buffer.handle, buffer.allocation]),
                commands: self.commands.push(
                    Command::DestroyBuffer { buffer: buffer.handle, allocation: buffer.allocation },
                ),
                ..self
            }
        } else {
            self
        }
    }

    /// The backend after the shader module `module` was destroyed, if it is
    /// alive.
    pub open spec fn release_module(self, module: Handle) -> StateView {
        if holds(self.objects, module, ObjectKind::ShaderModule) {
            StateView {
                objects: without(self.objects, set![module]),
                commands: self.commands.push(
                    Command::Destroy { kind: ObjectKind::ShaderModule, handle: module },
                ),
                ..self
            }
        } else {
            self
        }
    }

    /// The backend after a model was drawn: within a frame, and if the
    /// buffers of the model are alive, the draw is recorded into the command
    /// buffer of the frame's slot, with the descriptor set of the slot;
    /// otherwise nothing happens.
    pub open spec fn draw(self, model: ModelData) -> StateView {
        if self.initialized && self.in_frame && holds(
            self.objects,
            model.vertices.handle,
            ObjectKind::Buffer,
        ) && holds(self.objects, model.indices.handle, ObjectKind::Buffer) {
            StateView {
                commands: self.commands.push(
                    Command::DrawIndexed {
                        command_buffer: self.handles.command_buffers[self.frame_index as int],
                        descriptor_set: self.handles.descriptor_sets[self.frame_index as int],
                        vertex_buffer: model.vertices.handle,
                        index_buffer: model.indices.handle,
                        index_count: model.indices.size / 4,
                    },
                ),
                ..self
            }
        } else {
            self
        }
    }
}

/// What is entered into the ledger behind the objects of a backend leaves
/// the backend as it should be.
pub proof fn with_well_formed(state: StateView, objects: Seq<Object>, commands: Seq<Command>)
    requires
        state.wf(),
        state.initialized,
    ensures
        state.with(objects, commands).wf(),
{
    let after = state.with(objects, commands);
    assert forall|h: Handle, kind: ObjectKind| holds(state.objects, h, kind) implies holds(
        after.objects,
        h,
        kind,
    ) by {}
}

/// Destroying a buffer that is not the backend's own leaves the backend as
/// it should be.
pub proof fn release_well_formed(state: StateView, buffer: Buffer)
    requires
        state.wf(),
    ensures
        state.release(buffer).wf(),
{
    if state.can_release(buffer) {
        let after = state.release(buffer);
        let gone = set![buffer.handle, buffer.allocation];
        assert forall|h: Handle, kind: ObjectKind|
            holds(state.objects, h, kind) && h != buffer.handle && h
                != buffer.allocation implies holds(after.objects, h, kind) by {}
        if state.initialized {
            let handles = state.handles;
            assert forall|i: int| 0 <= i < FRAME_COUNT implies {
                &&& holds(
                    after.objects,
                    (#[trigger] handles.uniform_buffers[i]).buffer.handle,
                    ObjectKind::Buffer,
                )
                &&& holds(
                    after.objects,
                    handles.uniform_buffers[i].buffer.allocation,
                    ObjectKind::Allocation,
                )
            } by {
                assert(buffer_handles(handles.uniform_buffers).contains(
                    handles.uniform_buffers[i].buffer.handle,
                ));
                assert(buffer_handles(handles.uniform_buffers).contains(
                    handles.uniform_buffers[i].buffer.allocation,
                ));
            }
            assert(handles.live_in(after.objects));
        }
    }
}

/// Destroying a shader module leaves the backend as it should be.
pub proof fn release_module_well_formed(state: StateView, module: Handle)
    requires
        state.wf(),
    ensures
        state.release_module(module).wf(),
{
    if holds(state.objects, module, ObjectKind::ShaderModule) {
        let after = state.release_module(module);
        assert forall|h: Handle, kind: ObjectKind|
            holds(state.objects, h, kind) && h != module implies holds(after.objects, h, kind) by {}
        if state.initialized {
            assert(state.handles.live_in(after.objects));
        }
    }
}

impl ShaderData {
    /// What the name of a vertex shader binary ends in.
    pub fn vertex_extension() -> (extension: &'static str)
        ensures
            extension@ == ".vert.spv"@,
    {
        ".vert.spv"
    }

    /// What the name of a fragment shader binary ends in.
    pub fn fragment_extension() -> (extension: &'static str)
        ensures
            extension@ == ".frag.spv"@,
    {
        ".frag.spv"
    }

    /// Makes the modules of a shader from the binaries of its two stages.
    /// The backend must be initialized, and each binary a shader binary;
    /// else nothing is recorded.
    pub fn new(backend: &mut State, vertex_binary: &Vec<u8>, fragment_binary: &Vec<u8>) -> (made:
        Result<ShaderData, ShaderErrorType>)
        requires
            old(backend)@.wf(),
        ensures
            final(backend)@.wf(),
            made == if !old(backend)@.initialized {
                Err::<ShaderData, ShaderErrorType>(ShaderErrorType::NotInitialized)
            } else if !is_shader_binary(vertex_binary@) {
                Err(ShaderErrorType::InvalidVertexBinary)
            } else if !is_shader_binary(fragment_binary@) {
                Err(ShaderErrorType::InvalidFragmentBinary)
            } else {
                Ok(
                    ShaderData {
                        vertex: old(backend)@.objects.len() as Handle,
                        fragment: (old(backend)@.objects.len() + 1) as Handle,
                    },
                )
            },
            final(backend)@ == if made is Ok {
                old(backend)@.with(
                    fresh(ObjectKind::ShaderModule, 2),
                    shader_commands(
                        old(backend)@.objects.len() as int,
                        vertex_binary.len(),
                        fragment_binary.len(),
                    ),
                )
            } else {
                old(backend)@
            },
            made matches Ok(data) ==> holds(
                final(backend)@.objects,
                data.vertex,
                ObjectKind::ShaderModule,
            ) && holds(final(backend)@.objects, data.fragment, ObjectKind::ShaderModule),
    {
        if !backend.initialized {
            return Err(ShaderErrorType::NotInitialized);
        }
        if vertex_binary.len() == 0 || vertex_binary.len() % 4 != 0 {
            return Err(ShaderErrorType::InvalidVertexBinary);
        }
        if fragment_binary.len() == 0 || fragment_binary.len() % 4 != 0 {
            return Err(ShaderErrorType::InvalidFragmentBinary);
        }
        let ghost before = backend@;
        let vertex = backend.driver.create(ObjectKind::ShaderModule);
        backend.driver.record(
            Command::CreateShaderModule {
                module: vertex,
                stage: api::SHADER_STAGE_VERTEX,
                code_size: vertex_binary.len(),
            },
        );
        let fragment = backend.driver.create(ObjectKind::ShaderModule);
        backend.driver.record(
            Command::CreateShaderModule {
                module: fragment,
                stage: api::SHADER_STAGE_FRAGMENT,
                code_size: fragment_binary.len(),
            },
        );
        proof {
            let want = before.with(
                fresh(ObjectKind::ShaderModule, 2),
                shader_commands(
                    before.objects.len() as int,
                    vertex_binary.len(),
                    fragment_binary.len(),
                ),
            );
            assert(backend@.objects =~= want.objects);
            assert(backend@.commands =~= want.commands);
            with_well_formed(
                before,
                fresh(ObjectKind::ShaderModule, 2),
                shader_commands(
                    before.objects.len() as int,
                    vertex_binary.len(),
                    fragment_binary.len(),
                ),
            );
        }
        Ok(ShaderData { vertex, fragment })
    }

    /// Destroys the modules, as far as they are alive: the vertex module,
    /// then the fragment module.
    pub fn destroy(&self, backend: &mut State)
        requires
            old(backend)@.wf(),
        ensures
            final(backend)@ == old(backend)@.release_module(self.vertex).release_module(
                self.fragment,
            ),
            final(backend)@.wf(),
    {
        proof {
            release_module_well_formed(backend@, self.vertex);
            release_module_well_formed(backend@.release_module(self.vertex), self.fragment);
        }
        if backend.driver.is_alive_as(self.vertex, ObjectKind::ShaderModule) {
            backend.driver.destroy(ObjectKind::ShaderModule, self.vertex);
        }
        if backend.driver.is_alive_as(self.fragment, ObjectKind::ShaderModule) {
            backend.driver.destroy(ObjectKind::ShaderModule, self.fragment);
        }
    }
}

impl State {
    /// Whether `handle` names memory that the backend holds itself.
    fn has_memory(&self, handle: Handle) -> (yes: bool)
        requires
            self@.wf(),
        ensures
            yes == self@.holds_memory(handle),
    {
        if handle == self.depth_image.handle || handle == self.depth_image.allocation {
            return true;
        }
        let mut i: usize = 0;
        while i < self.uniform_buffers.len()
            invariant
                i <= self.uniform_buffers@.len(),
                forall|k: int|
                    0 <= k < i ==> handle != (#[trigger] self.uniform_buffers@[k]).buffer.handle
                        && handle != self.uniform_buffers@[k].buffer.allocation,
            decreases self.uniform_buffers.len() - i,
        {
            if handle == self.uniform_buffers[i].buffer.handle || handle
                == self.uniform_buffers[i].buffer.allocation {
                return true;
            }
            i += 1;
        }
        false
    }

    /// Destroys a buffer that is alive and not the backend's own; another
    /// is left alone.
    pub fn release_buffer(&mut self, buffer: &Buffer)
        requires
            old(self)@.wf(),
        ensures
            final(self)@ == old(self)@.release(*buffer),
            final(self)@.wf(),
    {
        proof {
            release_well_formed(self@, *buffer);
        }
        if self.driver.is_alive_as(buffer.handle, ObjectKind::Buffer) && self.driver.is_alive_as(
            buffer.allocation,
            ObjectKind::Allocation,
        ) && !self.has_memory(buffer.handle) && !self.has_memory(buffer.allocation) {
            buffer.destroy(&mut self.driver);
        }
    }

    /// Draws a model, if a frame was begun and the buffers of the model are
    /// alive; else the call does nothing.
    pub fn render_model(&mut self, model: &ModelData)
        requires
            old(self)@.wf(),
        ensures
            final(self)@ == old(self)@.draw(*model),
            final(self)@.wf(),
    {
        if self.initialized && self.in_frame && self.driver.is_alive_as(
            model.vertices.handle,
            ObjectKind::Buffer,
        ) && self.driver.is_alive_as(model.indices.handle, ObjectKind::Buffer) {
            let slot = self.frame_index;
            let command_buffer = self.command_buffers[slot];
            let descriptor_set = self.descriptor_sets[slot];
            self.driver.record(
                Command::DrawIndexed {
                    command_buffer,
                    descriptor_set,
                    vertex_buffer: model.vertices.handle,
                    index_buffer: model.indices.handle,
                    index_count: model.indices.size / 4,
                },
            );
        }
    }
}

impl ModelData {
    /// Makes the buffers of a model: a vertex buffer of `vertices_size` bytes
    /// and an index buffer of `indices_size` bytes, in memory of the device.
    /// A backend that is not initialized makes none, and nothing is
    /// recorded.
    pub fn new(backend: &mut State, vertices_size: u64, indices_size: u64) -> (made: Option<
        ModelData,
    >)
        requires
            old(backend)@.wf(),
        ensures
            made == if old(backend)@.initialized {
                Some(
                    ModelData {
                        vertices: Buffer {
                            handle: old(backend)@.objects.len() as Handle,
                            allocation: (old(backend)@.objects.len() + 1) as Handle,
                            size: vertices_size,
                        },
                        indices: Buffer {
                            handle: (old(backend)@.objects.len() + 2) as Handle,
                            allocation: (old(backend)@.objects.len() + 3) as Handle,
                            size: indices_size,
                        },
                    },
                )
            } else {
                None
            },
            final(backend)@ == if old(backend)@.initialized {
                old(backend)@.with(
                    crate::rendersystem::vulkan::descriptor::buffer_objects(2),
                    seq![
                        model_buffer_command(
                            old(backend)@.objects.len() as Handle,
                            vertices_size,
                            api::BUFFER_USAGE_VERTEX_BUFFER | api::BUFFER_USAGE_TRANSFER_DST,
                        ),
                        model_buffer_command(
                            (old(backend)@.objects.len() + 2) as Handle,
                            indices_size,
                            api::BUFFER_USAGE_INDEX_BUFFER | api::BUFFER_USAGE_TRANSFER_DST,
                        ),
                    ],
                )
            } else {
                old(backend)@
            },
            final(backend)@.wf(),
    {
        if !backend.initialized {
            return None;
        }
        let ghost before = backend@;
        let vertices = Buffer::new(
            &mut backend.driver,
            vertices_size,
            api::BUFFER_USAGE_VERTEX_BUFFER | api::BUFFER_USAGE_TRANSFER_DST,
            api::MEMORY_PROPERTY_DEVICE_LOCAL,
        );
        let indices = Buffer::new(
            &mut backend.driver,
            indices_size,
            api::BUFFER_USAGE_INDEX_BUFFER | api::BUFFER_USAGE_TRANSFER_DST,
            api::MEMORY_PROPERTY_DEVICE_LOCAL,
        );
        proof {
            let objects = crate::rendersystem::vulkan::descriptor::buffer_objects(2);
            let commands = seq![
                model_buffer_command(
                    vertices.handle,
                    vertices_size,
                    api::BUFFER_USAGE_VERTEX_BUFFER | api::BUFFER_USAGE_TRANSFER_DST,
                ),
                model_buffer_command(
                    indices.handle,
                    indices_size,
                    api::BUFFER_USAGE_INDEX_BUFFER | api::BUFFER_USAGE_TRANSFER_DST,
                ),
            ];
            assert(backend@.objects =~= before.objects + objects);
            assert(backend@.commands =~= before.commands + commands);
            with_well_formed(before, objects, commands);
        }
        Some(ModelData { vertices, indices })
    }

    /// Destroys the buffers, as far as they are alive: the vertex buffer,
    /// then the index buffer.
    pub fn destroy(&self, backend: &mut State)
        requires
            old(backend)@.wf(),
        ensures
            final(backend)@ == old(backend)@.release(self.vertices).release(self.indices),
            final(backend)@.wf(),
    {
        backend.release_buffer(&self.vertices);
        backend.release_buffer(&self.indices);
    }
}

} // verus!
