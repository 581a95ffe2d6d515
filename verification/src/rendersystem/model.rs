//! Models.

use crate::rendersystem::mesh::{all_vertex_words, merge_meshes, model_bytes, word_bytes, Mesh};
use crate::rendersystem::registry::{share, ThingHolder};
use crate::rendersystem::vulkan::api;
use crate::rendersystem::vulkan::descriptor::buffer_objects;
use crate::rendersystem::vulkan::memory::Buffer;
use crate::rendersystem::vulkan::resource::{model_buffer_command, ModelData};
use crate::rendersystem::{Material, Model, ModelView, RenderView, Renderable, State};
use std::sync::Arc;
use vstd::prelude::*;
use vstd::string::StringExecFns;

verus! {

/// The buffers of a model of `meshes` whose first buffer gets the handle
/// `first`: the vertex buffer holds the vertices of all meshes, the index
/// buffer their indices.
pub open spec fn model_data(first: int, meshes: Seq<Mesh>) -> ModelData {
    ModelData {
        vertices: Buffer {
            handle: first as usize,
            allocation: (first + 1) as usize,
            size: word_bytes(all_vertex_words(meshes)).len() as u64,
        },
        indices: Buffer {
            handle: (first + 2) as usize,
            allocation: (first + 3) as usize,
            size: (model_bytes(meshes).len() - word_bytes(all_vertex_words(meshes)).len()) as u64,
        },
    }
}

impl Model {
    /// Makes the model `name` of the given meshes, with the material that is
    /// registered under `material`, and registers it in place of what was
    /// registered under its name.
    ///
    /// The meshes are laid out as [`merge_meshes`] does, and a vertex buffer
    /// and an index buffer of the sizes of the two parts are made. Where the
    /// backend is not initialized, or no material is registered under
    /// `material`, nothing is made and nothing changes. Each mesh must have
    /// normals and texture coordinates for its vertices.
    pub fn new(state: &mut State, name: &str, models: Vec<Mesh>, material: &str) -> (made: Result<
        ThingHolder<Model>,
        (),
    >)
        requires
            old(state).wf(),
            forall|i: int| 0 <= i < models@.len() ==> (#[trigger] models@[i]).complete(),
        ensures
            final(state).wf(),
            if old(state)@.backend.initialized && old(state)@.materials.contains_key(material@) {
                let data = model_data(old(state)@.backend.objects.len() as int, models@);
                &&& made matches Ok(model)
                &&& model@ == (ModelView {
                    name: name@,
                    data: model_bytes(models@),
                    material: old(state)@.materials[material@]@,
                    handle: data,
                })
                &&& final(state)@ == (RenderView {
                    backend: old(state)@.backend.with(
                        buffer_objects(2),
                        seq![
                            model_buffer_command(
                                data.vertices.handle,
                                data.vertices.size,
                                api::BUFFER_USAGE_VERTEX_BUFFER | api::BUFFER_USAGE_TRANSFER_DST,
                            ),
                            model_buffer_command(
                                data.indices.handle,
                                data.indices.size,
                                api::BUFFER_USAGE_INDEX_BUFFER | api::BUFFER_USAGE_TRANSFER_DST,
                            ),
                        ],
                    ),
                    models: old(state)@.models.insert(name@, model),
                    ..old(state)@
                })
            } else {
                made is Err && final(state)@ == old(state)@
            },
    {
        if !state.backend.is_initialized() {
            return Err(());
        }
        let material = match state.materials.get(material) {
            Some(thing) => thing,
            None => {
                return Err(());
            },
        };
        let (data, vertices_size) = merge_meshes(&models);
        let indices_size = data.len() - vertices_size;
        let handle = match ModelData::new(
            &mut state.backend,
            vertices_size as u64,
            indices_size as u64,
        ) {
            Some(handle) => handle,
            None => {
                return Err(());
            },
        };
        let model = Arc::new(Model { name: String::from_str(name), data, material, handle });
        state.models.insert(name, share(&model));
        Ok(model)
    }

    /// Destroys the buffers of the model, as far as they are alive. The
    /// model stays registered.
    pub fn destroy(&self, state: &mut State)
        requires
            old(state).wf(),
        ensures
            final(state)@ == (RenderView {
                backend: old(state)@.backend.release(self@.handle.vertices).release(
                    self@.handle.indices,
                ),
                ..old(state)@
            }),
            final(state).wf(),
    {
        self.handle.destroy(&mut state.backend);
    }

    /// The name of the model.
    pub fn name(&self) -> (name: &String)
        ensures
            name@ == self@.name,
    {
        &self.name
    }

    /// The vertices, then the indices, of the model as bytes.
    pub fn data(&self) -> (data: &Vec<u8>)
        ensures
            data@ == self@.data,
    {
        &self.data
    }

    /// How many bytes the data of the model has.
    pub fn size(&self) -> (size: u64)
        ensures
            size == self@.data.len(),
    {
        self.data.len() as u64
    }

    /// The material of the model.
    pub fn material(&self) -> (material: &ThingHolder<Material>)
        ensures
            material@ == self@.material,
    {
        &self.material
    }

    /// The buffers of the model.
    pub fn handle(&self) -> (handle: ModelData)
        ensures
            handle == self@.handle,
    {
        self.handle
    }
}

impl Renderable for Model {
    /// Draws the model, if a frame was begun and the buffers of the model
    /// are alive.
    fn render(&self, state: &mut State)
        ensures
            final(state)@ == (RenderView {
                backend: old(state)@.backend.draw(self@.handle),
                ..old(state)@
            }),
    {
        if state.backend.is_in_frame() {
            state.backend.render_model(&self.handle);
        }
    }
}

} // verus!
