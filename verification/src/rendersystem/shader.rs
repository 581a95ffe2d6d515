//! Shaders.

use crate::rendersystem::registry::{share, ThingHolder};
use crate::rendersystem::vulkan::command::ObjectKind;
use crate::rendersystem::vulkan::device::fresh;
use crate::rendersystem::vulkan::resource::{
    is_shader_binary,
    shader_commands,
    ShaderData,
    ShaderErrorType,
};
use crate::rendersystem::{RenderView, Shader, ShaderError, ShaderView, State};
use std::sync::Arc;
use vstd::prelude::*;
use vstd::string::StringExecFns;

verus! {

impl Shader {
    /// The path of the binary of the vertex stage of the shader `name`: the
    /// directory of the shaders, the name, and the ending of vertex shader
    /// binaries.
    pub fn vertex_path(shader_dir: &str, name: &str) -> (path: String)
        ensures
            path@ == shader_dir@ + name@ + ".vert.spv"@,
    {
        String::from_str(shader_dir).concat(name).concat(ShaderData::vertex_extension())
    }

    /// The path of the binary of the fragment stage of the shader `name`.
    pub fn fragment_path(shader_dir: &str, name: &str) -> (path: String)
        ensures
            path@ == shader_dir@ + name@ + ".frag.spv"@,
    {
        String::from_str(shader_dir).concat(name).concat(ShaderData::fragment_extension())
    }

    /// Makes the shader `name` from what the reads of its two binaries gave,
    /// and registers it.
    ///
    /// Where the vertex binary could not be read, its error is returned;
    /// else that of the fragment binary, where that could not be read; else
    /// the reason for which the backend could not make the modules: it is
    /// not initialized, or a binary is no shader binary. In all these cases
    /// nothing is recorded and nothing registered. Otherwise the modules are
    /// made and the shader is registered under its name, in place of what
    /// was registered there.
    pub fn new(
        state: &mut State,
        name: &str,
        vertex_binary: Result<Vec<u8>, std::io::Error>,
        fragment_binary: Result<Vec<u8>, std::io::Error>,
    ) -> (made: Result<ThingHolder<Shader>, ShaderError>)
        requires
            old(state).wf(),
        ensures
            final(state).wf(),
            match vertex_binary {
                Err(error) => made matches Err(ShaderError::Io(e)) && e == error
                    && final(state)@ == old(state)@,
                Ok(vertex) => match fragment_binary {
                    Err(error) => made matches Err(ShaderError::Io(e)) && e == error
                        && final(state)@ == old(state)@,
                    Ok(fragment) => if !old(state)@.backend.initialized {
                        made matches Err(ShaderError::Backend(ShaderErrorType::NotInitialized))
                            && final(state)@ == old(state)@
                    } else if !is_shader_binary(vertex@) {
                        made matches Err(
                            ShaderError::Backend(ShaderErrorType::InvalidVertexBinary),
                        ) && final(state)@ == old(state)@
                    } else if !is_shader_binary(fragment@) {
                        made matches Err(
                            ShaderError::Backend(ShaderErrorType::InvalidFragmentBinary),
                        ) && final(state)@ == old(state)@
                    } else {
                        &&& made matches Ok(shader)
                        &&& shader@ == (ShaderView {
                            name: name@,
                            handle: ShaderData {
                                vertex: old(state)@.backend.objects.len() as usize,
                                fragment: (old(state)@.backend.objects.len() + 1) as usize,
                            },
                        })
                        &&& final(state)@ == (RenderView {
                            backend: old(state)@.backend.with(
                                fresh(ObjectKind::ShaderModule, 2),
                                shader_commands(
                                    old(state)@.backend.objects.len() as int,
                                    vertex.len(),
                                    fragment.len(),
                                ),
                            ),
                            shaders: old(state)@.shaders.insert(name@, shader),
                            ..old(state)@
                        })
                    },
                },
            },
    {
        let vertex_binary = match vertex_binary {
            Ok(data) => data,
            Err(err) => {
                return Err(ShaderError::Io(err));
            },
        };
        let fragment_binary = match fragment_binary {
            Ok(data) => data,
            Err(err) => {
                return Err(ShaderError::Io(err));
            },
        };
        let handle = match ShaderData::new(&mut state.backend, &vertex_binary, &fragment_binary) {
            Ok(handle) => handle,
            Err(err) => {
                return Err(ShaderError::Backend(err));
            },
        };
        let shader = Arc::new(Shader { name: String::from_str(name), handle });
        state.shaders.insert(name, share(&shader));
        Ok(shader)
    }

    /// Destroys the modules of the shader, as far as they are alive. The
    /// shader stays registered.
    pub fn destroy(&self, state: &mut State)
        requires
            old(state).wf(),
        ensures
            final(state)@ == (RenderView {
                backend: old(state)@.backend.release_module(self@.handle.vertex).release_module(
                    self@.handle.fragment,
                ),
                ..old(state)@
            }),
            final(state).wf(),
    {
        self.handle.destroy(&mut state.backend);
    }

    /// The name of the shader.
    pub fn name(&self) -> (name: &String)
        ensures
            name@ == self@.name,
    {
        &self.name
    }

    /// The modules of the shader.
    pub fn handle(&self) -> (handle: ShaderData)
        ensures
            handle == self@.handle,
    {
        self.handle
    }
}

} // verus!
