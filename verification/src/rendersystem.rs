//! The render system: the backend and the named resources that are drawn
//! with it.
//!
//! A shader, a material or a model is made under a name and entered into the
//! registry of its kind. A material shares the shader it names, a model the
//! material it names. What is shared is never changed: whoever holds it
//! keeps what it was given, whatever is registered later.

pub mod material;
pub mod mesh;
pub mod model;
pub mod registry;
pub mod shader;
pub mod vulkan;

use crate::rendersystem::registry::{Registry, ThingHolder};
use crate::rendersystem::vulkan::command::{Command, Driver, Extent2D, without};
use crate::rendersystem::vulkan::gpu::GpuInfo;
use crate::rendersystem::vulkan::resource::{ModelData, ShaderData, ShaderErrorType};
use crate::rendersystem::vulkan::swapchain::depth_format;
use crate::rendersystem::vulkan::StateView;
use crate::video;
use vstd::prelude::*;

verus! {

/// The error of a failed read, as the standard library has it. Nothing is
/// known of what it holds.
#[verifier::external_type_specification]
#[verifier::external_body]
pub struct ExIoError(std::io::Error);

/// Why a shader was not made.
#[derive(Debug)]
pub enum ShaderError {
    /// A binary could not be read.
    Io(std::io::Error),
    /// The backend could not make the shader.
    Backend(ShaderErrorType),
}

/// A shader: the modules of its two stages under a name.
pub struct Shader {
    name: String,
    handle: ShaderData,
}

/// What a shader is.
pub struct ShaderView {
    pub name: Seq<char>,
    pub handle: ShaderData,
}

impl View for Shader {
    type V = ShaderView;

    closed spec fn view(&self) -> ShaderView {
        ShaderView { name: self.name@, handle: self.handle }
    }
}

/// A texture that is rendered to.
pub struct RenderTexture {
    name: String,
}

/// A material: the shader that what is made of it is drawn with.
pub struct Material {
    name: String,
    shader: ThingHolder<Shader>,
}

/// What a material is.
pub struct MaterialView {
    pub name: Seq<char>,
    pub shader: ShaderView,
}

impl View for Material {
    type V = MaterialView;

    closed spec fn view(&self) -> MaterialView {
        MaterialView { name: self.name@, shader: self.shader@ }
    }
}

/// A model: its geometry, its material and its buffers.
pub struct Model {
    name: String,
    data: Vec<u8>,
    material: ThingHolder<Material>,
    handle: ModelData,
}

/// What a model is.
pub struct ModelView {
    pub name: Seq<char>,
    /// The vertices, then the indices, as bytes.
    pub data: Seq<u8>,
    pub material: MaterialView,
    pub handle: ModelData,
}

impl View for Model {
    type V = ModelView;

    closed spec fn view(&self) -> ModelView {
        ModelView {
            name: self.name@,
            data: self.data@,
            material: self.material@,
            handle: self.handle,
        }
    }
}

/// The render system.
pub struct State {
    backend: vulkan::State,
    shaders: Registry<Shader>,
    models: Registry<Model>,
    materials: Registry<Material>,
}

/// What the render system is.
pub struct RenderView {
    pub backend: StateView,
    pub shaders: Map<Seq<char>, ThingHolder<Shader>>,
    pub models: Map<Seq<char>, ThingHolder<Model>>,
    pub materials: Map<Seq<char>, ThingHolder<Material>>,
}

impl View for State {
    type V = RenderView;

    closed spec fn view(&self) -> RenderView {
        RenderView {
            backend: self.backend@,
            shaders: self.shaders@,
            models: self.models@,
            materials: self.materials@,
        }
    }
}

/// Something that can be drawn.
pub trait Renderable {
    /// Draws `self`. Outside a frame nothing is drawn.
    fn render(&self, state: &mut State)
        requires
            old(state).wf(),
        ensures
            final(state).wf(),
            !old(state)@.backend.in_frame ==> final(state)@ == old(state)@,
    ;
}

impl State {
    /// Whether the backend is as it should be, and no registry has a name
    /// twice.
    pub closed spec fn wf(&self) -> bool {
        &&& self.backend@.wf()
        &&& self.shaders.wf()
        &&& self.models.wf()
        &&& self.materials.wf()
    }

    /// A render system whose backend is not initialized yet, with nothing
    /// registered. See [`vulkan::State::new`].
    pub fn new(major: u8, minor: u8, patch: u8, validation: bool) -> (state: State)
        ensures
            state@ == (RenderView {
                backend: StateView::fresh(major, minor, patch, validation),
                shaders: Map::empty(),
                models: Map::empty(),
                materials: Map::empty(),
            }),
            state.wf(),
    {
        State {
            backend: vulkan::State::new(major, minor, patch, validation),
            shaders: Registry::new(),
            models: Registry::new(),
            materials: Registry::new(),
        }
    }

    /// Initializes the backend for the window `video` on the first of the
    /// candidates `gpus`. See [`vulkan::State::init`].
    pub fn init(&mut self, video: &video::State, gpus: Vec<GpuInfo>)
        requires
            old(self).wf(),
            gpus@.len() >= 1,
            forall|i: int| 0 <= i < gpus@.len() ==> (#[trigger] gpus@[i]).well_formed(),
            depth_format(gpus@[0]) != vulkan::api::FORMAT_UNDEFINED,
        ensures
            final(self)@ == (RenderView {
                backend: if old(self)@.backend.initialized {
                    old(self)@.backend
                } else {
                    old(self)@.backend.initialize(
                        gpus@,
                        Extent2D { width: video.width(), height: video.height() },
                    )
                },
                ..old(self)@
            }),
            final(self).wf(),
    {
        self.backend.init(gpus, video);
    }

    /// Loads the resources, if the backend is initialized and they are not
    /// loaded.
    pub fn load_resources(&mut self)
        requires
            old(self).wf(),
        ensures
            final(self)@ == (RenderView {
                backend: StateView {
                    loaded: old(self)@.backend.initialized,
                    ..old(self)@.backend
                },
                ..old(self)@
            }),
            final(self).wf(),
    {
        if self.backend.is_initialized() && !self.backend.is_loaded() {
            self.backend.load_resources();
        }
    }

    /// Begins a frame. See [`vulkan::State::begin_cmds`].
    pub fn begin_cmds(&mut self, video: &video::State)
        requires
            old(self).wf(),
        ensures
            final(self)@ == (RenderView {
                backend: old(self)@.backend.begin(
                    Extent2D { width: video.width(), height: video.height() },
                ),
                ..old(self)@
            }),
            final(self).wf(),
    {
        self.backend.begin_cmds(video)
    }

    /// Presents the frame. See [`vulkan::State::present`].
    pub fn present(&mut self)
        requires
            old(self).wf(),
        ensures
            final(self)@ == (RenderView { backend: old(self)@.backend.present(), ..old(self)@ }),
            final(self).wf(),
    {
        self.backend.present()
    }

    /// Takes in that the driver found the swapchain out of date. See
    /// [`vulkan::State::swapchain_out_of_date`].
    pub fn swapchain_out_of_date(&mut self, video: &video::State)
        requires
            old(self).wf(),
        ensures
            final(self)@ == (RenderView {
                backend: old(self)@.backend.out_of_date(
                    Extent2D { width: video.width(), height: video.height() },
                ),
                ..old(self)@
            }),
            final(self).wf(),
    {
        self.backend.swapchain_out_of_date(video)
    }

    /// Unloads the resources, if they are loaded.
    pub fn unload_resources(&mut self)
        requires
            old(self).wf(),
        ensures
            final(self)@ == (RenderView {
                backend: StateView { loaded: false, ..old(self)@.backend },
                ..old(self)@
            }),
            final(self).wf(),
    {
        if self.backend.is_initialized() && self.backend.is_loaded() {
            self.backend.unload_resources();
        }
    }

    /// Shuts the render system down: unloads the resources and shuts the
    /// backend down. Returns the record of the backend, with the commands
    /// still to be carried out. See [`vulkan::State::shutdown`].
    pub fn shutdown(self) -> (driver: Driver)
        requires
            self.wf(),
        ensures
            driver.commands() == self@.backend.commands + self@.backend.shutdown_commands(),
            driver.objects() == without(self@.backend.objects, self@.backend.owned()),
    {
        let mut state = self;
        state.unload_resources();
        state.backend.shutdown()
    }

    /// Hands out the commands recorded so far. See
    /// [`vulkan::State::take_commands`].
    pub fn take_commands(&mut self) -> (commands: Vec<Command>)
        requires
            old(self).wf(),
        ensures
            commands@ == old(self)@.backend.commands,
            final(self)@ == (RenderView {
                backend: StateView { commands: Seq::empty(), ..old(self)@.backend },
                ..old(self)@
            }),
            final(self).wf(),
    {
        self.backend.take_commands()
    }

    /// The backend.
    pub fn backend(&self) -> (backend: &vulkan::State)
        ensures
            backend@ == self@.backend,
    {
        &self.backend
    }

    /// The shader that is registered under `name`.
    pub fn shader(&self, name: &str) -> (found: Option<ThingHolder<Shader>>)
        requires
            self.wf(),
        ensures
            found == if self@.shaders.contains_key(name@) {
                Some(self@.shaders[name@])
            } else {
                None
            },
    {
        self.shaders.get(name)
    }

    /// The material that is registered under `name`.
    pub fn material(&self, name: &str) -> (found: Option<ThingHolder<Material>>)
        requires
            self.wf(),
        ensures
            found == if self@.materials.contains_key(name@) {
                Some(self@.materials[name@])
            } else {
                None
            },
    {
        self.materials.get(name)
    }

    /// The model that is registered under `name`.
    pub fn model(&self, name: &str) -> (found: Option<ThingHolder<Model>>)
        requires
            self.wf(),
        ensures
            found == if self@.models.contains_key(name@) {
                Some(self@.models[name@])
            } else {
                None
            },
    {
        self.models.get(name)
    }
}

} // verus!
