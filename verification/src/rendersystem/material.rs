//! Materials.

use crate::rendersystem::registry::{share, ThingHolder};
use crate::rendersystem::{Material, MaterialView, RenderView, Shader, State};
use std::sync::Arc;
use vstd::prelude::*;
use vstd::string::StringExecFns;

verus! {

impl Material {
    /// Makes the material `name` with the shader that is registered under
    /// `shader`, and registers it in place of what was registered under its
    /// name. Where no shader is registered under `shader`, nothing is made
    /// and nothing changes.
    pub fn new(state: &mut State, name: &str, shader: &str) -> (made: Result<
        ThingHolder<Material>,
        (),
    >)
        requires
            old(state).wf(),
        ensures
            final(state).wf(),
            if old(state)@.shaders.contains_key(shader@) {
                &&& made matches Ok(material)
                &&& material@ == (MaterialView {
                    name: name@,
                    shader: old(state)@.shaders[shader@]@,
                })
                &&& final(state)@ == (RenderView {
                    materials: old(state)@.materials.insert(name@, material),
                    ..old(state)@
                })
            } else {
                made is Err && final(state)@ == old(state)@
            },
    {
        let shader = match state.shaders.get(shader) {
            Some(thing) => thing,
            None => {
                return Err(());
            },
        };
        let material = Arc::new(Material { name: String::from_str(name), shader });
        state.materials.insert(name, share(&material));
        Ok(material)
    }

    /// The name of the material.
    pub fn name(&self) -> (name: &String)
        ensures
            name@ == self@.name,
    {
        &self.name
    }

    /// The shader of the material.
    pub fn shader(&self) -> (shader: &ThingHolder<Shader>)
        ensures
            shader@ == self@.shader,
    {
        &self.shader
    }
}

/// A material keeps its shader.
///
/// Whatever is registered after a material was made, under whichever name:
/// the materials that are registered stay the same, each with the shader it
/// was made with, also where another shader has taken the place of that
/// shader in the registry.
pub proof fn material_keeps_shader(
    before: RenderView,
    name: Seq<char>,
    later: crate::rendersystem::registry::ThingHolder<Shader>,
    material: Seq<char>,
)
    requires
        before.materials.contains_key(material),
    ensures
        ({
            let after = RenderView { shaders: before.shaders.insert(name, later), ..before };
            &&& after.materials.contains_key(material)
            &&& after.materials[material] == before.materials[material]
            &&& after.materials[material]@.shader == before.materials[material]@.shader
        }),
{
}

} // verus!
