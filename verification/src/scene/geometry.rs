//! Mesh descriptors: what a mesh is built from and which passes draw it.

use vstd::prelude::*;
use crate::scene::primitives::PrimitiveType;
use crate::scene::shaders::{ComputeShader, ComputeShaderView, RenderShader, RenderShaderView};

verus! {

/// Where the geometry of a mesh comes from.
#[derive(Debug)]
pub enum GeometrySource {
    Primitive(PrimitiveType),
    ComputeShader(ComputeShader),
}

/// The mathematical value of a [`GeometrySource`].
pub enum GeometrySourceView {
    Primitive(PrimitiveType),
    ComputeShader(ComputeShaderView),
}

impl View for GeometrySource {
    type V = GeometrySourceView;

    open spec fn view(&self) -> GeometrySourceView {
        match *self {
            GeometrySource::Primitive(primitive) => GeometrySourceView::Primitive(primitive),
            GeometrySource::ComputeShader(shader) => GeometrySourceView::ComputeShader(shader@),
        }
    }
}

impl Clone for GeometrySource {
    fn clone(&self) -> (copy: Self)
        ensures
            copy@ == self@,
    {
        match self {
            GeometrySource::Primitive(primitive) => GeometrySource::Primitive(*primitive),
            GeometrySource::ComputeShader(shader) => GeometrySource::ComputeShader(shader.clone()),
        }
    }
}

/// The values of a list of render shaders, in order.
pub open spec fn shader_views(shaders: Seq<RenderShader>) -> Seq<RenderShaderView> {
    Seq::new(shaders.len(), |i: int| shaders[i]@)
}

/// Copies a list of render shaders, keeping their order.
pub fn clone_shaders(shaders: &Vec<RenderShader>) -> (copy: Vec<RenderShader>)
    ensures
        shader_views(copy@) == shader_views(shaders@),
{
    let mut copy: Vec<RenderShader> = Vec::new();
    let mut i: usize = 0;
    while i < shaders.len()
        invariant
            i <= shaders.len(),
            copy.len() == i,
            forall|k: int| 0 <= k < i ==> copy[k]@ == shaders[k]@,
        decreases shaders.len() - i,
    {
        copy.push(shaders[i].clone());
        i += 1;
    }
    assert(shader_views(copy@) =~= shader_views(shaders@));
    copy
}

/// A mesh of a scene: its name, its geometry and its render passes. The
/// order of `render_shaders` is the order in which the passes are drawn.
#[derive(Debug)]
pub struct MeshDescriptor {
    pub name: String,
    pub geometry_source: GeometrySource,
    pub render_shaders: Vec<RenderShader>,
}

/// The mathematical value of a [`MeshDescriptor`].
pub struct MeshDescriptorView {
    pub name: Seq<char>,
    pub geometry_source: GeometrySourceView,
    pub render_shaders: Seq<RenderShaderView>,
}

impl View for MeshDescriptor {
    type V = MeshDescriptorView;

    open spec fn view(&self) -> MeshDescriptorView {
        MeshDescriptorView {
            name: self.name@,
            geometry_source: self.geometry_source@,
            render_shaders: shader_views(self.render_shaders@),
        }
    }
}

impl Clone for MeshDescriptor {
    fn clone(&self) -> (copy: Self)
        ensures
            copy@ == self@,
    {
        MeshDescriptor {
            name: self.name.clone(),
            geometry_source: self.geometry_source.clone(),
            render_shaders: clone_shaders(&self.render_shaders),
        }
    }
}

impl Default for MeshDescriptor {
    fn default() -> (descriptor: Self)
        ensures
            descriptor.name@ == "Default Mesh"@,
            descriptor.geometry_source@ == GeometrySourceView::Primitive(PrimitiveType::Quad),
            descriptor.render_shaders.len() == 2,
            descriptor.render_shaders[0].path@ == "../shaders/default_shader.wgsl"@,
            descriptor.render_shaders[0].name@ == "Default Render Shader"@,
            descriptor.render_shaders[0].blending == crate::scene::shaders::RenderShaderBlending::Replace,
            descriptor.render_shaders[1].path@ == "../shaders/default_shader_second_pass.wgsl"@,
            descriptor.render_shaders[1].name@ == "Default Render Shader 2nd pass"@,
            descriptor.render_shaders[1].blending
                == crate::scene::shaders::RenderShaderBlending::AlphaBlending,
    {
        let mut render_shaders: Vec<RenderShader> = Vec::new();
        render_shaders.push(RenderShader::default());
        render_shaders.push(RenderShader::default_second_pass());
        MeshDescriptor {
            name: "Default Mesh".to_owned(),
            geometry_source: GeometrySource::Primitive(PrimitiveType::Quad),
            render_shaders,
        }
    }
}

} // verus!
