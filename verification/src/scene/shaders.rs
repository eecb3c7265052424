//! Shader descriptors of a scene: where the source lives and how its output
//! is blended into the render target.

use vstd::prelude::*;

verus! {

/// How the output of a render pass is combined with what the target holds.
#[derive(Clone, Copy, Debug, PartialEq, Eq, Structural)]
pub enum RenderShaderBlending {
    /// The pass writes without a blend state.
    NoBlending,
    Replace,
    AlphaBlending,
}

/// One render pass of a mesh: a shader source file, a display name and a
/// blend mode.
#[derive(Debug)]
pub struct RenderShader {
    pub path: String,
    pub name: String,
    pub blending: RenderShaderBlending,
}

/// The mathematical value of a [`RenderShader`].
pub struct RenderShaderView {
    pub path: Seq<char>,
    pub name: Seq<char>,
    pub blending: RenderShaderBlending,
}

impl View for RenderShader {
    type V = RenderShaderView;

    open spec fn view(&self) -> RenderShaderView {
        RenderShaderView { path: self.path@, name: self.name@, blending: self.blending }
    }
}

impl Clone for RenderShader {
    fn clone(&self) -> (copy: Self)
        ensures
            copy@ == self@,
    {
        RenderShader {
            path: self.path.clone(),
            name: self.name.clone(),
            blending: self.blending,
        }
    }
}

impl Default for RenderShader {
    fn default() -> (shader: Self)
        ensures
            shader.path@ == "../shaders/default_shader.wgsl"@,
            shader.name@ == "Default Render Shader"@,
            shader.blending == RenderShaderBlending::Replace,
    {
        RenderShader {
            path: "../shaders/default_shader.wgsl".to_owned(),
            name: "Default Render Shader".to_owned(),
            blending: RenderShaderBlending::Replace,
        }
    }
}

impl RenderShader {
    /// The blend mode of this pass.
    pub fn get_blend_mode(&self) -> (mode: RenderShaderBlending)
        ensures
            mode == self.blending,
    {
        self.blending
    }

    /// The pass that a default mesh draws second, alpha-blended over the first.
    pub fn default_second_pass() -> (shader: Self)
        ensures
            shader.path@ == "../shaders/default_shader_second_pass.wgsl"@,
            shader.name@ == "Default Render Shader 2nd pass"@,
            shader.blending == RenderShaderBlending::AlphaBlending,
    {
        RenderShader {
            path: "../shaders/default_shader_second_pass.wgsl".to_owned(),
            name: "Default Render Shader 2nd pass".to_owned(),
            blending: RenderShaderBlending::AlphaBlending,
        }
    }
}

/// A compute shader that could generate geometry.
#[derive(Debug)]
pub struct ComputeShader {
    pub path: String,
    pub name: String,
}

/// The mathematical value of a [`ComputeShader`].
pub struct ComputeShaderView {
    pub path: Seq<char>,
    pub name: Seq<char>,
}

impl View for ComputeShader {
    type V = ComputeShaderView;

    open spec fn view(&self) -> ComputeShaderView {
        ComputeShaderView { path: self.path@, name: self.name@ }
    }
}

impl Clone for ComputeShader {
    fn clone(&self) -> (copy: Self)
        ensures
            copy@ == self@,
    {
        ComputeShader { path: self.path.clone(), name: self.name.clone() }
    }
}

} // verus!
