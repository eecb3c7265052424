//! The pipelines of a mesh, as descriptors: one for each render pass.

use vstd::prelude::*;
use crate::binding::{LayoutEntry, copy_layout, copy_layouts, layout_views};
use crate::gpu::{CompareFunction, DepthStencil, PipelineDescriptor, ShaderSource, TextureFormat};
use crate::mesh::spec_mesh_depth;
use crate::scene::geometry::MeshDescriptor;
use crate::scene::shaders::{RenderShader, RenderShaderView};
use crate::validation::{
    CubensisValidatedShader, ShaderError, ShaderErrorView, clone_outcome, fault_view,
};

verus! {

/// Whether `pipeline` is the pipeline of the pass `shader` with the source
/// text `source`: it binds the given groups and then the history group,
/// draws to the surface format with the blend state of the pass, and tests
/// and writes depth.
pub open spec fn is_pipeline_of(
    pipeline: PipelineDescriptor,
    shader: RenderShaderView,
    source: Seq<char>,
    bind_group_layouts: Seq<Seq<LayoutEntry>>,
    history_bind_group_layout: Seq<LayoutEntry>,
) -> bool {
    &&& pipeline.label@ == "Render Pipeline"@
    &&& layout_views(pipeline.bind_group_layouts@) == bind_group_layouts.push(
        history_bind_group_layout,
    )
    &&& pipeline.source is Wgsl
    &&& pipeline.source->Wgsl_0@ == source
    &&& pipeline.format == TextureFormat::Surface
    &&& pipeline.blend == shader.blending.spec_blend_state()
    &&& pipeline.depth_stencil == Some(spec_mesh_depth())
}

/// The pipeline of a pass whose source has passed validation.
pub fn pipeline_for(
    render_shader: &RenderShader,
    validated_source: String,
    bind_group_layouts: &Vec<Vec<LayoutEntry>>,
    history_bind_group_layout: &Vec<LayoutEntry>,
) -> (pipeline: PipelineDescriptor)
    ensures
        is_pipeline_of(
            pipeline,
            render_shader@,
            validated_source@,
            layout_views(bind_group_layouts@),
            history_bind_group_layout@,
        ),
{
    let mut layouts = copy_layouts(bind_group_layouts);
    let ghost copied = layouts@;
    layouts.push(copy_layout(history_bind_group_layout));
    assert(layout_views(layouts@) =~= layout_views(copied).push(history_bind_group_layout@));
    PipelineDescriptor {
        label: "Render Pipeline".to_owned(),
        bind_group_layouts: layouts,
        source: ShaderSource::Wgsl(validated_source),
        format: TextureFormat::Surface,
        blend: render_shader.get_blend_mode().into_blend_state_option(),
        depth_stencil: Some(
            DepthStencil {
                format: TextureFormat::Depth32Float,
                depth_write_enabled: true,
                depth_compare: CompareFunction::Less,
            },
        ),
    }
}

/// Whether `outcome` is what compiling the pass `shader` from `source`
/// comes to when the check of the source found `fault`: the error of the
/// check where there is one, else the pipeline of the pass.
pub open spec fn is_compilation_of(
    outcome: Result<PipelineDescriptor, ShaderError>,
    shader: RenderShaderView,
    source: Seq<char>,
    fault: Option<ShaderErrorView>,
    bind_group_layouts: Seq<Seq<LayoutEntry>>,
    history_bind_group_layout: Seq<LayoutEntry>,
) -> bool {
    match outcome {
        Ok(pipeline) => fault is None && is_pipeline_of(
            pipeline,
            shader,
            source,
            bind_group_layouts,
            history_bind_group_layout,
        ),
        Err(error) => fault == Some(error@),
    }
}

/// Describes the pipeline of a pass whose source has been checked;
/// `checked` is the outcome of that check. Source that failed its check is
/// turned down here and never reaches the device.
pub fn create_render_pipeline(
    render_shader: &RenderShader,
    source: String,
    checked: Result<(), ShaderError>,
    bind_group_layouts: &Vec<Vec<LayoutEntry>>,
    history_bind_group_layout: &Vec<LayoutEntry>,
) -> (outcome: Result<PipelineDescriptor, ShaderError>)
    ensures
        is_compilation_of(
            outcome,
            render_shader@,
            source@,
            fault_view(checked),
            layout_views(bind_group_layouts@),
            history_bind_group_layout@,
        ),
{
    match source.validated(checked) {
        Ok(validated_source) => Ok(
            pipeline_for(
                render_shader,
                validated_source,
                bind_group_layouts,
                history_bind_group_layout,
            ),
        ),
        Err(error) => Err(error),
    }
}

/// Compiles every pass of a mesh, in order; `sources` holds the source
/// text of each pass and `checks` the outcome of its check. There is no
/// result where there is not one text and one outcome for each pass.
pub fn create_render_pipelines(
    mesh_descriptor: &MeshDescriptor,
    sources: &Vec<String>,
    checks: &Vec<Result<(), ShaderError>>,
    bind_group_layouts: &Vec<Vec<LayoutEntry>>,
    history_bind_group_layout: &Vec<LayoutEntry>,
) -> (outcomes: Option<Vec<Result<PipelineDescriptor, ShaderError>>>)
    ensures
        outcomes is Some <==> sources.len() == mesh_descriptor.render_shaders.len()
            && checks.len() == mesh_descriptor.render_shaders.len(),
        outcomes is Some ==> {
            &&& outcomes->0.len() == sources.len()
            &&& forall|i: int|
                0 <= i < sources.len() ==> is_compilation_of(
                    #[trigger] outcomes->0[i],
                    mesh_descriptor.render_shaders[i]@,
                    sources[i]@,
                    fault_view(checks[i]),
                    layout_views(bind_group_layouts@),
                    history_bind_group_layout@,
                )
        },
{
    if sources.len() != mesh_descriptor.render_shaders.len() || checks.len()
        != mesh_descriptor.render_shaders.len() {
        return None;
    }
    let mut outcomes: Vec<Result<PipelineDescriptor, ShaderError>> = Vec::new();
    let mut i: usize = 0;
    while i < sources.len()
        invariant
            i <= sources.len(),
            sources.len() == mesh_descriptor.render_shaders.len(),
            checks.len() == mesh_descriptor.render_shaders.len(),
            outcomes.len() == i,
            forall|k: int|
                0 <= k < i ==> is_compilation_of(
                    #[trigger] outcomes[k],
                    mesh_descriptor.render_shaders[k]@,
                    sources[k]@,
                    fault_view(checks[k]),
                    layout_views(bind_group_layouts@),
                    history_bind_group_layout@,
                ),
        decreases sources.len() - i,
    {
        let outcome = create_render_pipeline(
            &mesh_descriptor.render_shaders[i],
            sources[i].clone(),
            clone_outcome(&checks[i]),
            bind_group_layouts,
            history_bind_group_layout,
        );
        outcomes.push(outcome);
        i += 1;
    }
    Some(outcomes)
}

} // verus!
