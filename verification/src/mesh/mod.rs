//! Meshes: geometry and one pipeline slot for each render pass.

use vstd::prelude::*;
use crate::gpu::{
    BlendState, CompareFunction, DepthStencil, TextureFormat, blend_alpha, blend_replace,
    spec_blend_alpha, spec_blend_replace,
};
use crate::mesh::buffers::MeshBuffers;
use crate::scene::geometry::{MeshDescriptor, MeshDescriptorView, shader_views};
use crate::scene::shaders::{RenderShader, RenderShaderBlending, RenderShaderView};
use crate::text::same_text;
use crate::validation::{ShaderError, ShaderErrorView};

pub mod buffers;
pub mod draw;
pub mod pipeline;

verus! {

impl RenderShaderBlending {
    /// The blend state of the mode, as a value.
    pub open spec fn spec_blend_state(self) -> Option<BlendState> {
        match self {
            RenderShaderBlending::NoBlending => None,
            RenderShaderBlending::Replace => Some(spec_blend_replace()),
            RenderShaderBlending::AlphaBlending => Some(spec_blend_alpha()),
        }
    }

    /// The blend state of the mode: none, overwrite, or standard alpha.
    pub fn into_blend_state_option(self) -> (state: Option<BlendState>)
        ensures
            state == self.spec_blend_state(),
    {
        match self {
            RenderShaderBlending::NoBlending => None,
            RenderShaderBlending::Replace => Some(blend_replace()),
            RenderShaderBlending::AlphaBlending => Some(blend_alpha()),
        }
    }
}

/// The three modes map to three different outcomes.
pub proof fn lemma_blend_mapping_is_injective(a: RenderShaderBlending, b: RenderShaderBlending)
    ensures
        a.spec_blend_state() == b.spec_blend_state() <==> a == b,
{
}

/// Why a mesh could not be built or changed.
#[derive(Debug)]
pub enum MeshError {
    /// No pass of the mesh reads its shader from this path.
    NotFound(String),
    /// The shader of a pass was turned down.
    Compile(ShaderError),
    /// There is not one pipeline for each pass.
    PassCountMismatch,
}

/// The mathematical value of a [`MeshError`].
pub enum MeshErrorView {
    NotFound(Seq<char>),
    Compile(ShaderErrorView),
    PassCountMismatch,
}

impl View for MeshError {
    type V = MeshErrorView;

    open spec fn view(&self) -> MeshErrorView {
        match *self {
            MeshError::NotFound(path) => MeshErrorView::NotFound(path@),
            MeshError::Compile(error) => MeshErrorView::Compile(error@),
            MeshError::PassCountMismatch => MeshErrorView::PassCountMismatch,
        }
    }
}

/// The source paths of a list of passes, in order.
pub open spec fn shader_paths(shaders: Seq<RenderShaderView>) -> Seq<Seq<char>> {
    Seq::new(shaders.len(), |i: int| shaders[i].path)
}

/// The first slot whose path is `path`, if there is one.
pub open spec fn spec_first_match(paths: Seq<Seq<char>>, path: Seq<char>) -> Option<int>
    decreases paths.len(),
{
    if paths.len() == 0 {
        None
    } else {
        match spec_first_match(paths.drop_last(), path) {
            Some(slot) => Some(slot),
            None => if paths.last() == path {
                Some(paths.len() - 1)
            } else {
                None
            },
        }
    }
}

/// [`spec_first_match`] finds a slot exactly where some slot holds `path`,
/// and the slot it finds holds `path` and is the first that does.
pub proof fn lemma_first_match(paths: Seq<Seq<char>>, path: Seq<char>)
    ensures
        match spec_first_match(paths, path) {
            Some(slot) => {
                &&& 0 <= slot < paths.len()
                &&& paths[slot] == path
                &&& forall|j: int| 0 <= j < slot ==> paths[j] != path
            },
            None => forall|j: int| 0 <= j < paths.len() ==> paths[j] != path,
        },
    decreases paths.len(),
{
    if paths.len() > 0 {
        lemma_first_match(paths.drop_last(), path);
        assert(forall|j: int| 0 <= j < paths.len() - 1 ==> paths.drop_last()[j] == paths[j]);
    }
}

/// The mathematical value of a mesh: its pipelines and its descriptor.
pub struct MeshView<P> {
    pub pipelines: Seq<P>,
    pub descriptor: MeshDescriptorView,
}

/// The value of the outcome of a compilation.
pub open spec fn compiled_view<P>(compiled: Result<P, ShaderError>) -> Result<P, ShaderErrorView> {
    match compiled {
        Ok(pipeline) => Ok(pipeline),
        Err(error) => Err(error@),
    }
}

/// The values of the outcomes of a list of compilations.
pub open spec fn compiled_views<P>(compiled: Seq<Result<P, ShaderError>>) -> Seq<
    Result<P, ShaderErrorView>,
> {
    Seq::new(compiled.len(), |i: int| compiled_view(compiled[i]))
}

/// The value of a result without payload.
pub open spec fn outcome_view(outcome: Result<(), MeshError>) -> Result<(), MeshErrorView> {
    match outcome {
        Ok(_) => Ok(()),
        Err(error) => Err(error@),
    }
}

/// What a rebuild does to a mesh, and what it returns: with no pass at the
/// path of `updated` the mesh stays and the path is reported as not found;
/// with a failed compilation the mesh stays and the failure is reported;
/// else descriptor and pipeline of the first pass at that path are
/// replaced, and no other.
pub open spec fn spec_rebuild<P>(
    mesh: MeshView<P>,
    updated: RenderShaderView,
    compiled: Result<P, ShaderErrorView>,
) -> (MeshView<P>, Result<(), MeshErrorView>) {
    match spec_first_match(shader_paths(mesh.descriptor.render_shaders), updated.path) {
        None => (mesh, Err(MeshErrorView::NotFound(updated.path))),
        Some(slot) => match compiled {
            Err(error) => (mesh, Err(MeshErrorView::Compile(error))),
            Ok(pipeline) => (
                MeshView {
                    pipelines: mesh.pipelines.update(slot, pipeline),
                    descriptor: MeshDescriptorView {
                        render_shaders: mesh.descriptor.render_shaders.update(slot, updated),
                        ..mesh.descriptor
                    },
                },
                Ok(()),
            ),
        },
    }
}

/// The first compilation that failed, if one did.
pub open spec fn spec_first_failure<P>(compiled: Seq<Result<P, ShaderErrorView>>) -> Option<
    ShaderErrorView,
>
    decreases compiled.len(),
{
    if compiled.len() == 0 {
        None
    } else {
        match spec_first_failure(compiled.drop_last()) {
            Some(error) => Some(error),
            None => match compiled.last() {
                Ok(_) => None,
                Err(error) => Some(error),
            },
        }
    }
}

/// The pipelines of a list of compilations, in order, where none failed.
pub open spec fn spec_pipelines<P>(compiled: Seq<Result<P, ShaderErrorView>>) -> Seq<P> {
    Seq::new(compiled.len(), |i: int| compiled[i]->Ok_0)
}

/// What a list of compilations comes to: the first failure, or else all
/// the pipelines.
pub open spec fn spec_collect<P>(compiled: Seq<Result<P, ShaderErrorView>>) -> Result<
    Seq<P>,
    ShaderErrorView,
> {
    match spec_first_failure(compiled) {
        Some(error) => Err(error),
        None => Ok(spec_pipelines(compiled)),
    }
}

/// No compilation failed exactly where every one succeeded.
pub proof fn lemma_first_failure<P>(compiled: Seq<Result<P, ShaderErrorView>>)
    ensures
        spec_first_failure(compiled) is None <==> forall|i: int|
            0 <= i < compiled.len() ==> compiled[i] is Ok,
    decreases compiled.len(),
{
    if compiled.len() > 0 {
        lemma_first_failure(compiled.drop_last());
        assert(forall|j: int|
            0 <= j < compiled.len() - 1 ==> compiled.drop_last()[j] == compiled[j]);
        if spec_first_failure(compiled) is None {
            assert forall|i: int| 0 <= i < compiled.len() implies compiled[i] is Ok by {
                if i < compiled.len() - 1 {
                    assert(compiled.drop_last()[i] is Ok);
                }
            }
        }
    }
}

/// Sorts the outcomes of a list of compilations: all the pipelines in
/// order, or the first failure.
pub fn collect_pipelines<P>(compiled: Vec<Result<P, ShaderError>>) -> (collected: Result<
    Vec<P>,
    ShaderError,
>)
    ensures
        match collected {
            Ok(pipelines) => spec_collect(compiled_views(compiled@)) == Ok::<
                Seq<P>,
                ShaderErrorView,
            >(pipelines@),
            Err(error) => spec_collect(compiled_views(compiled@)) == Err::<Seq<P>, ShaderErrorView>(
                error@,
            ),
        },
{
    let ghost all = compiled_views(compiled@);
    let mut rest = compiled;
    let mut pipelines: Vec<P> = Vec::new();
    let mut failure: Option<ShaderError> = None;
    let mut i: usize = 0;
    let total = rest.len();
    while i < total
        invariant
            i <= total,
            total == all.len(),
            rest.len() == total - i,
            compiled_views(rest@) == all.subrange(i as int, total as int),
            match failure {
                Some(error) => spec_first_failure(all.subrange(0, i as int)) == Some(error@),
                None => spec_first_failure(all.subrange(0, i as int)) is None && pipelines@
                    == spec_pipelines(all.subrange(0, i as int)),
            },
        decreases total - i,
    {
        let ghost before = rest@;
        let outcome = rest.remove(0);
        proof {
            assert(compiled_view(outcome) == compiled_views(before)[0]);
            assert(compiled_view(outcome) == all[i as int]);
            assert(all.subrange(0, i + 1).drop_last() =~= all.subrange(0, i as int));
            assert(all.subrange(0, i + 1).last() == all[i as int]);
            assert(compiled_views(rest@) =~= all.subrange(i + 1, total as int)) by {
                assert forall|k: int| 0 <= k < rest@.len() implies compiled_views(rest@)[k]
                    == all.subrange(i + 1, total as int)[k] by {
                    assert(rest@[k] == before[k + 1]);
                    assert(compiled_views(before)[k + 1] == all.subrange(i as int, total as int)[k
                        + 1]);
                }
            }
        }
        match outcome {
            Ok(pipeline) => {
                if failure.is_none() {
                    pipelines.push(pipeline);
                    assert(pipelines@ =~= spec_pipelines(all.subrange(0, i + 1)));
                }
            },
            Err(error) => {
                if failure.is_none() {
                    failure = Some(error);
                }
            },
        }
        i += 1;
    }
    assert(all.subrange(0, total as int) =~= all);
    match failure {
        Some(error) => Err(error),
        None => Ok(pipelines),
    }
}

/// The depth test of a mesh pipeline: nearer fragments win and are written.
pub open spec fn spec_mesh_depth() -> DepthStencil {
    DepthStencil {
        format: TextureFormat::Depth32Float,
        depth_write_enabled: true,
        depth_compare: CompareFunction::Less,
    }
}

/// A mesh: its buffers, and for each render pass of its descriptor the
/// pipeline that draws it, in the same order. `P` is what the caller keeps
/// for a compiled pipeline.
#[derive(Debug)]
pub struct Mesh<P> {
    buffers: MeshBuffers,
    render_pipelines: Vec<P>,
    mesh_descriptor: MeshDescriptor,
}

impl<P> Mesh<P> {
    /// The pipelines of the mesh, by pass.
    pub closed spec fn pipelines(&self) -> Seq<P> {
        self.render_pipelines@
    }

    /// The descriptor of the mesh.
    pub closed spec fn descriptor(&self) -> MeshDescriptorView {
        self.mesh_descriptor@
    }

    /// What the buffers of the mesh hold.
    pub closed spec fn buffers(&self) -> MeshBuffers {
        self.buffers
    }

    /// The number of indices that one draw of the mesh takes.
    pub open spec fn index_count(&self) -> u32 {
        self.buffers().index_count
    }

    /// There is one pipeline for each pass.
    pub open spec fn wf(&self) -> bool {
        self.pipelines().len() == self.descriptor().render_shaders.len()
    }

    /// Pipelines and descriptor as one value.
    pub open spec fn view(&self) -> MeshView<P> {
        MeshView { pipelines: self.pipelines(), descriptor: self.descriptor() }
    }

    /// What building a mesh comes to: without one compilation for each
    /// pass, a mismatch; with a failure among them, the first failure; else
    /// the pipelines of the mesh.
    pub open spec fn spec_assemble(
        descriptor: MeshDescriptorView,
        compiled: Seq<Result<P, ShaderErrorView>>,
    ) -> Result<Seq<P>, MeshErrorView> {
        if compiled.len() != descriptor.render_shaders.len() {
            Err(MeshErrorView::PassCountMismatch)
        } else {
            match spec_collect(compiled) {
                Ok(pipelines) => Ok(pipelines),
                Err(error) => Err(MeshErrorView::Compile(error)),
            }
        }
    }

    /// A mesh of the given descriptor, with the compiled pipeline of each
    /// of its passes. One failed compilation fails the mesh.
    pub fn new(mesh_descriptor: MeshDescriptor, compiled: Vec<Result<P, ShaderError>>) -> (mesh:
        Result<Self, MeshError>)
        ensures
            match mesh {
                Ok(mesh) => {
                    &&& mesh.wf()
                    &&& mesh.descriptor() == mesh_descriptor@
                    &&& mesh.index_count() == 6
                    &&& mesh.buffers().vertices@ == crate::mesh::buffers::spec_quad_vertices()
                    &&& mesh.buffers().indices@ == crate::mesh::buffers::spec_quad_indices()
                    &&& mesh.buffers().indirect.vertex_count == 6
                    &&& mesh.buffers().indirect.instance_count == 1
                    &&& Self::spec_assemble(mesh_descriptor@, compiled_views(compiled@)) == Ok::<
                        Seq<P>,
                        MeshErrorView,
                    >(mesh.pipelines())
                },
                Err(error) => Self::spec_assemble(mesh_descriptor@, compiled_views(compiled@))
                    == Err::<Seq<P>, MeshErrorView>(error@),
            },
    {
        if compiled.len() != mesh_descriptor.render_shaders.len() {
            return Err(MeshError::PassCountMismatch);
        }
        let buffers = MeshBuffers::new(&mesh_descriptor.geometry_source);
        match collect_pipelines(compiled) {
            Ok(render_pipelines) => Ok(Mesh { buffers, render_pipelines, mesh_descriptor }),
            Err(error) => Err(MeshError::Compile(error)),
        }
    }

    pub fn get_mesh_descriptor(&self) -> (descriptor: &MeshDescriptor)
        ensures
            descriptor@ == self.descriptor(),
    {
        &self.mesh_descriptor
    }

    pub fn get_render_pipelines(&self) -> (pipelines: &Vec<P>)
        ensures
            pipelines@ == self.pipelines(),
    {
        &self.render_pipelines
    }

    pub fn get_buffers(&self) -> (buffers: &MeshBuffers)
        ensures
            *buffers == self.buffers(),
    {
        &self.buffers
    }

    /// Takes the pipelines of a full recompilation, one for each pass. With
    /// a mismatch or a failure the mesh stays as it is.
    pub fn resize(&mut self, compiled: Vec<Result<P, ShaderError>>) -> (outcome: Result<
        (),
        MeshError,
    >)
        requires
            old(self).wf(),
        ensures
            final(self).wf(),
            final(self).descriptor() == old(self).descriptor(),
            final(self).buffers() == old(self).buffers(),
            match outcome {
                Ok(_) => Self::spec_assemble(old(self).descriptor(), compiled_views(compiled@))
                    == Ok::<Seq<P>, MeshErrorView>(final(self).pipelines()),
                Err(error) => {
                    &&& Self::spec_assemble(old(self).descriptor(), compiled_views(compiled@))
                        == Err::<Seq<P>, MeshErrorView>(error@)
                    &&& final(self).pipelines() == old(self).pipelines()
                },
            },
    {
        if compiled.len() != self.mesh_descriptor.render_shaders.len() {
            return Err(MeshError::PassCountMismatch);
        }
        match collect_pipelines(compiled) {
            Ok(render_pipelines) => {
                self.render_pipelines = render_pipelines;
                Ok(())
            },
            Err(error) => Err(MeshError::Compile(error)),
        }
    }

    /// The first pass that reads its shader from `path`, if there is one.
    pub fn find_shader(&self, path: &str) -> (slot: Option<usize>)
        ensures
            match slot {
                Some(slot) => spec_first_match(
                    shader_paths(self.descriptor().render_shaders),
                    path@,
                ) == Some(slot as int),
                None => spec_first_match(shader_paths(self.descriptor().render_shaders), path@)
                    is None,
            },
    {
        let ghost paths = shader_paths(self.descriptor().render_shaders);
        let mut found: Option<usize> = None;
        let mut i: usize = 0;
        while i < self.mesh_descriptor.render_shaders.len()
            invariant
                i <= self.mesh_descriptor.render_shaders.len(),
                paths == shader_paths(self.descriptor().render_shaders),
                paths.len() == self.mesh_descriptor.render_shaders.len(),
                match found {
                    Some(slot) => spec_first_match(paths.subrange(0, i as int), path@) == Some(
                        slot as int,
                    ),
                    None => spec_first_match(paths.subrange(0, i as int), path@) is None,
                },
            decreases self.mesh_descriptor.render_shaders.len() - i,
        {
            proof {
                assert(paths.subrange(0, i + 1).drop_last() =~= paths.subrange(0, i as int));
                assert(paths.subrange(0, i + 1).last() == paths[i as int]);
                assert(paths[i as int] == self.mesh_descriptor.render_shaders[i as int].path@);
            }
            if found.is_none() && same_text(
                self.mesh_descriptor.render_shaders[i].path.as_str(),
                path,
            ) {
                found = Some(i);
            }
            i += 1;
        }
        assert(paths.subrange(0, i as int) =~= paths);
        found
    }

    /// Replaces the pass that reads its shader from the path of
    /// `updated_shader`, given the outcome of compiling that shader anew.
    /// Descriptor and pipeline of the pass change together or not at all.
    pub fn rebuild(
        &mut self,
        updated_shader: RenderShader,
        compiled: Result<P, ShaderError>,
    ) -> (outcome: Result<(), MeshError>)
        requires
            old(self).wf(),
        ensures
            final(self).wf(),
            final(self).buffers() == old(self).buffers(),
            (final(self).view(), outcome_view(outcome)) == spec_rebuild(
                old(self).view(),
                updated_shader@,
                compiled_view(compiled),
            ),
    {
        let slot = match self.find_shader(updated_shader.path.as_str()) {
            Some(slot) => slot,
            None => {
                return Err(MeshError::NotFound(updated_shader.path));
            },
        };
        proof {
            lemma_first_match(shader_paths(self.descriptor().render_shaders), updated_shader.path@);
        }
        match compiled {
            Ok(new_pipeline) => {
                let ghost before = self.mesh_descriptor.render_shaders@;
                self.mesh_descriptor.render_shaders[slot] = updated_shader;
                self.render_pipelines[slot] = new_pipeline;
                assert(shader_views(self.mesh_descriptor.render_shaders@) =~= shader_views(
                    before,
                ).update(slot as int, updated_shader@));
                Ok(())
            },
            Err(error) => Err(MeshError::Compile(error)),
        }
    }
}

/// A rebuild for a path that no pass of the mesh reads leaves pipelines and
/// descriptor as they were and reports the path as not found, whatever the
/// compilation came to.
pub proof fn lemma_rebuild_unknown_path<P>(
    mesh: MeshView<P>,
    updated: RenderShaderView,
    compiled: Result<P, ShaderErrorView>,
)
    requires
        forall|i: int|
            0 <= i < mesh.descriptor.render_shaders.len()
                ==> mesh.descriptor.render_shaders[i].path != updated.path,
    ensures
        spec_rebuild(mesh, updated, compiled) == (
            mesh,
            Err::<(), MeshErrorView>(MeshErrorView::NotFound(updated.path)),
        ),
{
    lemma_first_match(shader_paths(mesh.descriptor.render_shaders), updated.path);
}

/// A rebuild whose compilation failed leaves the mesh as it was and
/// reports the failure. A later rebuild for the same path whose
/// compilation succeeded then puts the new descriptor and the new pipeline
/// into the first pass of that path, and changes no other pass.
pub proof fn lemma_rebuild_failure_then_success<P>(
    mesh: MeshView<P>,
    slot: int,
    broken: RenderShaderView,
    error: ShaderErrorView,
    fixed: RenderShaderView,
    pipeline: P,
)
    requires
        mesh.pipelines.len() == mesh.descriptor.render_shaders.len(),
        0 <= slot < mesh.descriptor.render_shaders.len(),
        mesh.descriptor.render_shaders[slot].path == broken.path,
        forall|j: int| 0 <= j < slot ==> mesh.descriptor.render_shaders[j].path != broken.path,
        fixed.path == broken.path,
    ensures
        ({
            let failed = spec_rebuild(mesh, broken, Err(error));
            let mended = spec_rebuild(failed.0, fixed, Ok(pipeline));
            &&& failed.0 == mesh
            &&& failed.1 == Err::<(), MeshErrorView>(MeshErrorView::Compile(error))
            &&& mended.1 is Ok
            &&& mended.0.pipelines == mesh.pipelines.update(slot, pipeline)
            &&& mended.0.descriptor.render_shaders == mesh.descriptor.render_shaders.update(
                slot,
                fixed,
            )
            &&& mended.0.descriptor.render_shaders[slot] == fixed
            &&& mended.0.pipelines[slot] == pipeline
            &&& mended.0.descriptor.name == mesh.descriptor.name
            &&& mended.0.descriptor.geometry_source == mesh.descriptor.geometry_source
        }),
{
    let paths = shader_paths(mesh.descriptor.render_shaders);
    lemma_first_match(paths, broken.path);
    assert(paths[slot] == broken.path);
    assert(forall|j: int| 0 <= j < slot ==> paths[j] != broken.path);
    assert(spec_first_match(paths, broken.path) == Some(slot));
}

/// A rebuild keeps one pipeline for each pass.
pub proof fn lemma_rebuild_keeps_lockstep<P>(
    mesh: MeshView<P>,
    updated: RenderShaderView,
    compiled: Result<P, ShaderErrorView>,
)
    requires
        mesh.pipelines.len() == mesh.descriptor.render_shaders.len(),
    ensures
        spec_rebuild(mesh, updated, compiled).0.pipelines.len() == mesh.pipelines.len(),
        spec_rebuild(mesh, updated, compiled).0.descriptor.render_shaders.len()
            == mesh.descriptor.render_shaders.len(),
{
    lemma_first_match(shader_paths(mesh.descriptor.render_shaders), updated.path);
}

} // verus!
