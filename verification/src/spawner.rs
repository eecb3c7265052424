//! From a scene to its meshes, and from a changed file to the pass that
//! must be compiled anew.

use vstd::prelude::*;
use crate::mesh::{
    Mesh,
    MeshError,
    MeshErrorView,
    compiled_view,
    compiled_views,
    lemma_first_match,
    outcome_view,
    spec_first_match,
    spec_rebuild,
};
use crate::scene::Scene;
use crate::scene::shaders::RenderShaderView;
use crate::text::same_text;
use crate::validation::ShaderError;

verus! {

/// The outcome of building mesh `i` of a scene from the compilations of
/// its passes.
pub open spec fn spec_assembled<P>(
    scene: Scene,
    compiled: Seq<Vec<Result<P, ShaderError>>>,
    i: int,
) -> Result<Seq<P>, MeshErrorView> {
    Mesh::<P>::spec_assemble(scene.meshes[i]@, compiled_views(compiled[i]@))
}

/// Builds the meshes of a scene, in order; `compiled` holds for each mesh
/// the compiled pipelines of its passes. The first mesh that cannot be
/// built fails the whole.
pub fn create_meshes<P>(scene: &Scene, compiled: Vec<Vec<Result<P, ShaderError>>>) -> (meshes:
    Result<Vec<Mesh<P>>, MeshError>)
    ensures
        match meshes {
            Ok(meshes) => {
                &&& compiled.len() == scene.meshes.len()
                &&& meshes.len() == scene.meshes.len()
                &&& forall|i: int|
                    0 <= i < meshes.len() ==> {
                        &&& (#[trigger] meshes[i]).wf()
                        &&& meshes[i].descriptor() == scene.meshes[i]@
                        &&& spec_assembled(*scene, compiled@, i) == Ok::<Seq<P>, MeshErrorView>(
                            meshes[i].pipelines(),
                        )
                    }
            },
            Err(error) => {
                ||| compiled.len() != scene.meshes.len() && error@
                    == MeshErrorView::PassCountMismatch
                ||| compiled.len() == scene.meshes.len() && exists|i: int|
                    {
                        &&& 0 <= i < compiled.len()
                        &&& #[trigger] spec_assembled(*scene, compiled@, i) == Err::<
                            Seq<P>,
                            MeshErrorView,
                        >(error@)
                        &&& forall|j: int|
                            0 <= j < i ==> (#[trigger] spec_assembled(*scene, compiled@, j)) is Ok
                    }
            },
        },
{
    if compiled.len() != scene.meshes.len() {
        return Err(MeshError::PassCountMismatch);
    }
    let ghost all = compiled@;
    let total = compiled.len();
    let mut rest = compiled;
    let mut meshes: Vec<Mesh<P>> = Vec::new();
    let mut i: usize = 0;
    while i < total
        invariant
            i <= total,
            all == compiled@,
            total == all.len(),
            total == scene.meshes.len(),
            rest.len() == total - i,
            forall|k: int| 0 <= k < rest.len() ==> rest[k] == all[k + i],
            meshes.len() == i,
            forall|k: int|
                0 <= k < i ==> {
                    &&& (#[trigger] meshes[k]).wf()
                    &&& meshes[k].descriptor() == scene.meshes[k]@
                    &&& spec_assembled(*scene, all, k) == Ok::<Seq<P>, MeshErrorView>(
                        meshes[k].pipelines(),
                    )
                },
        decreases total - i,
    {
        let passes = rest.remove(0);
        assert(passes == all[i as int]);
        match Mesh::new(scene.meshes[i].clone(), passes) {
            Ok(mesh) => {
                meshes.push(mesh);
            },
            Err(error) => {
                assert(spec_assembled(*scene, all, i as int) == Err::<Seq<P>, MeshErrorView>(
                    error@,
                ));
                assert forall|j: int| 0 <= j < i implies (#[trigger] spec_assembled(
                    *scene,
                    all,
                    j,
                )) is Ok by {
                    assert(meshes[j].wf());
                }
                return Err(error);
            },
        }
        i += 1;
    }
    Ok(meshes)
}

/// The pass of a mesh that a changed file belongs to.
#[derive(Clone, Copy, Debug, PartialEq, Eq, Structural)]
pub struct ReloadTarget {
    /// The index of the mesh.
    pub mesh: usize,
    /// The index of the pass in the mesh.
    pub shader: usize,
}

/// The path that a pass is known by when files change: for a relative
/// source path the canonical path that it resolves to, for an absolute one
/// the source path as it is written.
pub open spec fn spec_reference_path(path: Seq<char>, canonical: Option<Seq<char>>) -> Seq<char> {
    match canonical {
        Some(resolved) => resolved,
        None => path,
    }
}

/// The value of an optional path.
pub open spec fn canonical_view(canonical: Option<String>) -> Option<Seq<char>> {
    match canonical {
        Some(path) => Some(path@),
        None => None,
    }
}

/// The reference paths of the passes of a mesh. A pass without an entry in
/// `canonical` is known by its source path.
pub open spec fn spec_reference_paths(
    shaders: Seq<RenderShaderView>,
    canonical: Seq<Option<String>>,
) -> Seq<Seq<char>> {
    Seq::new(
        shaders.len(),
        |i: int|
            if i < canonical.len() {
                spec_reference_path(shaders[i].path, canonical_view(canonical[i]))
            } else {
                shaders[i].path
            },
    )
}

/// The first pass of mesh `mesh` that is known by `changed`, if there is
/// one. A mesh without an entry in `canonical_paths` is matched by the
/// source paths of its passes.
pub open spec fn spec_mesh_match<P>(
    meshes: Seq<Mesh<P>>,
    canonical_paths: Seq<Vec<Option<String>>>,
    changed: Seq<char>,
    mesh: int,
) -> Option<int> {
    spec_first_match(
        spec_reference_paths(
            meshes[mesh].descriptor().render_shaders,
            if mesh < canonical_paths.len() {
                canonical_paths[mesh]@
            } else {
                Seq::empty()
            },
        ),
        changed,
    )
}

/// The pass that must be compiled anew when the file `changed` has
/// changed, as the index of its mesh and its own index in the mesh: the
/// first matching pass of the first mesh that has one, among the first
/// `count` meshes.
pub open spec fn spec_reload_target<P>(
    meshes: Seq<Mesh<P>>,
    canonical_paths: Seq<Vec<Option<String>>>,
    changed: Seq<char>,
    count: nat,
) -> Option<(int, int)>
    decreases count,
{
    if count == 0 {
        None
    } else {
        match spec_reload_target(meshes, canonical_paths, changed, (count - 1) as nat) {
            Some(target) => Some(target),
            None => match spec_mesh_match(meshes, canonical_paths, changed, count - 1) {
                Some(shader) => Some((count - 1, shader)),
                None => None,
            },
        }
    }
}

/// Where no pass of the first `count` meshes is known by `changed`, there
/// is no target; a target names a pass that is known by `changed`, in the
/// first mesh that has such a pass.
pub proof fn lemma_reload_target<P>(
    meshes: Seq<Mesh<P>>,
    canonical_paths: Seq<Vec<Option<String>>>,
    changed: Seq<char>,
    count: nat,
)
    requires
        count <= meshes.len(),
    ensures
        match spec_reload_target(meshes, canonical_paths, changed, count) {
            Some(target) => {
                &&& 0 <= target.0 < count
                &&& 0 <= target.1 < meshes[target.0].descriptor().render_shaders.len()
                &&& spec_mesh_match(meshes, canonical_paths, changed, target.0) == Some(target.1)
                &&& forall|m: int|
                    0 <= m < target.0 ==> (#[trigger] spec_mesh_match(
                        meshes,
                        canonical_paths,
                        changed,
                        m,
                    )) is None
            },
            None => forall|m: int|
                0 <= m < count ==> (#[trigger] spec_mesh_match(meshes, canonical_paths, changed, m))
                    is None,
        },
    decreases count,
{
    if count > 0 {
        lemma_reload_target(meshes, canonical_paths, changed, (count - 1) as nat);
        let last = count - 1;
        lemma_first_match(
            spec_reference_paths(
                meshes[last].descriptor().render_shaders,
                if last < canonical_paths.len() {
                    canonical_paths[last]@
                } else {
                    Seq::empty()
                },
            ),
            changed,
        );
    }
}

/// The reference path of a pass.
fn reference_path<'a>(path: &'a String, canonical: &'a Vec<Option<String>>, i: usize) -> (reference:
    &'a str)
    ensures
        reference@ == if i < canonical.len() {
            spec_reference_path(path@, canonical_view(canonical[i as int]))
        } else {
            path@
        },
{
    if i < canonical.len() {
        match &canonical[i] {
            Some(resolved) => resolved.as_str(),
            None => path.as_str(),
        }
    } else {
        path.as_str()
    }
}

fn mesh_match<P>(mesh: &Mesh<P>, canonical: &Vec<Option<String>>, changed: &str) -> (found: Option<
    usize,
>)
    ensures
        match found {
            Some(shader) => spec_first_match(
                spec_reference_paths(mesh.descriptor().render_shaders, canonical@),
                changed@,
            ) == Some(shader as int),
            None => spec_first_match(
                spec_reference_paths(mesh.descriptor().render_shaders, canonical@),
                changed@,
            ) is None,
        },
{
    let shaders = &mesh.get_mesh_descriptor().render_shaders;
    let ghost paths = spec_reference_paths(mesh.descriptor().render_shaders, canonical@);
    let mut found: Option<usize> = None;
    let mut i: usize = 0;
    while i < shaders.len()
        invariant
            i <= shaders.len(),
            crate::scene::geometry::shader_views(shaders@) == mesh.descriptor().render_shaders,
            paths == spec_reference_paths(mesh.descriptor().render_shaders, canonical@),
            paths.len() == shaders.len(),
            match found {
                Some(shader) => spec_first_match(paths.subrange(0, i as int), changed@) == Some(
                    shader as int,
                ),
                None => spec_first_match(paths.subrange(0, i as int), changed@) is None,
            },
        decreases shaders.len() - i,
    {
        proof {
            assert(paths.subrange(0, i + 1).drop_last() =~= paths.subrange(0, i as int));
            assert(paths.subrange(0, i + 1).last() == paths[i as int]);
            assert(mesh.descriptor().render_shaders[i as int] == shaders[i as int]@);
        }
        if found.is_none() && same_text(reference_path(&shaders[i].path, canonical, i), changed) {
            found = Some(i);
        }
        i += 1;
    }
    assert(paths.subrange(0, i as int) =~= paths);
    found
}

/// Finds the pass that must be compiled anew when the file at the
/// canonical path `changed` has changed. `canonical_paths` holds, for each
/// pass of each mesh, the canonical path that a relative source path
/// resolves to, and nothing for an absolute one. A file that no mesh reads
/// has no target.
pub fn try_hot_reload<P>(
    meshes: &Vec<Mesh<P>>,
    canonical_paths: &Vec<Vec<Option<String>>>,
    changed: &str,
) -> (target: Option<ReloadTarget>)
    ensures
        match target {
            Some(target) => spec_reload_target(
                meshes@,
                canonical_paths@,
                changed@,
                meshes.len() as nat,
            ) == Some((target.mesh as int, target.shader as int)) && target.valid_for(meshes@),
            None => spec_reload_target(meshes@, canonical_paths@, changed@, meshes.len() as nat)
                is None,
        },
{
    let empty: Vec<Option<String>> = Vec::new();
    let mut target: Option<ReloadTarget> = None;
    let mut m: usize = 0;
    while m < meshes.len()
        invariant
            m <= meshes.len(),
            empty@ == Seq::<Option<String>>::empty(),
            match target {
                Some(target) => spec_reload_target(meshes@, canonical_paths@, changed@, m as nat)
                    == Some((target.mesh as int, target.shader as int)),
                None => spec_reload_target(meshes@, canonical_paths@, changed@, m as nat) is None,
            },
        decreases meshes.len() - m,
    {
        if target.is_none() {
            let canonical = if m < canonical_paths.len() {
                &canonical_paths[m]
            } else {
                &empty
            };
            match mesh_match(&meshes[m], canonical, changed) {
                Some(shader) => {
                    target = Some(ReloadTarget { mesh: m, shader });
                },
                None => {},
            }
        }
        m += 1;
    }
    proof {
        lemma_reload_target(meshes@, canonical_paths@, changed@, meshes.len() as nat);
    }
    target
}

impl ReloadTarget {
    /// The target names a pass of a mesh of `meshes`.
    pub open spec fn valid_for<P>(&self, meshes: Seq<Mesh<P>>) -> bool {
        self.mesh < meshes.len() && self.shader < meshes[self.mesh as int].descriptor().render_shaders.len()
    }

    /// Whether the target names a pass of a mesh of `meshes`.
    pub fn is_valid_for<P>(&self, meshes: &Vec<Mesh<P>>) -> (valid: bool)
        ensures
            valid == self.valid_for(meshes@),
    {
        self.mesh < meshes.len() && self.shader
            < meshes[self.mesh].get_mesh_descriptor().render_shaders.len()
    }
}

/// Rebuilds the mesh of `target` for the shader of the target's pass,
/// given the outcome of compiling that shader anew. No other mesh changes.
pub fn apply_hot_reload<P>(
    meshes: &mut Vec<Mesh<P>>,
    target: ReloadTarget,
    compiled: Result<P, ShaderError>,
) -> (outcome: Result<(), MeshError>)
    requires
        target.valid_for(old(meshes)@),
        old(meshes)[target.mesh as int].wf(),
    ensures
        final(meshes).len() == old(meshes).len(),
        forall|m: int|
            0 <= m < old(meshes).len() && m != target.mesh ==> final(meshes)[m] == old(meshes)[m],
        final(meshes)[target.mesh as int].wf(),
        (final(meshes)[target.mesh as int].view(), outcome_view(outcome)) == spec_rebuild(
            old(meshes)[target.mesh as int].view(),
            old(meshes)[target.mesh as int].descriptor().render_shaders[target.shader as int],
            compiled_view(compiled),
        ),
{
    let shader = meshes[target.mesh].get_mesh_descriptor().render_shaders[target.shader].clone();
    assert(shader@ == old(meshes)[target.mesh as int].descriptor().render_shaders[target.shader as int]);
    meshes[target.mesh].rebuild(shader, compiled)
}

} // verus!
