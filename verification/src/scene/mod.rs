//! Scenes: named lists of mesh descriptors.

use vstd::prelude::*;
use crate::scene::assets::SceneTextures;
use crate::scene::geometry::{MeshDescriptor, MeshDescriptorView};

pub mod assets;
pub mod geometry;
pub mod primitives;
pub mod shaders;

verus! {

/// The values of a list of mesh descriptors, in order.
pub open spec fn descriptor_views(meshes: Seq<MeshDescriptor>) -> Seq<MeshDescriptorView> {
    Seq::new(meshes.len(), |i: int| meshes[i]@)
}

/// Copies a list of mesh descriptors, keeping their order.
pub fn clone_descriptors(meshes: &Vec<MeshDescriptor>) -> (copy: Vec<MeshDescriptor>)
    ensures
        descriptor_views(copy@) == descriptor_views(meshes@),
{
    let mut copy: Vec<MeshDescriptor> = Vec::new();
    let mut i: usize = 0;
    while i < meshes.len()
        invariant
            i <= meshes.len(),
            copy.len() == i,
            forall|k: int| 0 <= k < i ==> copy[k]@ == meshes[k]@,
        decreases meshes.len() - i,
    {
        copy.push(meshes[i].clone());
        i += 1;
    }
    assert(descriptor_views(copy@) =~= descriptor_views(meshes@));
    copy
}

/// A named collection of meshes and the textures that they sample.
#[derive(Debug)]
pub struct Scene {
    pub name: String,
    pub meshes: Vec<MeshDescriptor>,
    pub textures: SceneTextures,
}

/// The mathematical value of a [`Scene`].
pub struct SceneView {
    pub name: Seq<char>,
    pub meshes: Seq<MeshDescriptorView>,
    pub textures: Seq<Option<Seq<char>>>,
}

impl View for Scene {
    type V = SceneView;

    open spec fn view(&self) -> SceneView {
        SceneView {
            name: self.name@,
            meshes: descriptor_views(self.meshes@),
            textures: self.textures@,
        }
    }
}

impl Clone for Scene {
    fn clone(&self) -> (copy: Self)
        ensures
            copy@ == self@,
    {
        Scene {
            name: self.name.clone(),
            meshes: clone_descriptors(&self.meshes),
            textures: self.textures.clone(),
        }
    }
}

impl Default for Scene {
    fn default() -> (scene: Self)
        ensures
            scene.name@ == "Default Scene"@,
            scene.meshes.len() == 1,
            scene.meshes[0].name@ == "Default Mesh"@,
            scene.meshes[0].render_shaders.len() == 2,
            scene.textures@ == Seq::new(5, |i: int| None::<Seq<char>>),
    {
        let mut meshes: Vec<MeshDescriptor> = Vec::new();
        meshes.push(MeshDescriptor::default());
        Scene { name: "Default Scene".to_owned(), meshes, textures: SceneTextures::default() }
    }
}

} // verus!
