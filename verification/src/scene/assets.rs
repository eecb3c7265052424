//! Texture assets that a scene may bind.

use vstd::prelude::*;

verus! {

/// An image file that is sampled by the shaders of a scene.
#[derive(Debug)]
pub struct TextureAsset {
    pub path: String,
}

impl View for TextureAsset {
    type V = Seq<char>;

    open spec fn view(&self) -> Seq<char> {
        self.path@
    }
}

impl Clone for TextureAsset {
    fn clone(&self) -> (copy: Self)
        ensures
            copy@ == self@,
    {
        TextureAsset { path: self.path.clone() }
    }
}

/// The mathematical value of an optional texture slot: the path of the
/// asset, if the slot is filled.
pub open spec fn slot_view(slot: Option<TextureAsset>) -> Option<Seq<char>> {
    match slot {
        Some(asset) => Some(asset@),
        None => None,
    }
}

/// The five texture slots of a scene.
#[derive(Debug)]
pub struct SceneTextures {
    pub texture_1: Option<TextureAsset>,
    pub texture_2: Option<TextureAsset>,
    pub texture_3: Option<TextureAsset>,
    pub texture_4: Option<TextureAsset>,
    pub texture_5: Option<TextureAsset>,
}

impl View for SceneTextures {
    type V = Seq<Option<Seq<char>>>;

    open spec fn view(&self) -> Seq<Option<Seq<char>>> {
        seq![
            slot_view(self.texture_1),
            slot_view(self.texture_2),
            slot_view(self.texture_3),
            slot_view(self.texture_4),
            slot_view(self.texture_5),
        ]
    }
}

fn clone_slot(slot: &Option<TextureAsset>) -> (copy: Option<TextureAsset>)
    ensures
        slot_view(copy) == slot_view(*slot),
{
    match slot {
        Some(asset) => Some(asset.clone()),
        None => None,
    }
}

impl Clone for SceneTextures {
    fn clone(&self) -> (copy: Self)
        ensures
            copy@ == self@,
    {
        SceneTextures {
            texture_1: clone_slot(&self.texture_1),
            texture_2: clone_slot(&self.texture_2),
            texture_3: clone_slot(&self.texture_3),
            texture_4: clone_slot(&self.texture_4),
            texture_5: clone_slot(&self.texture_5),
        }
    }
}

impl Default for SceneTextures {
    fn default() -> (textures: Self)
        ensures
            textures@ == Seq::new(5, |i: int| None::<Seq<char>>),
    {
        let textures = SceneTextures {
            texture_1: None,
            texture_2: None,
            texture_3: None,
            texture_4: None,
            texture_5: None,
        };
        assert(textures@ =~= Seq::new(5, |i: int| None::<Seq<char>>));
        textures
    }
}

} // verus!
