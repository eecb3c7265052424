//! The scene library: the scenes found on disk and the one that is shown.

use vstd::prelude::*;
use crate::scene::Scene;
use crate::text::{join_path, same_text, spec_join_path};

verus! {

/// Which scene is shown at startup.
#[derive(Debug)]
pub struct LibraryConfiguration {
    pub default_scene_name: String,
}

impl Clone for LibraryConfiguration {
    fn clone(&self) -> (copy: Self)
        ensures
            copy.default_scene_name@ == self.default_scene_name@,
    {
        LibraryConfiguration { default_scene_name: self.default_scene_name.clone() }
    }
}

impl Default for LibraryConfiguration {
    fn default() -> (configuration: Self)
        ensures
            configuration.default_scene_name@ == "Default Scene"@,
    {
        LibraryConfiguration { default_scene_name: "Default Scene".to_owned() }
    }
}

/// The names of a list of scenes, in order.
pub open spec fn scene_names(scenes: Seq<Scene>) -> Seq<Seq<char>> {
    Seq::new(scenes.len(), |i: int| scenes[i].name@)
}

/// The first scene called `name`, if there is one.
pub open spec fn spec_find_scene(names: Seq<Seq<char>>, name: Seq<char>) -> Option<int>
    decreases names.len(),
{
    if names.len() == 0 {
        None
    } else {
        match spec_find_scene(names.drop_last(), name) {
            Some(found) => Some(found),
            None => if names.last() == name {
                Some(names.len() - 1)
            } else {
                None
            },
        }
    }
}

/// [`spec_find_scene`] finds a scene exactly where one is called `name`,
/// and the one it finds is the first of that name.
pub proof fn lemma_find_scene(names: Seq<Seq<char>>, name: Seq<char>)
    ensures
        match spec_find_scene(names, name) {
            Some(found) => {
                &&& 0 <= found < names.len()
                &&& names[found] == name
                &&& forall|j: int| 0 <= j < found ==> names[j] != name
            },
            None => forall|j: int| 0 <= j < names.len() ==> names[j] != name,
        },
    decreases names.len(),
{
    if names.len() > 0 {
        lemma_find_scene(names.drop_last(), name);
        assert(forall|j: int| 0 <= j < names.len() - 1 ==> names.drop_last()[j] == names[j]);
    }
}

fn find_scene(scenes: &Vec<Scene>, name: &str) -> (found: Option<usize>)
    ensures
        match found {
            Some(found) => spec_find_scene(scene_names(scenes@), name@) == Some(found as int),
            None => spec_find_scene(scene_names(scenes@), name@) is None,
        },
{
    let ghost names = scene_names(scenes@);
    let mut found: Option<usize> = None;
    let mut i: usize = 0;
    while i < scenes.len()
        invariant
            i <= scenes.len(),
            names == scene_names(scenes@),
            match found {
                Some(found) => spec_find_scene(names.subrange(0, i as int), name@) == Some(
                    found as int,
                ),
                None => spec_find_scene(names.subrange(0, i as int), name@) is None,
            },
        decreases scenes.len() - i,
    {
        proof {
            assert(names.subrange(0, i + 1).drop_last() =~= names.subrange(0, i as int));
            assert(names.subrange(0, i + 1).last() == names[i as int]);
        }
        if found.is_none() && same_text(scenes[i].name.as_str(), name) {
            found = Some(i);
        }
        i += 1;
    }
    assert(names.subrange(0, i as int) =~= names);
    found
}

/// The position of the last dot of a file name, if it has one.
pub open spec fn spec_last_dot(name: Seq<char>) -> Option<int>
    decreases name.len(),
{
    if name.len() == 0 {
        None
    } else if name.last() == '.' {
        Some(name.len() - 1)
    } else {
        spec_last_dot(name.drop_last())
    }
}

/// The extension of a file name: what follows its last dot, where that dot
/// is not the first character of the name.
pub open spec fn spec_extension(name: Seq<char>) -> Option<Seq<char>> {
    match spec_last_dot(name) {
        Some(dot) => if dot > 0 {
            Some(name.subrange(dot + 1, name.len() as int))
        } else {
            None
        },
        None => None,
    }
}

/// Whether a file of this name holds a scene: its extension is
/// `cubensis-scene`.
pub fn is_scene_file(file_name: &str) -> (scene: bool)
    ensures
        scene == (spec_extension(file_name@) == Some("cubensis-scene"@)),
{
    let name = crate::text::characters(file_name);
    let extension = crate::text::characters("cubensis-scene");
    let mut last_dot: Option<usize> = None;
    let mut i: usize = 0;
    while i < name.len()
        invariant
            i <= name.len(),
            match last_dot {
                Some(dot) => spec_last_dot(name@.subrange(0, i as int)) == Some(dot as int) && dot
                    < i,
                None => spec_last_dot(name@.subrange(0, i as int)) is None,
            },
        decreases name.len() - i,
    {
        proof {
            assert(name@.subrange(0, i + 1).drop_last() =~= name@.subrange(0, i as int));
            assert(name@.subrange(0, i + 1).last() == name[i as int]);
        }
        if name[i] == '.' {
            last_dot = Some(i);
        }
        i += 1;
    }
    assert(name@.subrange(0, i as int) =~= name@);
    let dot = match last_dot {
        Some(dot) => dot,
        None => {
            return false;
        },
    };
    if dot == 0 {
        return false;
    }
    let start = dot + 1;
    let ghost found = name@.subrange(start as int, name.len() as int);
    if name.len() - start != extension.len() {
        assert(found.len() != extension@.len());
        return false;
    }
    let mut k: usize = 0;
    while k < extension.len()
        invariant
            k <= extension.len(),
            start + extension.len() == name.len(),
            name@ == file_name@,
            extension@ == "cubensis-scene"@,
            spec_extension(name@) == Some(found),
            found == name@.subrange(start as int, name.len() as int),
            forall|j: int| 0 <= j < k ==> name[start + j] == extension[j],
        decreases extension.len() - k,
    {
        if name[start + k] != extension[k] {
            assert(found[k as int] == name[start + k]);
            return false;
        }
        k += 1;
    }
    assert(found =~= extension@);
    true
}

impl LibraryConfiguration {
    /// Where the scenes lie: the directory `scenes` in the configuration
    /// directory.
    pub fn scene_library_path(config_directory: &str) -> (path: String)
        ensures
            path@ == spec_join_path(config_directory@, "scenes"@),
    {
        join_path(config_directory, "scenes")
    }

    /// The name of the scene file that is written into a new library.
    pub fn default_scene_path(config_directory: &str) -> (path: String)
        ensures
            path@ == spec_join_path(
                spec_join_path(config_directory@, "scenes"@),
                "default_scene.cubensis-scene"@,
            ),
    {
        let library = Self::scene_library_path(config_directory);
        join_path(library.as_str(), "default_scene.cubensis-scene")
    }

    /// The library of the scenes found, showing the configured scene where
    /// it is among them. There is no library without a scene.
    pub fn build_library(&self, scenes: Vec<Scene>) -> (library: Option<Library>)
        ensures
            library is Some <==> scenes.len() > 0,
            library is Some ==> library->0.wf() && library->0.scenes() == scenes@
                && library->0.current_name() == Library::spec_current_name(
                self.default_scene_name@,
                scenes@,
            ),
    {
        Library::new(self.default_scene_name.clone(), scenes)
    }
}

/// The scenes found on disk, in the order in which they were found, and
/// the name of the one that is shown.
#[derive(Debug)]
pub struct Library {
    current_scene_name: String,
    current_scene_index: usize,
    scenes: Vec<Scene>,
}

impl Library {
    /// The scenes of the library.
    pub closed spec fn scenes(&self) -> Seq<Scene> {
        self.scenes@
    }

    /// The name of the scene that is shown.
    pub closed spec fn current_name(&self) -> Seq<char> {
        self.current_scene_name@
    }

    /// Some scene of the library has the current name, and the library
    /// knows the first of them.
    pub closed spec fn wf(&self) -> bool {
        spec_find_scene(scene_names(self.scenes@), self.current_scene_name@) == Some(
            self.current_scene_index as int,
        )
    }

    /// In a consistent library some scene has the current name.
    pub proof fn lemma_current_scene_exists(&self)
        requires
            self.wf(),
        ensures
            spec_find_scene(scene_names(self.scenes()), self.current_name()) is Some,
    {
    }

    /// The name that a library of `scenes` shows when `wanted` is asked
    /// for: `wanted` where a scene has that name, else the name of the
    /// first scene.
    pub open spec fn spec_current_name(wanted: Seq<char>, scenes: Seq<Scene>) -> Seq<char> {
        if spec_find_scene(scene_names(scenes), wanted) is Some {
            wanted
        } else {
            scenes[0].name@
        }
    }

    /// A library of the given scenes that shows the scene called
    /// `current_scene_name`, or the first scene where none has that name.
    /// There is no library without a scene.
    pub fn new(current_scene_name: String, scenes: Vec<Scene>) -> (library: Option<Self>)
        ensures
            library is Some <==> scenes.len() > 0,
            library is Some ==> library->0.wf() && library->0.scenes() == scenes@
                && library->0.current_name() == Self::spec_current_name(
                current_scene_name@,
                scenes@,
            ),
    {
        if scenes.len() == 0 {
            return None;
        }
        match find_scene(&scenes, current_scene_name.as_str()) {
            Some(found) => Some(
                Library { current_scene_name, current_scene_index: found, scenes },
            ),
            None => {
                proof {
                    let names = scene_names(scenes@);
                    lemma_find_scene(names, names[0]);
                }
                Some(
                    Library {
                        current_scene_name: scenes[0].name.clone(),
                        current_scene_index: 0,
                        scenes,
                    },
                )
            },
        }
    }

    /// A copy of the scene that is shown: the first of the current name.
    pub fn current_scene(&self) -> (scene: Scene)
        requires
            self.wf(),
        ensures
            spec_find_scene(scene_names(self.scenes()), self.current_name()) is Some,
            scene@ == self.scenes()[spec_find_scene(
                scene_names(self.scenes()),
                self.current_name(),
            )->0]@,
            scene.name@ == self.current_name(),
    {
        proof {
            lemma_find_scene(scene_names(self.scenes()), self.current_name());
        }
        self.scenes[self.current_scene_index].clone()
    }

    /// The name of the scene that is shown.
    pub fn current_scene_name(&self) -> (name: &String)
        ensures
            name@ == self.current_name(),
    {
        &self.current_scene_name
    }

    /// The scenes of the library.
    pub fn get_scenes(&self) -> (scenes: &Vec<Scene>)
        ensures
            scenes@ == self.scenes(),
    {
        &self.scenes
    }
}

} // verus!
