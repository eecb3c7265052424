//! The settings of the application and where they are kept.

use vstd::prelude::*;
use crate::configuration::audio::AudioConfiguration;
use crate::configuration::graphics::GraphicsConfiguration;
use crate::configuration::library::LibraryConfiguration;
use crate::configuration::network::NetworkConfiguration;
use crate::text::{join_path, spec_join_path};

pub mod audio;
pub mod graphics;
pub mod library;
pub mod network;

verus! {

/// Something that can say what the settings are.
pub trait CubensisConfigurationSource {
    fn get_configuration(&self) -> Configuration;
}

/// All settings.
#[derive(Debug)]
pub struct Configuration {
    pub audio: AudioConfiguration,
    pub graphics: GraphicsConfiguration,
    pub network: NetworkConfiguration,
    pub library: LibraryConfiguration,
}

/// The mathematical value of a [`Configuration`].
pub struct ConfigurationView {
    pub audio: AudioConfiguration,
    pub graphics: GraphicsConfiguration,
    pub network: NetworkConfiguration,
    pub default_scene_name: Seq<char>,
}

impl View for Configuration {
    type V = ConfigurationView;

    open spec fn view(&self) -> ConfigurationView {
        ConfigurationView {
            audio: self.audio,
            graphics: self.graphics,
            network: self.network,
            default_scene_name: self.library.default_scene_name@,
        }
    }
}

/// The settings of a fresh installation.
pub open spec fn spec_default_configuration() -> ConfigurationView {
    ConfigurationView {
        audio: AudioConfiguration { buffer_size: 4096 },
        graphics: GraphicsConfiguration { enable_vsync: false, prefer_legacy_backends: false },
        network: NetworkConfiguration { port: 3751 },
        default_scene_name: "Default Scene"@,
    }
}

impl Clone for Configuration {
    fn clone(&self) -> (copy: Self)
        ensures
            copy@ == self@,
    {
        Configuration {
            audio: self.audio,
            graphics: self.graphics,
            network: self.network,
            library: self.library.clone(),
        }
    }
}

impl Default for Configuration {
    fn default() -> (configuration: Self)
        ensures
            configuration@ == spec_default_configuration(),
    {
        Configuration {
            audio: AudioConfiguration::default(),
            graphics: GraphicsConfiguration::default(),
            network: NetworkConfiguration::default(),
            library: LibraryConfiguration::default(),
        }
    }
}

/// What has to be written before the settings can be loaded.
#[derive(Clone, Copy, Debug, PartialEq, Eq, Structural)]
pub struct SetupPlan {
    /// Make the configuration directory.
    pub create_directory: bool,
    /// Write the default settings to the configuration file.
    pub write_default_configuration: bool,
    /// Make the scene library and write the default scene into it.
    pub create_library: bool,
}

/// The value of an optional directory.
pub open spec fn directory_view(directory: Option<String>) -> Option<Seq<char>> {
    match directory {
        Some(path) => Some(path@),
        None => None,
    }
}

impl Configuration {
    /// The directory of the settings: `.cubensis` in the home directory,
    /// or in the platform's configuration directory where there is no home
    /// directory. There is none where the platform names no configuration
    /// directory.
    pub fn config_directory(home_dir: Option<String>, config_dir: Option<String>) -> (directory:
        Option<String>)
        ensures
            directory_view(directory) == match directory_view(config_dir) {
                None => None,
                Some(fallback) => Some(
                    spec_join_path(
                        match directory_view(home_dir) {
                            Some(home) => home,
                            None => fallback,
                        },
                        ".cubensis"@,
                    ),
                ),
            },
    {
        match config_dir {
            None => None,
            Some(fallback) => {
                let base = match home_dir {
                    Some(home) => home,
                    None => fallback,
                };
                Some(join_path(base.as_str(), ".cubensis"))
            },
        }
    }

    /// The file of the settings in the directory of the settings.
    pub fn config_path(config_directory: &str) -> (path: String)
        ensures
            path@ == spec_join_path(config_directory@, "config.json"@),
    {
        join_path(config_directory, "config.json")
    }

    /// What is missing of directory, settings file and scene library is to
    /// be made; what is there stays.
    pub fn create_if_missing(directory_exists: bool, file_exists: bool, library_exists: bool) -> (plan:
        SetupPlan)
        ensures
            plan.create_directory == !directory_exists,
            plan.write_default_configuration == !file_exists,
            plan.create_library == !library_exists,
    {
        SetupPlan {
            create_directory: !directory_exists,
            write_default_configuration: !file_exists,
            create_library: !library_exists,
        }
    }

    /// The settings read from the file, or the default settings where the
    /// file could not be read or understood.
    pub fn load(stored: Option<Configuration>) -> (configuration: Self)
        ensures
            configuration@ == match stored {
                Some(read) => read@,
                None => spec_default_configuration(),
            },
    {
        match stored {
            Some(read) => read,
            None => Configuration::default(),
        }
    }
}

} // verus!
