//! Frame composition planning for an audio-reactive renderer: the binding
//! model of shader resources, the render-history ring, per-pass pipeline
//! slots of meshes and the routing of shader reloads.

pub mod binding;
pub mod configuration;
pub mod device;
pub mod events;
pub mod gpu;
pub mod gui;
pub mod mesh;
pub mod plugins;
pub mod presentation;
pub mod renderer;
pub mod resources;
pub mod rpc;
pub mod scene;
pub mod shader_file;
pub mod spawner;
pub mod stream;
pub mod text;
pub mod validation;
