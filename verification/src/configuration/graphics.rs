//! Graphics settings.

use vstd::prelude::*;

verus! {

/// Presentation and backend preferences.
#[derive(Clone, Copy, Debug, PartialEq, Eq, Structural)]
pub struct GraphicsConfiguration {
    pub enable_vsync: bool,
    pub prefer_legacy_backends: bool,
}

impl Default for GraphicsConfiguration {
    fn default() -> (configuration: Self)
        ensures
            !configuration.enable_vsync,
            !configuration.prefer_legacy_backends,
    {
        GraphicsConfiguration { enable_vsync: false, prefer_legacy_backends: false }
    }
}

} // verus!
