//! Audio settings.

use vstd::prelude::*;

verus! {

/// How many samples the analysis window holds.
#[derive(Clone, Copy, Debug, PartialEq, Eq, Structural)]
pub struct AudioConfiguration {
    pub buffer_size: usize,
}

impl AudioConfiguration {
    pub fn get_buffer_size(&self) -> (size: usize)
        ensures
            size == self.buffer_size,
    {
        self.buffer_size
    }
}

impl Default for AudioConfiguration {
    fn default() -> (configuration: Self)
        ensures
            configuration.buffer_size == 4096,
    {
        AudioConfiguration { buffer_size: 4096 }
    }
}

} // verus!
