//! Built-in geometry.

use vstd::prelude::*;

verus! {

/// A fixed primitive that a mesh can be built from.
#[derive(Clone, Copy, Debug, PartialEq, Eq, Structural)]
pub enum PrimitiveType {
    /// Two triangles that cover the whole clip-space square.
    Quad,
}

} // verus!
