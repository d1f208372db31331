//! Values that scripts hand to the mesh builder.
use std::sync::Arc;
use vstd::prelude::*;

verus! {

/// A shared list of vertex indices.
#[derive(Clone, Debug)]
pub struct IndexBuffer(pub Arc<Vec<u16>>);

/// Whether a shape is drawn filled or as its outline.
#[derive(Clone, Copy, Debug, PartialEq, Eq, Structural)]
pub enum LuaDrawMode {
    Fill,
    Line,
}

} // verus!
