//! Textures: handles to GPU-allocated images and their sizes.
use std::sync::Arc;
use vstd::prelude::*;

use crate::swappable_cache::AsCached;

verus! {

/// What the library reads of a GPU texture object: its name on the GPU and its size in pixels.
#[derive(Clone, Copy, Debug, PartialEq, Eq, Structural)]
pub struct TextureHandle {
    pub texture: u32,
    pub width: u32,
    pub height: u32,
}

/// A handle to a GPU-allocated texture.
#[derive(Debug)]
pub struct Texture {
    pub handle: TextureHandle,
}

impl Texture {
    /// Wraps a GPU texture.
    pub fn from_inner(handle: TextureHandle) -> (t: Self)
        ensures
            t.handle == handle,
    {
        Self { handle }
    }

    /// The width of the texture in pixels.
    pub fn width(&self) -> (w: u32)
        ensures
            w == self.handle.width,
    {
        self.handle.width
    }

    /// The height of the texture in pixels.
    pub fn height(&self) -> (h: u32)
        ensures
            h == self.handle.height,
    {
        self.handle.height
    }
}

/// A texture shared between several owners.
#[derive(Clone, Debug)]
pub struct SharedTexture {
    pub shared: Arc<Texture>,
}

impl AsCached<Texture> for SharedTexture {
    /// The shared texture.
    fn as_cached(&mut self) -> (cached: &Texture)
        ensures
            *cached == *old(self).shared,
    {
        &self.shared
    }
}

} // verus!
