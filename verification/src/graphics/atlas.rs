//! Texture atlases: areas of one texture addressed by index.
use vstd::prelude::*;

verus! {

/// An index of a subtexture in an atlas.
#[derive(Clone, Copy, Debug, PartialEq, Eq, Structural, PartialOrd, Ord, Hash)]
pub struct SubTextureId(usize);

impl SubTextureId {
    /// The subtexture at position `index` in its atlas.
    pub fn new(index: usize) -> (id: Self)
        ensures
            id.index() == index,
    {
        SubTextureId(index)
    }

    /// The position of the subtexture in its atlas.
    pub closed spec fn index(self) -> usize {
        self.0
    }

    /// The position of the subtexture in its atlas.
    pub fn get(&self) -> (index: usize)
        ensures
            index == self.index(),
    {
        self.0
    }
}

/// A texture atlas: a texture and the slices of it (areas of the texture with what it takes to
/// draw them), addressed by the order in which they were inserted.
#[derive(Clone, Debug)]
pub struct Atlas<Texture, Slice> {
    texture: Texture,
    slices: Vec<Slice>,
}

impl<Texture, Slice> Atlas<Texture, Slice> {
    /// The texture the slices are areas of.
    pub closed spec fn texture_view(&self) -> Texture {
        self.texture
    }

    /// The slices, in the order they were inserted.
    pub closed spec fn slices_view(&self) -> Seq<Slice> {
        self.slices@
    }

    /// An atlas of the given texture, with no slices yet.
    pub fn new(texture: Texture) -> (atlas: Self)
        ensures
            atlas.texture_view() == texture,
            atlas.slices_view() == Seq::<Slice>::empty(),
    {
        Atlas { texture, slices: Vec::new() }
    }

    /// Inserts a slice and returns its ID: the number of slices before it.
    pub fn insert(&mut self, slice: Slice) -> (id: SubTextureId)
        ensures
            id.index() == old(self).slices_view().len(),
            final(self).slices_view() == old(self).slices_view().push(slice),
            final(self).texture_view() == old(self).texture_view(),
    {
        let id = self.slices.len();
        self.slices.push(slice);
        SubTextureId(id)
    }

    /// The slice with the given ID. There must be one.
    pub fn slice(&self, id: SubTextureId) -> (slice: &Slice)
        requires
            id.index() < self.slices_view().len(),
        ensures
            *slice == self.slices_view()[id.index() as int],
    {
        &self.slices[id.0]
    }

    /// The texture the slices are areas of.
    pub fn texture(&self) -> (texture: &Texture)
        ensures
            *texture == self.texture_view(),
    {
        &self.texture
    }
}

} // verus!
