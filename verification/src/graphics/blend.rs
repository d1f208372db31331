//! How colors are blended when drawing onto what a buffer already holds, and how textures are
//! filtered.
use vstd::prelude::*;

verus! {

/// A filter mode for a texture or other image operation; pixel art wants `Nearest`.
#[derive(Debug, Clone, Copy, PartialEq, Eq, PartialOrd, Ord, Hash, Structural)]
pub enum FilterMode {
    Nearest,
    Linear,
}

/// The equation that combines the weighted source and destination colors.
#[derive(Debug, Clone, Copy, PartialEq, Eq, Structural)]
pub enum BlendEquation {
    /// `src * source_color + dst * destination_color`.
    Add,
    /// `src * source_color - dst * destination_color`.
    Sub,
    /// `dst * destination_color - src * source_color`.
    ReverseSub,
}

/// A weight that a color is multiplied by when blending.
#[derive(Debug, Clone, Copy, PartialEq, Eq, Structural)]
pub enum BlendFactor {
    Zero,
    One,
    SourceColor,
    SourceAlpha,
    DestinationColor,
    DestinationAlpha,
    OneMinusSourceColor,
    OneMinusSourceAlpha,
    OneMinusDestinationColor,
    OneMinusDestinationAlpha,
    SourceAlphaSaturate,
}

/// A blending formula: an equation, the source color's factor and the destination color's
/// factor.
#[derive(Debug, Clone, Copy, PartialEq, Eq, Structural)]
pub struct BlendMode {
    pub eq: BlendEquation,
    pub src: BlendFactor,
    pub dst: BlendFactor,
}

impl BlendMode {
    /// A blend mode from an equation, a source factor and a destination factor.
    pub fn new(eq: BlendEquation, src: BlendFactor, dst: BlendFactor) -> (mode: Self)
        ensures
            mode == (BlendMode { eq, src, dst }),
    {
        BlendMode { eq, src, dst }
    }
}

impl Default for BlendMode {
    /// Alpha blending: the source weighted by its alpha, added to the destination weighted by one
    /// minus the source's alpha.
    fn default() -> (mode: Self)
        ensures
            mode == (BlendMode {
                eq: BlendEquation::Add,
                src: BlendFactor::SourceAlpha,
                dst: BlendFactor::OneMinusSourceAlpha,
            }),
    {
        Self::new(BlendEquation::Add, BlendFactor::SourceAlpha, BlendFactor::OneMinusSourceAlpha)
    }
}

/// The indices of the two triangles of the unit quad that sprites are drawn on.
pub fn quad_indices() -> (indices: [u16; 6])
    ensures
        indices@ == seq![0u16, 1, 2, 0, 2, 3],
{
    [0, 1, 2, 0, 2, 3]
}

} // verus!
