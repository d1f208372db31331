//! Graphics data: buffer and pipeline formats, uniform layouts, sprite animation tags, and the
//! small value types that the drawing code passes around.
pub mod atlas;
pub mod basic;
pub mod blend;
pub mod buffer;
pub mod layout;
pub mod lua;
pub mod pipeline;
pub mod sprite;
pub mod text;
pub mod texture;
pub mod transform_stack;
