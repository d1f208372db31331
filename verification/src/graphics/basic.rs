//! The built-in sprite shader.
use vstd::prelude::*;

use crate::graphics::pipeline::{ShaderLayout, UniformDesc, UniformType};

verus! {

/// The layout of the built-in sprite shader: one texture `t_Texture` and one uniform, the
/// model-view-projection matrix `u_MVP`.
pub fn meta() -> (layout: ShaderLayout)
    ensures
        layout.images@.len() == 1,
        layout.images@[0]@ == "t_Texture"@,
        layout.uniforms@.len() == 1,
        layout.uniforms@[0].name@ == "u_MVP"@,
        layout.uniforms@[0].ty == UniformType::Mat4,
        layout.uniforms@[0].len == 1,
{
    ShaderLayout {
        images: vec!["t_Texture".to_owned()],
        uniforms: vec![UniformDesc::new("u_MVP", UniformType::Mat4)],
    }
}

} // verus!
