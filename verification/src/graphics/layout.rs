//! GLSL memory layouts (`std140` for uniform blocks, `std430` for storage buffers), computed with
//! the `crevice` crate's sizers. Each type is placed at the next offset aligned to its alignment,
//! and takes its size in bytes.
use vstd::prelude::*;

verus! {

/// `offset` rounded up to a multiple of `alignment`.
pub open spec fn align_up(offset: int, alignment: int) -> int {
    if offset % alignment == 0 {
        offset
    } else {
        offset + (alignment - offset % alignment)
    }
}

#[verifier::external_type_specification]
#[verifier::external_body]
pub struct ExStd140Sizer(crevice::std140::Sizer);

#[verifier::external_type_specification]
#[verifier::external_body]
pub struct ExStd430Sizer(crevice::std430::Sizer);

/// The number of bytes laid out so far by a `std140` sizer (its private `offset`).
pub uninterp spec fn std140_sizer_len(sizer: crevice::std140::Sizer) -> nat;

/// The number of bytes laid out so far by a `std430` sizer (its private `offset`).
pub uninterp spec fn std430_sizer_len(sizer: crevice::std430::Sizer) -> nat;

/// `crevice::std140::Sizer::new`: a sizer that has laid out nothing.
#[verifier::external_body]
pub(crate) fn std140_sizer_new() -> (sizer: crevice::std140::Sizer)
    ensures
        std140_sizer_len(sizer) == 0,
{
    crevice::std140::Sizer::new()
}

/// `crevice::std140::Sizer::len`: the number of bytes laid out so far.
#[verifier::external_body]
pub(crate) fn std140_sizer_len_of(sizer: &crevice::std140::Sizer) -> (len: usize)
    ensures
        len == std140_sizer_len(*sizer),
{
    sizer.len()
}

/// `crevice::std140::Sizer::add::<i32>`: pads to alignment 4 and lays out 4 bytes; returns the
/// offset where the value goes. Every 4-byte scalar (a float, a signed or an unsigned integer)
/// has this `std140` layout.
#[verifier::external_body]
pub(crate) fn std140_add_scalar(sizer: &mut crevice::std140::Sizer) -> (at: usize)
    requires
        align_up(std140_sizer_len(*old(sizer)) as int, 4) + 4 <= usize::MAX,
    ensures
        at == align_up(std140_sizer_len(*old(sizer)) as int, 4),
        std140_sizer_len(*final(sizer)) == at + 4,
{
    sizer.add::<i32>()
}

/// `crevice::std140::Sizer::add::<Vec2>`: pads to alignment 8 and lays out 8 bytes; returns the
/// offset where the value goes.
#[verifier::external_body]
pub(crate) fn std140_add_vec2(sizer: &mut crevice::std140::Sizer) -> (at: usize)
    requires
        align_up(std140_sizer_len(*old(sizer)) as int, 8) + 8 <= usize::MAX,
    ensures
        at == align_up(std140_sizer_len(*old(sizer)) as int, 8),
        std140_sizer_len(*final(sizer)) == at + 8,
{
    sizer.add::<crevice::std140::Vec2>()
}

/// `crevice::std140::Sizer::add::<Vec3>`: pads to alignment 16 and lays out 12 bytes; returns
/// the offset where the value goes.
#[verifier::external_body]
pub(crate) fn std140_add_vec3(sizer: &mut crevice::std140::Sizer) -> (at: usize)
    requires
        align_up(std140_sizer_len(*old(sizer)) as int, 16) + 12 <= usize::MAX,
    ensures
        at == align_up(std140_sizer_len(*old(sizer)) as int, 16),
        std140_sizer_len(*final(sizer)) == at + 12,
{
    sizer.add::<crevice::std140::Vec3>()
}

/// `crevice::std140::Sizer::add::<Vec4>`: pads to alignment 16 and lays out 16 bytes; returns
/// the offset where the value goes.
#[verifier::external_body]
pub(crate) fn std140_add_vec4(sizer: &mut crevice::std140::Sizer) -> (at: usize)
    requires
        align_up(std140_sizer_len(*old(sizer)) as int, 16) + 16 <= usize::MAX,
    ensures
        at == align_up(std140_sizer_len(*old(sizer)) as int, 16),
        std140_sizer_len(*final(sizer)) == at + 16,
{
    sizer.add::<crevice::std140::Vec4>()
}

/// `crevice::std140::Sizer::add::<Mat4>`: pads to alignment 16 and lays out 64 bytes; returns
/// the offset where the value goes.
#[verifier::external_body]
pub(crate) fn std140_add_mat4(sizer: &mut crevice::std140::Sizer) -> (at: usize)
    requires
        align_up(std140_sizer_len(*old(sizer)) as int, 16) + 64 <= usize::MAX,
    ensures
        at == align_up(std140_sizer_len(*old(sizer)) as int, 16),
        std140_sizer_len(*final(sizer)) == at + 64,
{
    sizer.add::<crevice::std140::Mat4>()
}

/// `crevice::std430::Sizer::new`: a sizer that has laid out nothing.
#[verifier::external_body]
pub(crate) fn std430_sizer_new() -> (sizer: crevice::std430::Sizer)
    ensures
        std430_sizer_len(sizer) == 0,
{
    crevice::std430::Sizer::new()
}

/// `crevice::std430::Sizer::add::<i32>`: pads to alignment 4 and lays out 4 bytes; returns the
/// offset where the value goes. Every 4-byte scalar (a float, a signed or an unsigned integer)
/// has this `std430` layout.
#[verifier::external_body]
pub(crate) fn std430_add_scalar(sizer: &mut crevice::std430::Sizer) -> (at: usize)
    requires
        align_up(std430_sizer_len(*old(sizer)) as int, 4) + 4 <= usize::MAX,
    ensures
        at == align_up(std430_sizer_len(*old(sizer)) as int, 4),
        std430_sizer_len(*final(sizer)) == at + 4,
{
    sizer.add::<i32>()
}

/// `crevice::std430::Sizer::add::<Vec2>`: pads to alignment 8 and lays out 8 bytes; returns the
/// offset where the value goes.
#[verifier::external_body]
pub(crate) fn std430_add_vec2(sizer: &mut crevice::std430::Sizer) -> (at: usize)
    requires
        align_up(std430_sizer_len(*old(sizer)) as int, 8) + 8 <= usize::MAX,
    ensures
        at == align_up(std430_sizer_len(*old(sizer)) as int, 8),
        std430_sizer_len(*final(sizer)) == at + 8,
{
    sizer.add::<crevice::std430::Vec2>()
}

/// `crevice::std430::Sizer::add::<Vec3>`: pads to alignment 16 and lays out 12 bytes; returns
/// the offset where the value goes.
#[verifier::external_body]
pub(crate) fn std430_add_vec3(sizer: &mut crevice::std430::Sizer) -> (at: usize)
    requires
        align_up(std430_sizer_len(*old(sizer)) as int, 16) + 12 <= usize::MAX,
    ensures
        at == align_up(std430_sizer_len(*old(sizer)) as int, 16),
        std430_sizer_len(*final(sizer)) == at + 12,
{
    sizer.add::<crevice::std430::Vec3>()
}

/// `crevice::std430::Sizer::add::<Vec4>`: pads to alignment 16 and lays out 16 bytes; returns
/// the offset where the value goes.
#[verifier::external_body]
pub(crate) fn std430_add_vec4(sizer: &mut crevice::std430::Sizer) -> (at: usize)
    requires
        align_up(std430_sizer_len(*old(sizer)) as int, 16) + 16 <= usize::MAX,
    ensures
        at == align_up(std430_sizer_len(*old(sizer)) as int, 16),
        std430_sizer_len(*final(sizer)) == at + 16,
{
    sizer.add::<crevice::std430::Vec4>()
}

/// `crevice::std430::Sizer::add::<Mat4>`: pads to alignment 16 and lays out 64 bytes; returns
/// the offset where the value goes.
#[verifier::external_body]
pub(crate) fn std430_add_mat4(sizer: &mut crevice::std430::Sizer) -> (at: usize)
    requires
        align_up(std430_sizer_len(*old(sizer)) as int, 16) + 64 <= usize::MAX,
    ensures
        at == align_up(std430_sizer_len(*old(sizer)) as int, 16),
        std430_sizer_len(*final(sizer)) == at + 64,
{
    sizer.add::<crevice::std430::Mat4>()
}

/// Rounding up never goes down, and goes up by less than the alignment.
pub proof fn lemma_align_up_bounds(offset: int, alignment: int)
    requires
        offset >= 0,
        alignment > 0,
    ensures
        offset <= align_up(offset, alignment) < offset + alignment,
{
    vstd::arithmetic::div_mod::lemma_mod_bound(offset, alignment);
}

} // verus!
