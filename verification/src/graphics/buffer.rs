//! Formats of GPU buffers: the element types a vertex holds and how much data they take.
use std::sync::Arc;
use vstd::prelude::*;

use crate::graphics::layout::{
    align_up, lemma_align_up_bounds, std430_add_mat4, std430_add_scalar, std430_add_vec2,
    std430_add_vec3, std430_add_vec4, std430_sizer_len, std430_sizer_new,
};

verus! {

/// The type of one element of a vertex in a buffer.
#[derive(Clone, Copy, Debug, PartialEq, Eq, Structural)]
pub enum BufferElement {
    Float1,
    Float2,
    Float3,
    Float4,
    Byte1,
    Byte2,
    Byte3,
    Byte4,
    Short1,
    Short2,
    Short3,
    Short4,
    Int1,
    Int2,
    Int3,
    Int4,
    Mat4,
}

impl BufferElement {
    /// The number of scalar values in an element of this type.
    pub open spec fn spec_datum_count(self) -> nat {
        match self {
            BufferElement::Float1 => 1,
            BufferElement::Float2 => 2,
            BufferElement::Float3 => 3,
            BufferElement::Float4 => 4,
            BufferElement::Byte1 => 1,
            BufferElement::Byte2 => 2,
            BufferElement::Byte3 => 3,
            BufferElement::Byte4 => 4,
            BufferElement::Short1 => 1,
            BufferElement::Short2 => 2,
            BufferElement::Short3 => 3,
            BufferElement::Short4 => 4,
            BufferElement::Int1 => 1,
            BufferElement::Int2 => 2,
            BufferElement::Int3 => 3,
            BufferElement::Int4 => 4,
            BufferElement::Mat4 => 16,
        }
    }

    /// The number of scalar values in an element of this type.
    pub fn datum_count(&self) -> (n: usize)
        ensures
            n == self.spec_datum_count(),
    {
        match self {
            BufferElement::Float1 => 1,
            BufferElement::Float2 => 2,
            BufferElement::Float3 => 3,
            BufferElement::Float4 => 4,
            BufferElement::Byte1 => 1,
            BufferElement::Byte2 => 2,
            BufferElement::Byte3 => 3,
            BufferElement::Byte4 => 4,
            BufferElement::Short1 => 1,
            BufferElement::Short2 => 2,
            BufferElement::Short3 => 3,
            BufferElement::Short4 => 4,
            BufferElement::Int1 => 1,
            BufferElement::Int2 => 2,
            BufferElement::Int3 => 3,
            BufferElement::Int4 => 4,
            BufferElement::Mat4 => 16,
        }
    }

    /// Whether the `std430` layout of buffer formats supports this element type (the float
    /// vectors and the 4x4 float matrix).
    pub open spec fn is_std430_laid_out(self) -> bool {
        match self {
            BufferElement::Float1 | BufferElement::Float2 | BufferElement::Float3
            | BufferElement::Float4 | BufferElement::Mat4 => true,
            _ => false,
        }
    }

    /// The `std430` alignment of this element type, in bytes.
    pub open spec fn std430_alignment(self) -> int {
        match self {
            BufferElement::Float1 => 4,
            BufferElement::Float2 => 8,
            _ => 16,
        }
    }

    /// The `std430` size of this element type, in bytes.
    pub open spec fn std430_size(self) -> int {
        match self {
            BufferElement::Float1 => 4,
            BufferElement::Float2 => 8,
            BufferElement::Float3 => 12,
            BufferElement::Float4 => 16,
            _ => 64,
        }
    }
}

/// The total number of scalar values in a vertex made of `types`.
pub open spec fn datum_sum(types: Seq<BufferElement>) -> nat
    decreases types.len(),
{
    if types.len() == 0 {
        0
    } else {
        datum_sum(types.drop_last()) + types.last().spec_datum_count()
    }
}

/// The offset just past the last of `types` when they are laid out one after the other in
/// `std430`.
pub open spec fn std430_end(types: Seq<BufferElement>) -> int
    decreases types.len(),
{
    if types.len() == 0 {
        0
    } else {
        align_up(std430_end(types.drop_last()), types.last().std430_alignment())
            + types.last().std430_size()
    }
}

/// The size of one vertex made of `types` in a `std430` array: the laid out size padded so that
/// the next vertex's first element is aligned.
pub open spec fn std430_padded_size(types: Seq<BufferElement>) -> int {
    if types.len() == 0 {
        0
    } else {
        align_up(std430_end(types), types[0].std430_alignment())
    }
}

/// The layout of one vertex in a buffer: its element types, in order.
#[derive(Clone, Debug)]
pub struct BufferFormat {
    pub types: Arc<Vec<BufferElement>>,
}

/// Laying out more elements never goes back.
proof fn lemma_std430_end_grows(types: Seq<BufferElement>, i: int)
    requires
        0 <= i <= types.len(),
    ensures
        0 <= std430_end(types.take(i)) <= std430_end(types),
    decreases types.len() - i,
{
    if i == types.len() {
        assert(types.take(i) =~= types);
        lemma_std430_end_nonneg(types);
    } else {
        lemma_std430_end_grows(types, i + 1);
        let t = types.take(i + 1);
        assert(t.drop_last() =~= types.take(i));
        lemma_std430_end_nonneg(types.take(i));
        lemma_align_up_bounds(std430_end(types.take(i)), t.last().std430_alignment());
    }
}

/// Laid out sizes are not negative.
proof fn lemma_std430_end_nonneg(types: Seq<BufferElement>)
    ensures
        std430_end(types) >= 0,
    decreases types.len(),
{
    if types.len() > 0 {
        lemma_std430_end_nonneg(types.drop_last());
        lemma_align_up_bounds(std430_end(types.drop_last()), types.last().std430_alignment());
    }
}

/// Lays `ty` out with a `std430` sizer and returns the offset where it goes.
fn std430_add_element(sizer: &mut crevice::std430::Sizer, ty: BufferElement) -> (at: usize)
    requires
        ty.is_std430_laid_out(),
        align_up(std430_sizer_len(*old(sizer)) as int, ty.std430_alignment()) + ty.std430_size()
            <= usize::MAX,
    ensures
        at == align_up(std430_sizer_len(*old(sizer)) as int, ty.std430_alignment()),
        std430_sizer_len(*final(sizer)) == at + ty.std430_size(),
{
    match ty {
        BufferElement::Float1 => std430_add_scalar(sizer),
        BufferElement::Float2 => std430_add_vec2(sizer),
        BufferElement::Float3 => std430_add_vec3(sizer),
        BufferElement::Float4 => std430_add_vec4(sizer),
        _ => std430_add_mat4(sizer),
    }
}

impl BufferFormat {
    /// The total number of scalar values in one vertex.
    pub fn datum_count(&self) -> (n: usize)
        requires
            datum_sum(self.types@) <= usize::MAX,
        ensures
            n == datum_sum(self.types@),
    {
        let types: &Vec<BufferElement> = &self.types;
        let mut sum: usize = 0;
        let mut i: usize = 0;
        while i < types.len()
            invariant
                types@ == self.types@,
                i <= types.len(),
                sum == datum_sum(types@.take(i as int)),
                datum_sum(types@) <= usize::MAX,
            decreases types.len() - i,
        {
            proof {
                assert(types@.take(i + 1).drop_last() =~= types@.take(i as int));
                lemma_datum_sum_prefix(types@, i + 1);
            }
            sum = sum + types[i].datum_count();
            i += 1;
        }
        proof {
            assert(types@.take(i as int) =~= types@);
        }
        sum
    }

    /// The size in bytes of one vertex in a `std430` array, padding included: the elements are
    /// laid out one after the other, and the total is rounded up so that the next vertex's first
    /// element is aligned. Only float vectors and 4x4 float matrices have a `std430` layout here.
    pub fn byte_size_with_padding(&self) -> (size: usize)
        requires
            forall|i: int| 0 <= i < self.types@.len() ==> (#[trigger] self.types@[i]).is_std430_laid_out(),
            self.types@.len() > 0 ==> std430_padded_size(self.types@) + self.types@[0].std430_size()
                <= usize::MAX,
        ensures
            size == std430_padded_size(self.types@),
    {
        let types: &Vec<BufferElement> = &self.types;
        let n = types.len();
        if n == 0 {
            return 0;
        }
        let mut sizer = std430_sizer_new();
        let mut i: usize = 0;
        proof {
            assert(types@.take(0) =~= Seq::<BufferElement>::empty());
        }
        // lay the elements out, then the first one again so that the total includes the padding
        while i < n
            invariant
                types@ == self.types@,
                n == types.len(),
                n > 0,
                i <= n,
                std430_sizer_len(sizer) == std430_end(types@.take(i as int)),
                forall|j: int| 0 <= j < n ==> (#[trigger] types@[j]).is_std430_laid_out(),
                std430_padded_size(types@) + types@[0].std430_size() <= usize::MAX,
            decreases n - i,
        {
            proof {
                let t = types@.take(i + 1);
                assert(t.drop_last() =~= types@.take(i as int));
                assert(t.last() == types@[i as int]);
                lemma_std430_end_grows(types@, i + 1);
                lemma_align_up_bounds(std430_end(types@), types@[0].std430_alignment());
            }
            std430_add_element(&mut sizer, types[i]);
            i += 1;
        }
        proof {
            assert(types@.take(n as int) =~= types@);
        }
        let last_size = std430_add_element(&mut sizer, types[0]);
        last_size
    }
}

/// The total of a prefix one longer.
proof fn lemma_datum_sum_prefix(types: Seq<BufferElement>, i: int)
    requires
        1 <= i <= types.len(),
    ensures
        datum_sum(types.take(i)) == datum_sum(types.take(i - 1)) + types[i - 1].spec_datum_count(),
        datum_sum(types.take(i)) <= datum_sum(types),
    decreases types.len() - i,
{
    assert(types.take(i).drop_last() =~= types.take(i - 1));
    if i < types.len() {
        lemma_datum_sum_prefix(types, i + 1);
    } else {
        assert(types.take(i) =~= types);
    }
}

/// Whether a buffer holds vertices or indices.
#[derive(Clone, Copy, Debug, PartialEq, Eq, Structural)]
pub enum BufferType {
    VertexBuffer,
    IndexBuffer,
}

/// What the library reads of a GPU buffer object: its name on the GPU and its size in bytes.
#[derive(Clone, Copy, Debug, PartialEq, Eq, Structural)]
pub struct BufferHandle {
    pub buffer: u32,
    pub size: usize,
}

/// A GPU buffer together with what it is for: whether it can be updated, whether it holds
/// vertices or indices, and the layout of its vertices when it has one.
#[derive(Debug)]
pub struct OwnedBuffer {
    pub handle: BufferHandle,
    pub mutable: bool,
    pub buffer_type: BufferType,
    pub format: Option<BufferFormat>,
}

impl OwnedBuffer {
    /// Wraps a GPU buffer with its mutability, type and vertex layout.
    pub fn from_inner(
        handle: BufferHandle,
        mutable: bool,
        buffer_type: BufferType,
        format: Option<BufferFormat>,
    ) -> (b: Self)
        ensures
            b.handle == handle,
            b.mutable == mutable,
            b.buffer_type == buffer_type,
            b.format == format,
    {
        Self { handle, mutable, buffer_type, format }
    }

    /// The layout of the buffer's vertices, if it was given one.
    pub fn format(&self) -> (f: Option<&BufferFormat>)
        ensures
            f is None <==> self.format is None,
            f matches Some(x) ==> self.format == Some(*x),
    {
        self.format.as_ref()
    }
}

} // verus!
