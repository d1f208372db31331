//! Pipeline descriptions: vertex buffer layouts, vertex attributes, uniform descriptions, and
//! the byte buffer that holds the values of a shader's uniforms in `std140` layout.
use vstd::prelude::*;

use crate::graphics::layout::{
    align_up, lemma_align_up_bounds, std140_add_mat4, std140_add_scalar, std140_add_vec2,
    std140_add_vec3, std140_add_vec4, std140_sizer_len, std140_sizer_len_of, std140_sizer_new,
};
use crate::util::str_eq;

verus! {

/// Whether a buffer is indexed per vertex or per instance. Per-instance steps are useful for
/// holding transforms/different parameters when drawing many instances at once.
#[derive(Clone, Copy, Debug, PartialEq, Eq, Structural)]
pub enum VertexStep {
    PerInstance,
    PerVertex,
}

/// The layout of a vertex buffer object: whether it is per-vertex or per-instance.
#[derive(Clone, Copy, Debug, PartialEq, Eq, Structural)]
pub struct BufferLayout {
    pub step: VertexStep,
}

impl BufferLayout {
    /// A buffer indexed per vertex.
    pub fn vertex() -> (layout: Self)
        ensures
            layout.step == VertexStep::PerVertex,
    {
        Self { step: VertexStep::PerVertex }
    }

    /// A buffer indexed per instance.
    pub fn instance() -> (layout: Self)
        ensures
            layout.step == VertexStep::PerInstance,
    {
        Self { step: VertexStep::PerInstance }
    }
}

/// The format of one vertex attribute.
#[derive(Clone, Copy, Debug, PartialEq, Eq, Structural)]
pub enum VertexFormat {
    Float1,
    Float2,
    Float3,
    Float4,
    Byte1,
    Byte2,
    Byte3,
    Byte4,
    Short1,
    Short2,
    Short3,
    Short4,
    Int1,
    Int2,
    Int3,
    Int4,
    Mat4,
}

impl VertexFormat {
    /// The number of components of this format.
    pub open spec fn spec_size(self) -> int {
        match self {
            VertexFormat::Float1 | VertexFormat::Byte1 | VertexFormat::Short1
            | VertexFormat::Int1 => 1,
            VertexFormat::Float2 | VertexFormat::Byte2 | VertexFormat::Short2
            | VertexFormat::Int2 => 2,
            VertexFormat::Float3 | VertexFormat::Byte3 | VertexFormat::Short3
            | VertexFormat::Int3 => 3,
            VertexFormat::Float4 | VertexFormat::Byte4 | VertexFormat::Short4
            | VertexFormat::Int4 => 4,
            VertexFormat::Mat4 => 16,
        }
    }

    /// The size in bytes of one component of this format.
    pub open spec fn component_bytes(self) -> int {
        match self {
            VertexFormat::Byte1 | VertexFormat::Byte2 | VertexFormat::Byte3
            | VertexFormat::Byte4 => 1,
            VertexFormat::Short1 | VertexFormat::Short2 | VertexFormat::Short3
            | VertexFormat::Short4 => 2,
            _ => 4,
        }
    }

    /// The number of components of this format.
    pub fn size(&self) -> (n: i32)
        ensures
            n == self.spec_size(),
    {
        match self {
            VertexFormat::Float1 => 1,
            VertexFormat::Float2 => 2,
            VertexFormat::Float3 => 3,
            VertexFormat::Float4 => 4,
            VertexFormat::Byte1 => 1,
            VertexFormat::Byte2 => 2,
            VertexFormat::Byte3 => 3,
            VertexFormat::Byte4 => 4,
            VertexFormat::Short1 => 1,
            VertexFormat::Short2 => 2,
            VertexFormat::Short3 => 3,
            VertexFormat::Short4 => 4,
            VertexFormat::Int1 => 1,
            VertexFormat::Int2 => 2,
            VertexFormat::Int3 => 3,
            VertexFormat::Int4 => 4,
            VertexFormat::Mat4 => 16,
        }
    }

    /// The size in bytes of one attribute of this format: its number of components times the
    /// size of a component.
    pub fn byte_len(&self) -> (n: i32)
        ensures
            n == self.spec_size() * self.component_bytes(),
    {
        match self {
            VertexFormat::Float1 => 1 * 4,
            VertexFormat::Float2 => 2 * 4,
            VertexFormat::Float3 => 3 * 4,
            VertexFormat::Float4 => 4 * 4,
            VertexFormat::Byte1 => 1,
            VertexFormat::Byte2 => 2,
            VertexFormat::Byte3 => 3,
            VertexFormat::Byte4 => 4,
            VertexFormat::Short1 => 1 * 2,
            VertexFormat::Short2 => 2 * 2,
            VertexFormat::Short3 => 3 * 2,
            VertexFormat::Short4 => 4 * 2,
            VertexFormat::Int1 => 1 * 4,
            VertexFormat::Int2 => 2 * 4,
            VertexFormat::Int3 => 3 * 4,
            VertexFormat::Int4 => 4 * 4,
            VertexFormat::Mat4 => 16 * 4,
        }
    }
}

/// A named vertex attribute read from one of the pipeline's buffers.
#[derive(Clone, Debug)]
pub struct VertexAttribute {
    pub name: String,
    pub ty: VertexFormat,
    pub buffer_index: usize,
}

impl VertexAttribute {
    /// An attribute with the given name and format, read from the buffer at `buffer_index`.
    pub fn new(name: &str, ty: VertexFormat, buffer_index: usize) -> (attr: Self)
        ensures
            attr.name@ == name@,
            attr.ty == ty,
            attr.buffer_index == buffer_index,
    {
        Self { name: name.to_owned(), ty, buffer_index }
    }
}

/// The buffers and vertex attributes of a pipeline.
#[derive(Clone, Debug)]
pub struct PipelineLayout {
    pub buffer_layouts: Vec<BufferLayout>,
    pub attributes: Vec<VertexAttribute>,
}

impl Default for PipelineLayout {
    /// The layout of the default sprite pipeline: a per-vertex buffer holding position, texture
    /// coordinates and vertex color, and a per-instance buffer holding the source rectangle, the
    /// transform and the color.
    fn default() -> (layout: Self)
        ensures
            layout.buffer_layouts@ == seq![BufferLayout { step: VertexStep::PerVertex }, BufferLayout { step: VertexStep::PerInstance }],
            layout.attributes@.len() == 6,
            layout.attributes@[0].name@ == "a_Pos"@,
            layout.attributes@[0].ty == VertexFormat::Float3,
            layout.attributes@[0].buffer_index == 0,
            layout.attributes@[1].name@ == "a_Uv"@,
            layout.attributes@[1].ty == VertexFormat::Float2,
            layout.attributes@[1].buffer_index == 0,
            layout.attributes@[2].name@ == "a_VertColor"@,
            layout.attributes@[2].ty == VertexFormat::Float4,
            layout.attributes@[2].buffer_index == 0,
            layout.attributes@[3].name@ == "a_Src"@,
            layout.attributes@[3].ty == VertexFormat::Float4,
            layout.attributes@[3].buffer_index == 1,
            layout.attributes@[4].name@ == "a_Tx"@,
            layout.attributes@[4].ty == VertexFormat::Mat4,
            layout.attributes@[4].buffer_index == 1,
            layout.attributes@[5].name@ == "a_Color"@,
            layout.attributes@[5].ty == VertexFormat::Float4,
            layout.attributes@[5].buffer_index == 1,
    {
        let buffer_layouts = vec![BufferLayout::vertex(), BufferLayout::instance()];
        let attributes = vec![
            VertexAttribute::new("a_Pos", VertexFormat::Float3, 0),
            VertexAttribute::new("a_Uv", VertexFormat::Float2, 0),
            VertexAttribute::new("a_VertColor", VertexFormat::Float4, 0),
            VertexAttribute::new("a_Src", VertexFormat::Float4, 1),
            VertexAttribute::new("a_Tx", VertexFormat::Mat4, 1),
            VertexAttribute::new("a_Color", VertexFormat::Float4, 1),
        ];
        proof {
            assert(buffer_layouts@ =~= seq![BufferLayout { step: VertexStep::PerVertex }, BufferLayout { step: VertexStep::PerInstance }]);
        }
        Self { buffer_layouts, attributes }
    }
}

/// The type of a shader uniform.
#[derive(Clone, Copy, Debug, PartialEq, Eq, Structural)]
pub enum UniformType {
    Float1,
    Float2,
    Float3,
    Float4,
    Int1,
    Int2,
    Int3,
    Int4,
    Mat4,
}

impl UniformType {
    /// Whether uniform buffers support this type (all but the integer vectors).
    pub open spec fn is_std140_laid_out(self) -> bool {
        match self {
            UniformType::Int2 | UniformType::Int3 | UniformType::Int4 => false,
            _ => true,
        }
    }

    /// The `std140` alignment of this type, in bytes.
    pub open spec fn std140_alignment(self) -> int {
        match self {
            UniformType::Float1 | UniformType::Int1 => 4,
            UniformType::Float2 => 8,
            _ => 16,
        }
    }

    /// The `std140` size of this type, in bytes.
    pub open spec fn std140_size(self) -> int {
        match self {
            UniformType::Float1 | UniformType::Int1 => 4,
            UniformType::Float2 => 8,
            UniformType::Float3 => 12,
            UniformType::Float4 => 16,
            _ => 64,
        }
    }
}

/// A named shader uniform; `len` is the number of array elements (1 for a plain value).
#[derive(Clone, Debug)]
pub struct UniformDesc {
    pub name: String,
    pub ty: UniformType,
    pub len: usize,
}

impl UniformDesc {
    /// A plain (non-array) uniform.
    pub fn new(name: &str, ty: UniformType) -> (desc: Self)
        ensures
            desc.name@ == name@,
            desc.ty == ty,
            desc.len == 1,
    {
        Self { name: name.to_owned(), ty, len: 1 }
    }

    /// An array uniform of `len` elements.
    pub fn array(name: &str, ty: UniformType, len: usize) -> (desc: Self)
        ensures
            desc.name@ == name@,
            desc.ty == ty,
            desc.len == len,
    {
        Self { name: name.to_owned(), ty, len }
    }
}

/// The uniforms and image names of a shader.
#[derive(Clone, Debug)]
pub struct ShaderLayout {
    pub uniforms: Vec<UniformDesc>,
    pub images: Vec<String>,
}

impl Default for ShaderLayout {
    /// The layout of the default sprite shader: one texture `t_Texture` and one uniform, the
    /// model-view-projection matrix `u_MVP`.
    fn default() -> (layout: Self)
        ensures
            layout.images@.len() == 1,
            layout.images@[0]@ == "t_Texture"@,
            layout.uniforms@.len() == 1,
            layout.uniforms@[0].name@ == "u_MVP"@,
            layout.uniforms@[0].ty == UniformType::Mat4,
            layout.uniforms@[0].len == 1,
    {
        Self {
            images: vec!["t_Texture".to_owned()],
            uniforms: vec![UniformDesc::new("u_MVP", UniformType::Mat4)],
        }
    }
}

/// The offset just past the last of `descs` when their values are laid out one after the other
/// in `std140`.
pub open spec fn std140_end(descs: Seq<UniformDesc>) -> int
    decreases descs.len(),
{
    if descs.len() == 0 {
        0
    } else {
        align_up(std140_end(descs.drop_last()), descs.last().ty.std140_alignment())
            + descs.last().ty.std140_size()
    }
}

/// The `std140` offset of the value of the uniform at `i` among `descs`.
pub open spec fn std140_offset(descs: Seq<UniformDesc>, i: int) -> int {
    align_up(std140_end(descs.take(i)), descs[i].ty.std140_alignment())
}

/// Whether the uniform at `j` is the first one named `name`.
pub open spec fn first_named(descs: Seq<UniformDesc>, name: Seq<char>, j: int) -> bool {
    &&& 0 <= j < descs.len()
    &&& descs[j].name@ == name
    &&& forall|k: int| 0 <= k < j ==> (#[trigger] descs[k]).name@ != name
}

/// `bytes` with the bytes from `at` on replaced by `value`.
pub open spec fn write_at(bytes: Seq<u8>, at: int, value: Seq<u8>) -> Seq<u8> {
    bytes.take(at) + value + bytes.skip(at + value.len())
}

/// Laid out sizes are not negative.
proof fn lemma_std140_end_nonneg(descs: Seq<UniformDesc>)
    ensures
        std140_end(descs) >= 0,
    decreases descs.len(),
{
    if descs.len() > 0 {
        lemma_std140_end_nonneg(descs.drop_last());
        lemma_align_up_bounds(std140_end(descs.drop_last()), descs.last().ty.std140_alignment());
    }
}

/// Laying out more uniforms never goes back.
proof fn lemma_std140_end_grows(descs: Seq<UniformDesc>, i: int)
    requires
        0 <= i <= descs.len(),
    ensures
        0 <= std140_end(descs.take(i)) <= std140_end(descs),
    decreases descs.len() - i,
{
    lemma_std140_end_nonneg(descs.take(i));
    if i == descs.len() {
        assert(descs.take(i) =~= descs);
    } else {
        lemma_std140_end_grows(descs, i + 1);
        let t = descs.take(i + 1);
        assert(t.drop_last() =~= descs.take(i));
        lemma_align_up_bounds(std140_end(descs.take(i)), t.last().ty.std140_alignment());
    }
}

/// Lays out a value of type `ty` with a `std140` sizer and returns the offset where it goes.
fn std140_add_uniform(sizer: &mut crevice::std140::Sizer, ty: UniformType) -> (at: usize)
    requires
        ty.is_std140_laid_out(),
        align_up(std140_sizer_len(*old(sizer)) as int, ty.std140_alignment()) + ty.std140_size()
            <= usize::MAX,
    ensures
        at == align_up(std140_sizer_len(*old(sizer)) as int, ty.std140_alignment()),
        std140_sizer_len(*final(sizer)) == at + ty.std140_size(),
{
    match ty {
        UniformType::Float1 => std140_add_scalar(sizer),
        UniformType::Int1 => std140_add_scalar(sizer),
        UniformType::Float2 => std140_add_vec2(sizer),
        UniformType::Float3 => std140_add_vec3(sizer),
        UniformType::Float4 => std140_add_vec4(sizer),
        _ => std140_add_mat4(sizer),
    }
}

/// A copy of a list of uniform descriptions.
fn copy_descs(descs: &Vec<UniformDesc>) -> (copy: Vec<UniformDesc>)
    ensures
        copy@ == descs@,
{
    let mut copy: Vec<UniformDesc> = Vec::new();
    let mut i: usize = 0;
    while i < descs.len()
        invariant
            i <= descs.len(),
            copy@ == descs@.take(i as int),
        decreases descs.len() - i,
    {
        let d = &descs[i];
        copy.push(UniformDesc { name: d.name.clone(), ty: d.ty, len: d.len });
        proof {
            assert(descs@.take(i + 1) =~= descs@.take(i as int).push(descs@[i as int]));
        }
        i += 1;
    }
    proof {
        assert(descs@.take(i as int) =~= descs@);
    }
    copy
}

/// The values of a shader's uniforms, as the bytes of a `std140` uniform block.
#[derive(Debug)]
pub struct Uniforms {
    bytes: Vec<u8>,
    descs: Vec<UniformDesc>,
    offsets: Vec<usize>,
}

impl Uniforms {
    /// The bytes of the uniform block.
    pub closed spec fn byte_view(&self) -> Seq<u8> {
        self.bytes@
    }

    /// The descriptions of the uniforms, in order.
    pub closed spec fn desc_view(&self) -> Seq<UniformDesc> {
        self.descs@
    }

    /// The offset of each uniform's value in the block.
    pub closed spec fn offset_view(&self) -> Seq<usize> {
        self.offsets@
    }

    /// A zeroed uniform block for the uniforms of `shader_layout`, each placed at its `std140`
    /// offset. Array uniforms and integer vector uniforms are not supported.
    pub fn new(shader_layout: &ShaderLayout) -> (u: Self)
        requires
            forall|i: int|
                0 <= i < shader_layout.uniforms@.len() ==> (#[trigger] shader_layout.uniforms@[i]).len
                    == 1 && shader_layout.uniforms@[i].ty.is_std140_laid_out(),
            std140_end(shader_layout.uniforms@) <= usize::MAX,
        ensures
            u.desc_view() == shader_layout.uniforms@,
            u.offset_view().len() == shader_layout.uniforms@.len(),
            forall|i: int|
                0 <= i < u.offset_view().len() ==> #[trigger] u.offset_view()[i] == std140_offset(
                    shader_layout.uniforms@,
                    i,
                ),
            u.byte_view() == Seq::new(std140_end(shader_layout.uniforms@) as nat, |i: int| 0u8),
    {
        let uniforms = &shader_layout.uniforms;
        let ghost us = uniforms@;
        let mut sizer = std140_sizer_new();
        let mut offsets: Vec<usize> = Vec::new();
        let mut i: usize = 0;
        proof {
            assert(us.take(0) =~= Seq::<UniformDesc>::empty());
        }
        while i < uniforms.len()
            invariant
                us == uniforms@,
                i <= us.len(),
                std140_sizer_len(sizer) == std140_end(us.take(i as int)),
                offsets@.len() == i,
                forall|j: int| 0 <= j < i ==> #[trigger] offsets@[j] == std140_offset(us, j),
                forall|j: int|
                    0 <= j < us.len() ==> (#[trigger] us[j]).len == 1
                        && us[j].ty.is_std140_laid_out(),
                std140_end(us) <= usize::MAX,
            decreases us.len() - i,
        {
            let desc = &uniforms[i];
            proof {
                let t = us.take(i + 1);
                assert(t.drop_last() =~= us.take(i as int));
                assert(t.last() == us[i as int]);
                lemma_std140_end_grows(us, i + 1);
            }
            let offset = std140_add_uniform(&mut sizer, desc.ty);
            offsets.push(offset);
            i += 1;
        }
        proof {
            assert(us.take(i as int) =~= us);
        }
        let mut bytes: Vec<u8> = Vec::new();
        bytes.resize(std140_sizer_len_of(&sizer), 0);
        proof {
            assert(bytes@ =~= Seq::new(std140_end(us) as nat, |i: int| 0u8));
        }
        Self { bytes, descs: copy_descs(uniforms), offsets }
    }

    /// The index of the first uniform named `name`, if there is one.
    pub fn get_uniform_index_by_name(&mut self, name: &str) -> (index: Option<usize>)
        ensures
            *final(self) == *old(self),
            match index {
                Some(i) => i < old(self).desc_view().len() && old(self).desc_view()[i as int].name@
                    == name@ && forall|j: int|
                    0 <= j < i ==> (#[trigger] old(self).desc_view()[j]).name@ != name@,
                None => forall|j: int|
                    0 <= j < old(self).desc_view().len() ==> (
                    #[trigger] old(self).desc_view()[j]).name@ != name@,
            },
    {
        self.position_of(name)
    }

    /// The index of the first uniform named `name`, if there is one.
    fn position_of(&self, name: &str) -> (index: Option<usize>)
        ensures
            match index {
                Some(i) => i < self.desc_view().len() && self.desc_view()[i as int].name@ == name@
                    && forall|j: int|
                    0 <= j < i ==> (#[trigger] self.desc_view()[j]).name@ != name@,
                None => forall|j: int|
                    0 <= j < self.desc_view().len() ==> (#[trigger] self.desc_view()[j]).name@
                        != name@,
            },
    {
        let mut i: usize = 0;
        while i < self.descs.len()
            invariant
                i <= self.descs@.len(),
                forall|j: int| 0 <= j < i ==> (#[trigger] self.descs@[j]).name@ != name@,
            decreases self.descs@.len() - i,
        {
            if str_eq(self.descs[i].name.as_str(), name) {
                return Some(i);
            }
            i += 1;
        }
        None
    }

    /// Writes `value` as the bytes of the uniform named `name` (the first one so named). There
    /// must be such a uniform, with room for `value` after its offset.
    pub fn set_uniform_by_name(&mut self, name: &str, value: &[u8])
        requires
            exists|j: int|
                0 <= j < old(self).desc_view().len() && (#[trigger] old(self).desc_view()[j]).name@
                    == name@,
            old(self).offset_view().len() == old(self).desc_view().len(),
            forall|j: int|
                #[trigger] first_named(old(self).desc_view(), name@, j) ==> old(self).offset_view()[j]
                    + value@.len() <= old(self).byte_view().len(),
        ensures
            exists|i: int|
                0 <= i < old(self).desc_view().len() && (#[trigger] old(self).desc_view()[i]).name@
                    == name@ && (forall|j: int|
                    0 <= j < i ==> (#[trigger] old(self).desc_view()[j]).name@ != name@)
                    && final(self).byte_view() == write_at(
                    old(self).byte_view(),
                    old(self).offset_view()[i] as int,
                    value@,
                ),
            final(self).desc_view() == old(self).desc_view(),
            final(self).offset_view() == old(self).offset_view(),
    {
        let found = self.position_of(name);
        match found {
            Some(i) => {
                assert(first_named(self.desc_view(), name@, i as int));
                self.set_uniform_by_index(i, value);
            },
            None => {
                proof {
                    let j = choose|j: int|
                        0 <= j < self.desc_view().len() && (#[trigger] self.desc_view()[j]).name@
                            == name@;
                    assert(self.desc_view()[j].name@ != name@);
                }
            },
        }
    }

    /// Writes `value` as the bytes of the uniform at `index`, from its offset on. There must be
    /// room for it.
    pub fn set_uniform_by_index(&mut self, index: usize, value: &[u8])
        requires
            index < old(self).offset_view().len(),
            old(self).offset_view()[index as int] + value@.len() <= old(self).byte_view().len(),
        ensures
            final(self).byte_view() == write_at(
                old(self).byte_view(),
                old(self).offset_view()[index as int] as int,
                value@,
            ),
            final(self).desc_view() == old(self).desc_view(),
            final(self).offset_view() == old(self).offset_view(),
    {
        let at = self.offsets[index];
        let ghost old_bytes = self.bytes@;
        let mut j: usize = 0;
        while j < value.len()
            invariant
                at + value@.len() <= old_bytes.len(),
                self.bytes@.len() == old_bytes.len(),
                j <= value@.len(),
                self.bytes@ == write_at(old_bytes, at as int, value@.take(j as int)),
                self.descs@ == old(self).descs@,
                self.offsets@ == old(self).offsets@,
            decreases value@.len() - j,
        {
            assert(at + j < self.bytes.len());
            self.bytes.set(at + j, value[j]);
            proof {
                assert(value@.take(j + 1) =~= value@.take(j as int).push(value@[j as int]));
                assert(self.bytes@ =~= write_at(old_bytes, at as int, value@.take(j + 1)));
            }
            j += 1;
        }
        proof {
            assert(value@.take(j as int) =~= value@);
        }
    }

    /// The bytes of the uniform block.
    pub fn as_bytes(&self) -> (bytes: &[u8])
        ensures
            bytes@ == self.byte_view(),
    {
        self.bytes.as_slice()
    }
}

} // verus!
